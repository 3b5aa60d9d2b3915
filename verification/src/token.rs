//! The token service: signed, time-bounded session tokens that carry the
//! identity of a user. A token is valid under a secret at a time if its
//! signature verifies under the secret and the time lies before its expiry.
//! The clock is the caller's: every function takes the current time, in whole
//! seconds since the Unix epoch.

use vstd::prelude::*;

use crate::error::ErrorMessage;
use crate::outside::{jwt_decode, jwt_encode, signed_token, token_claims};

verus! {

/// What a token carries: the subject, the time of issue and the expiry.
#[derive(Debug, Clone)]
pub struct TokenClaims {
    pub sub: String,
    pub iat: u64,
    pub exp: u64,
}

impl View for TokenClaims {
    type V = (Seq<char>, u64, u64);

    open spec fn view(&self) -> (Seq<char>, u64, u64) {
        (self.sub@, self.iat, self.exp)
    }
}

/// Why no token was issued.
#[derive(Debug, Clone, Copy, PartialEq, Eq, Structural)]
pub enum TokenError {
    /// The subject is empty.
    EmptySubject,
    /// The expiry lies beyond the largest time that a token can carry.
    ExpiryOutOfRange,
    /// The signing primitive reported a failure.
    SigningFailed,
}

/// Why a token for the subject, issued at `now` with the given time to live,
/// is not signed, if it is not.
pub open spec fn issue_refusal(user_id: Seq<char>, now: u64, ttl: u64) -> Option<TokenError> {
    if user_id.len() == 0 {
        Some(TokenError::EmptySubject)
    } else if now + ttl > u64::MAX {
        Some(TokenError::ExpiryOutOfRange)
    } else {
        None
    }
}

/// What issuing a token gives. A refused request gives the refusal. Any
/// other gives the token signed under the secret for the subject, with the
/// time of issue `now` and the expiry `now + ttl`, from which the same claims
/// are read back under the same secret.
pub open spec fn issue_result(
    user_id: Seq<char>,
    secret: Seq<u8>,
    now: u64,
    ttl: u64,
    result: Result<String, TokenError>,
) -> bool {
    match issue_refusal(user_id, now, ttl) {
        Some(refused) => result == Err::<String, TokenError>(refused),
        None => {
            &&& result matches Ok(token)
            &&& token@ == signed_token(user_id, now, (now + ttl) as u64, secret)
            &&& token_claims(token@, secret) == Some((user_id, now, (now + ttl) as u64))
        },
    }
}

/// The subject of a token at the time `now`, given the claims that were read
/// from it: the subject where claims were read and `now` lies before the
/// expiry, an invalid token otherwise.
pub open spec fn subject_at(claims: Option<(Seq<char>, u64, u64)>, now: u64) -> Result<
    Seq<char>,
    ErrorMessage,
> {
    match claims {
        Some((sub, _, exp)) => if now < exp {
            Ok(sub)
        } else {
            Err(ErrorMessage::InvalidToken)
        },
        None => Err(ErrorMessage::InvalidToken),
    }
}

/// Whether `result` shows the outcome `expected` of a validation.
pub open spec fn shows(result: Result<String, ErrorMessage>, expected: Result<
    Seq<char>,
    ErrorMessage,
>) -> bool {
    match expected {
        Ok(sub) => result matches Ok(s) && s@ == sub,
        Err(e) => result == Err::<String, ErrorMessage>(e),
    }
}

/// What is reported for the outcome of the signing primitive: the token where
/// it made one, a signing failure where it failed.
pub fn signed_or_error(outcome: Result<String, jsonwebtoken::errors::Error>) -> (result: Result<
    String,
    TokenError,
>)
    ensures
        outcome matches Ok(token) ==> result == Ok::<String, TokenError>(token),
        outcome is Err ==> result == Err::<String, TokenError>(TokenError::SigningFailed),
{
    match outcome {
        Ok(token) => Ok(token),
        Err(_) => Err(TokenError::SigningFailed),
    }
}

/// The subject of a token at the time `now`, given the claims that were read
/// from it, or `None` where none were read.
pub fn subject_of(claims: Option<TokenClaims>, now: u64) -> (result: Result<String, ErrorMessage>)
    ensures
        shows(
            result,
            subject_at(
                match claims {
                    Some(c) => Some(c@),
                    None => None,
                },
                now,
            ),
        ),
{
    match claims {
        Some(c) => {
            if now < c.exp {
                Ok(c.sub)
            } else {
                Err(ErrorMessage::InvalidToken)
            }
        },
        None => Err(ErrorMessage::InvalidToken),
    }
}

/// Issues a token for the subject `user_id` at the time `now`, to expire
/// `expires_in_seconds` later, signed under the secret.
pub fn create_token(user_id: &str, secret: &[u8], now: u64, expires_in_seconds: u64) -> (result:
    Result<String, TokenError>)
    ensures
        issue_result(user_id@, secret@, now, expires_in_seconds, result),
{
    if user_id.is_empty() {
        return Err(TokenError::EmptySubject);
    }
    match now.checked_add(expires_in_seconds) {
        None => Err(TokenError::ExpiryOutOfRange),
        Some(exp) => signed_or_error(jwt_encode(user_id, now, exp, secret)),
    }
}

/// Validates a token under the secret at the time `now` and gives its
/// subject. The comparison with the expiry is strict: at the expiry itself
/// the token is no longer valid.
pub fn decode_token(token: &str, secret: &[u8], now: u64) -> (result: Result<String, ErrorMessage>)
    ensures
        shows(result, subject_at(token_claims(token@, secret@), now)),
{
    let claims = match jwt_decode(token, secret) {
        Some((sub, iat, exp)) => Some(TokenClaims { sub, iat, exp }),
        None => None,
    };
    subject_of(claims, now)
}

/// A token that was issued validates, under the secret it was signed with and
/// at any time before its expiry, to the subject it was issued for.
pub proof fn law_issued_token_validates(
    user_id: Seq<char>,
    secret: Seq<u8>,
    now: u64,
    ttl: u64,
    issued: Result<String, TokenError>,
    at: u64,
)
    requires
        issue_result(user_id, secret, now, ttl, issued),
        issued is Ok,
        at < now + ttl,
    ensures
        subject_at(token_claims(issued->Ok_0@, secret), at) == Ok::<Seq<char>, ErrorMessage>(
            user_id,
        ),
{
}

/// A token that was issued is invalid, under the secret it was signed with,
/// at its expiry and at any time after it.
pub proof fn law_issued_token_expires(
    user_id: Seq<char>,
    secret: Seq<u8>,
    now: u64,
    ttl: u64,
    issued: Result<String, TokenError>,
    at: u64,
)
    requires
        issue_result(user_id, secret, now, ttl, issued),
        issued is Ok,
        at >= now + ttl,
    ensures
        subject_at(token_claims(issued->Ok_0@, secret), at) == Err::<Seq<char>, ErrorMessage>(
            ErrorMessage::InvalidToken,
        ),
{
}

/// Validation fails in one way only, and once a token has failed at some time
/// it fails at every later time.
pub proof fn law_validation_fails_for_good(
    claims: Option<(Seq<char>, u64, u64)>,
    at: u64,
    later: u64,
)
    requires
        at <= later,
        subject_at(claims, at) is Err,
    ensures
        subject_at(claims, at) == Err::<Seq<char>, ErrorMessage>(ErrorMessage::InvalidToken),
        subject_at(claims, later) == Err::<Seq<char>, ErrorMessage>(ErrorMessage::InvalidToken),
{
}

} // verus!
