//! The credential hasher: a salted, memory-hard, one-way hash of a password,
//! and the check of a password against a stored hash.

use vstd::prelude::*;
use vstd::utf8::encode_utf8;

use crate::error::ErrorMessage;
use crate::outside::{argon2_hash, argon2_verify, fresh_salt, hash_is_well_formed, hash_matches};

verus! {

/// The largest number of bytes of a password that is hashed.
pub const MAX_PASSWORD_LENGTH: usize = 64;

/// Why a password is not hashed, if it is not: an empty one is refused as
/// empty, one of more bytes than the maximum as a hashing failure.
pub open spec fn refusal(password: Seq<char>) -> Option<ErrorMessage> {
    if password.len() == 0 {
        Some(ErrorMessage::EmptyPassword)
    } else if encode_utf8(password).len() > MAX_PASSWORD_LENGTH {
        Some(ErrorMessage::HashingError)
    } else {
        None
    }
}

/// What hashing a password gives. A refused password gives the refusal. Any
/// other gives a hash, against which the password verifies and which is not
/// the password itself. Which hash it is depends on the salt that was drawn.
pub open spec fn hash_result(password: Seq<char>, result: Result<String, ErrorMessage>) -> bool {
    match refusal(password) {
        Some(refused) => result == Err::<String, ErrorMessage>(refused),
        None => {
            &&& result matches Ok(hash)
            &&& hash_is_well_formed(hash@)
            &&& hash_matches(encode_utf8(password), hash@)
            &&& hash@ != password
        },
    }
}

/// What checking a password against a stored hash gives: whether the password
/// verifies, or a format failure where the stored text is no hash.
pub open spec fn compare_result(password: Seq<char>, hashed: Seq<char>) -> Result<
    bool,
    ErrorMessage,
> {
    if hash_is_well_formed(hashed) {
        Ok(hash_matches(encode_utf8(password), hashed))
    } else {
        Err(ErrorMessage::InvalidHashFormat)
    }
}

/// Tells whether a password is refused before any hashing, and why.
pub fn check_password(password: &str) -> (refused: Option<ErrorMessage>)
    ensures
        refused == refusal(password@),
{
    if password.is_empty() {
        Some(ErrorMessage::EmptyPassword)
    } else if password.as_bytes().len() > MAX_PASSWORD_LENGTH {
        Some(ErrorMessage::HashingError)
    } else {
        None
    }
}

/// A text has at most as many characters as its encoding has bytes.
pub proof fn lemma_encoding_length(text: Seq<char>)
    ensures
        text.len() <= encode_utf8(text).len(),
    decreases text.len(),
{
    if text.len() > 0 {
        lemma_encoding_length(text.drop_first());
    }
}

/// What is reported for the outcome of the hashing primitive: the hash where
/// it made one, a hashing failure where it failed.
pub fn hashed_or_error(outcome: Result<String, argon2::password_hash::Error>) -> (result: Result<
    String,
    ErrorMessage,
>)
    ensures
        outcome matches Ok(hash) ==> result == Ok::<String, ErrorMessage>(hash),
        outcome is Err ==> result == Err::<String, ErrorMessage>(ErrorMessage::HashingError),
{
    match outcome {
        Ok(hash) => Ok(hash),
        Err(_) => Err(ErrorMessage::HashingError),
    }
}

/// What is reported for the outcome of the verifying primitive: its verdict
/// where the stored text was a hash, a format failure where it was not.
pub fn verdict_or_error(outcome: Result<bool, argon2::password_hash::Error>) -> (result: Result<
    bool,
    ErrorMessage,
>)
    ensures
        outcome matches Ok(matched) ==> result == Ok::<bool, ErrorMessage>(matched),
        outcome is Err ==> result == Err::<bool, ErrorMessage>(ErrorMessage::InvalidHashFormat),
{
    match outcome {
        Ok(matched) => Ok(matched),
        Err(_) => Err(ErrorMessage::InvalidHashFormat),
    }
}

/// Hashes a password under a fresh random salt. The hash embeds the salt, so
/// two hashes of one password differ.
pub fn hash(password: &str) -> (result: Result<String, ErrorMessage>)
    ensures
        hash_result(password@, result),
{
    match check_password(password) {
        Some(refused) => Err(refused),
        None => {
            let salt = fresh_salt();
            proof {
                lemma_encoding_length(password@);
            }
            hashed_or_error(argon2_hash(password.as_bytes(), salt.as_str()))
        },
    }
}

/// Checks a password against a stored hash.
pub fn compare(password: &str, hashed_password: &str) -> (result: Result<bool, ErrorMessage>)
    ensures
        result == compare_result(password@, hashed_password@),
{
    verdict_or_error(argon2_verify(password.as_bytes(), hashed_password))
}

/// A password verifies against every hash that was made from it, and no such
/// hash is the password.
pub proof fn law_hash_then_compare(password: Seq<char>, hashed: Result<String, ErrorMessage>)
    requires
        hash_result(password, hashed),
        hashed is Ok,
    ensures
        compare_result(password, hashed->Ok_0@) == Ok::<bool, ErrorMessage>(true),
        hashed->Ok_0@ != password,
{
}

/// Hashing fails exactly on the passwords that are refused, with the refusal:
/// `EmptyPassword` or `HashingError`. Comparing fails with `InvalidHashFormat`
/// only.
pub proof fn law_hasher_failures(
    password: Seq<char>,
    hashed: Result<String, ErrorMessage>,
    stored: Seq<char>,
)
    requires
        hash_result(password, hashed),
    ensures
        hashed is Ok <==> refusal(password) is None,
        hashed matches Err(e) ==> refusal(password) == Some(e) && (e == ErrorMessage::EmptyPassword
            || e == ErrorMessage::HashingError),
        compare_result(password, stored) matches Err(e) ==> e == ErrorMessage::InvalidHashFormat,
{
}

} // verus!
