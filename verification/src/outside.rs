//! The calls that leave this crate, each behind a contract that the verifier
//! takes on trust. Nothing here is proved: every item says in its comment
//! which outside function it stands for and what is claimed of it.

use vstd::prelude::*;

use crate::models::uuid_text;

verus! {

/// Whether `validator::ValidateEmail::validate_email` takes the text for an
/// e-mail address. The check follows the HTML5 rules for an address and is a
/// function of the text alone.
pub uninterp spec fn email_is_valid(email: Seq<char>) -> bool;

/// Calls `validator::ValidateEmail::validate_email` on the text. The result is
/// given its name; nothing more is claimed of it.
#[verifier::external_body]
pub(crate) fn validate_email(email: &str) -> (valid: bool)
    ensures
        valid == email_is_valid(email@),
{
    validator::ValidateEmail::validate_email(&email)
}

/// The 128-bit value of the identifier that `uuid::Uuid::parse_str` reads from
/// the text, or `None` where it reads none.
pub uninterp spec fn uuid_from_text(text: Seq<char>) -> Option<u128>;

/// Calls `uuid::Uuid::from_u128` and writes the identifier with its `Display`
/// impl. Claimed: the text is the hyphenated lower-case form that `uuid_text`
/// spells out, and `parse_str` reads the same identifier back from it.
#[verifier::external_body]
pub(crate) fn uuid_to_string(id: u128) -> (text: String)
    ensures
        text@ == uuid_text(id),
        uuid_from_text(text@) == Some(id),
{
    uuid::Uuid::from_u128(id).to_string()
}

/// Calls `uuid::Uuid::parse_str` and takes the 128-bit value of what it read.
#[verifier::external_body]
pub(crate) fn parse_uuid(text: &str) -> (id: Option<u128>)
    ensures
        id == uuid_from_text(text@),
{
    match uuid::Uuid::parse_str(text) {
        Ok(uuid) => Some(uuid.as_u128()),
        Err(_) => None,
    }
}

/// The error type of the `password-hash` crate, as `argon2` hands it out.
#[verifier::external_type_specification]
#[verifier::external_body]
pub struct ExPasswordHashError(argon2::password_hash::Error);

/// Whether `argon2::PasswordHash::new` accepts the text as a hash in the PHC
/// string format.
pub uninterp spec fn hash_is_well_formed(hash: Seq<char>) -> bool;

/// Whether `argon2::Argon2::verify_password`, with the default parameters,
/// accepts the password for the hash that the text holds.
pub uninterp spec fn hash_matches(password: Seq<u8>, hash: Seq<char>) -> bool;

/// Whether `c` is of the alphabet of the B64 encoding: a letter, a digit, `+`
/// or `/`.
pub open spec fn is_b64_char(c: char) -> bool {
    ('A' <= c && c <= 'Z') || ('a' <= c && c <= 'z') || ('0' <= c && c <= '9') || c == '+' || c
        == '/'
}

/// Whether the text is the B64 encoding, without padding, of some 16 bytes:
/// 22 characters of the alphabet, the last of which carries two bits only and
/// so is one of `A`, `Q`, `g` and `w`.
pub open spec fn is_salt_text(salt: Seq<char>) -> bool {
    &&& salt.len() == 22
    &&& forall|i: int| 0 <= i < 22 ==> is_b64_char(#[trigger] salt[i])
    &&& (salt[21] == 'A' || salt[21] == 'Q' || salt[21] == 'g' || salt[21] == 'w')
}

/// Calls `argon2::password_hash::SaltString::generate` on the operating
/// system's random source. Claimed of every salt: it is the B64 encoding of
/// the 16 bytes that were drawn. Which bytes were drawn is not said.
#[verifier::external_body]
pub(crate) fn fresh_salt() -> (salt: String)
    ensures
        is_salt_text(salt@),
{
    argon2::password_hash::SaltString::generate(&mut argon2::password_hash::rand_core::OsRng)
        .as_str()
        .to_owned()
}

/// Calls `argon2::Argon2::hash_password` with the default parameters and the
/// given salt, and writes the hash in the PHC string format. Claimed: a hash
/// comes back where the salt encodes 16 bytes and the password has no more
/// bytes than Argon2 takes (2^32 - 1). Claimed of a hash that came back: it
/// parses, the password it was made from verifies against it, and its text
/// has more than 64 characters (the algorithm, the version and the parameters
/// take 30 of them, the 32 bytes of output another 43).
#[verifier::external_body]
pub(crate) fn argon2_hash(password: &[u8], salt: &str) -> (hashed: Result<
    String,
    argon2::password_hash::Error,
>)
    ensures
        is_salt_text(salt@) && password@.len() <= 0xFFFF_FFFF ==> hashed is Ok,
        hashed matches Ok(hash) ==> hash_is_well_formed(hash@) && hash_matches(password@, hash@)
            && hash@.len() > 64,
{
    let salt = argon2::password_hash::Salt::from_b64(salt)?;
    let hash = argon2::PasswordHasher::hash_password(&argon2::Argon2::default(), password, salt)?;
    Ok(hash.to_string())
}

/// Calls `argon2::PasswordHash::new` on the text and, where it parses,
/// `argon2::Argon2::verify_password` with the default parameters. An error
/// comes back exactly where the text does not parse; any refusal by
/// `verify_password` counts as a mismatch.
#[verifier::external_body]
pub(crate) fn argon2_verify(password: &[u8], hash: &str) -> (matched: Result<
    bool,
    argon2::password_hash::Error,
>)
    ensures
        matched is Ok <==> hash_is_well_formed(hash@),
        matched matches Ok(m) ==> m == hash_matches(password@, hash@),
{
    let parsed = argon2::PasswordHash::new(hash)?;
    Ok(argon2::PasswordVerifier::verify_password(&argon2::Argon2::default(), password, &parsed)
        .is_ok())
}

/// The error type of the `jsonwebtoken` crate.
#[verifier::external_type_specification]
#[verifier::external_body]
pub struct ExTokenError(jsonwebtoken::errors::Error);

/// The token that `jsonwebtoken::encode` makes, with the default header
/// (HS256), from the claims `sub`, `iat` and `exp` under the secret.
pub uninterp spec fn signed_token(sub: Seq<char>, iat: u64, exp: u64, secret: Seq<u8>) -> Seq<
    char,
>;

/// The claims `(sub, iat, exp)` that `jsonwebtoken::decode` reads from a token
/// whose HS256 signature verifies under the secret, with no look at the clock;
/// `None` where the token is malformed, the signature does not verify, or one
/// of the three claims is missing or of another type.
pub uninterp spec fn token_claims(token: Seq<char>, secret: Seq<u8>) -> Option<
    (Seq<char>, u64, u64),
>;

/// Calls `jsonwebtoken::encode` with the default header on the three claims.
/// Claimed: a token comes back, since neither writing the claims nor signing
/// with a secret of any length can fail; it is the named one, and `decode`
/// under the same secret reads the same three claims from it.
#[verifier::external_body]
pub(crate) fn jwt_encode(sub: &str, iat: u64, exp: u64, secret: &[u8]) -> (token: Result<
    String,
    jsonwebtoken::errors::Error,
>)
    ensures
        token is Ok,
        token matches Ok(t) ==> t@ == signed_token(sub@, iat, exp, secret@) && token_claims(
            t@,
            secret@,
        ) == Some((sub@, iat, exp)),
{
    let mut claims = std::collections::BTreeMap::new();
    claims.insert("sub", serde_json::Value::from(sub));
    claims.insert("iat", serde_json::Value::from(iat));
    claims.insert("exp", serde_json::Value::from(exp));
    let key = jsonwebtoken::EncodingKey::from_secret(secret);
    jsonwebtoken::encode(&jsonwebtoken::Header::default(), &claims, &key)
}

/// Calls `jsonwebtoken::decode` for HS256 with the check of the expiry against
/// the clock switched off, and takes the three claims out of what it read.
#[verifier::external_body]
pub(crate) fn jwt_decode(token: &str, secret: &[u8]) -> (claims: Option<(String, u64, u64)>)
    ensures
        claims matches Some(c) ==> token_claims(token@, secret@) == Some((c.0@, c.1, c.2)),
        claims is None ==> token_claims(token@, secret@) is None,
{
    let mut validation = jsonwebtoken::Validation::new(jsonwebtoken::Algorithm::HS256);
    validation.validate_exp = false;
    let key = jsonwebtoken::DecodingKey::from_secret(secret);
    let data = jsonwebtoken::decode::<serde_json::Value>(token, &key, &validation).ok()?;
    let sub = data.claims.get("sub")?.as_str()?.to_owned();
    Some((sub, data.claims.get("iat")?.as_u64()?, data.claims.get("exp")?.as_u64()?))
}

} // verus!
