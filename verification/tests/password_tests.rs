use auth_core::error::ErrorMessage;
use auth_core::password::{
    check_password, compare, hash, hashed_or_error, verdict_or_error, MAX_PASSWORD_LENGTH,
};

#[test]
fn hash_then_compare_accepts_the_password() {
    let hashed = hash("secret1").unwrap();
    assert_eq!(compare("secret1", &hashed), Ok(true));
}

#[test]
fn hash_is_not_the_plaintext() {
    let password = "secret1";
    let hashed = hash(password).unwrap();
    assert_ne!(hashed, password);
    assert!(!hashed.contains(password));
    assert!(hashed.starts_with("$argon2id$v=19$m=19456,t=2,p=1$"));
    assert!(hashed.len() > MAX_PASSWORD_LENGTH);
}

#[test]
fn compare_rejects_other_passwords() {
    let hashed = hash("secret1").unwrap();
    for other in ["secret2", "Secret1", "secret1 ", " secret1", "secret", "", "secret11"] {
        assert_eq!(compare(other, &hashed), Ok(false), "{:?}", other);
    }
    let long = "x".repeat(1000);
    assert_eq!(compare(&long, &hashed), Ok(false));
}

#[test]
fn two_hashes_of_one_password_differ() {
    let first = hash("secret1").unwrap();
    let second = hash("secret1").unwrap();
    assert_ne!(first, second);
    assert_eq!(compare("secret1", &first), Ok(true));
    assert_eq!(compare("secret1", &second), Ok(true));
}

#[test]
fn every_password_that_is_not_refused_is_hashed() {
    for password in ["a", "secret1", "with space", "ünïcödé", "$argon2id$v=19$", "\0\n"] {
        assert_eq!(check_password(password), None);
        let hashed = hash(password).unwrap();
        assert_eq!(compare(password, &hashed), Ok(true), "{:?}", password);
    }
}

#[test]
fn empty_password_is_refused() {
    assert_eq!(hash(""), Err(ErrorMessage::EmptyPassword));
    assert_eq!(check_password(""), Some(ErrorMessage::EmptyPassword));
}

#[test]
fn overlong_password_is_a_hashing_failure() {
    let at_limit = "a".repeat(MAX_PASSWORD_LENGTH);
    assert_eq!(check_password(&at_limit), None);
    let hashed = hash(&at_limit).unwrap();
    assert_eq!(compare(&at_limit, &hashed), Ok(true));
    let over = "a".repeat(MAX_PASSWORD_LENGTH + 1);
    assert_eq!(check_password(&over), Some(ErrorMessage::HashingError));
    assert_eq!(hash(&over), Err(ErrorMessage::HashingError));
}

#[test]
fn password_limit_counts_bytes() {
    // 33 characters of two bytes each: 66 bytes
    let wide = "é".repeat(33);
    assert_eq!(hash(&wide), Err(ErrorMessage::HashingError));
    // 32 characters of two bytes each: 64 bytes
    let fits = "é".repeat(32);
    assert!(hash(&fits).is_ok());
}

#[test]
fn malformed_stored_hash_is_a_format_failure() {
    for stored in ["", "secret1", "not a hash", "$", "$argon2id$v=19$m=1,t=1,p=1$!!$??"] {
        assert_eq!(
            compare("secret1", stored),
            Err(ErrorMessage::InvalidHashFormat),
            "{:?}",
            stored
        );
    }
}

#[test]
fn well_formed_text_without_a_digest_matches_nothing() {
    assert_eq!(compare("secret1", "$argon2id"), Ok(false));
    assert_eq!(compare("", "$argon2id$v=19$m=19456,t=2,p=1"), Ok(false));
}

#[test]
fn outcome_of_the_primitive_is_mapped() {
    assert_eq!(hashed_or_error(Ok("h".to_string())), Ok("h".to_string()));
    assert_eq!(
        hashed_or_error(Err(argon2::password_hash::Error::Password)),
        Err(ErrorMessage::HashingError)
    );
    assert_eq!(verdict_or_error(Ok(true)), Ok(true));
    assert_eq!(verdict_or_error(Ok(false)), Ok(false));
    assert_eq!(
        verdict_or_error(Err(argon2::password_hash::Error::PhcStringField)),
        Err(ErrorMessage::InvalidHashFormat)
    );
}
