use auth_core::auth::{authenticate, extract_token, has_role, pending_user};
use auth_core::models::{Timestamp, User, UserRole};
use auth_core::token::create_token;

const KEY: &[u8] = b"signing-key-of-the-auth-tests";
const ALICE: u128 = 0xa1a2a3a4b1b2c1c2d1d2d3d4d5d6d7d8;
const ALICE_TEXT: &str = "a1a2a3a4-b1b2-c1c2-d1d2-d3d4d5d6d7d8";

fn user_with_role(role: UserRole) -> User {
    User {
        id: ALICE,
        name: "Alice".to_string(),
        email: "alice@x.com".to_string(),
        password: "$argon2id$stored".to_string(),
        role,
        photo: "default.png".to_string(),
        verified: false,
        created_at: Some(Timestamp { secs: 1_700_000_000, nanos: 0 }),
        updated_at: Some(Timestamp { secs: 1_700_000_000, nanos: 0 }),
    }
}

#[test]
fn token_comes_from_cookie_or_bearer_header() {
    assert_eq!(extract_token(Some("abc"), None), Some("abc".to_string()));
    assert_eq!(extract_token(None, Some("Bearer abc")), Some("abc".to_string()));
    assert_eq!(extract_token(Some("from-cookie"), Some("Bearer abc")), Some("from-cookie".to_string()));
    assert_eq!(extract_token(None, Some("Bearer ")), Some(String::new()));
    assert_eq!(extract_token(None, Some("Bearer a b")), Some("a b".to_string()));
    assert_eq!(extract_token(None, Some("Bearer tökén")), Some("tökén".to_string()));
    assert_eq!(extract_token(Some(""), None), Some(String::new()));
}

#[test]
fn no_token_where_none_is_carried() {
    assert_eq!(extract_token(None, None), None);
    assert_eq!(extract_token(None, Some("")), None);
    assert_eq!(extract_token(None, Some("Bearer")), None);
    assert_eq!(extract_token(None, Some("bearer abc")), None);
    assert_eq!(extract_token(None, Some("Basic dXNlcjpwYXNz")), None);
    assert_eq!(extract_token(None, Some("Béarer abc")), None);
    assert_eq!(extract_token(None, Some(" Bearer abc")), None);
}

#[test]
fn request_without_token_is_unauthorized() {
    let err = authenticate(None, None, KEY, 1_000).unwrap_err();
    assert_eq!(err.status, 401);
    assert_eq!(err.message, "You are not logged in, please provide a token");
    let err = authenticate(None, Some("Basic abc"), KEY, 1_000).unwrap_err();
    assert_eq!(err.status, 401);
    assert_eq!(err.message, "You are not logged in, please provide a token");
}

#[test]
fn request_with_garbage_token_is_unauthorized() {
    let err = authenticate(None, Some("Bearer garbage"), KEY, 1_000).unwrap_err();
    assert_eq!(err.status, 401);
    assert_eq!(err.message, "Invalid token");
    let err = authenticate(Some("garbage"), None, KEY, 1_000).unwrap_err();
    assert_eq!((err.status, err.message.as_str()), (401, "Invalid token"));
}

#[test]
fn request_with_valid_token_names_its_user() {
    let token = create_token(ALICE_TEXT, KEY, 1_000, 3_600).unwrap();
    let header = format!("Bearer {}", token);
    let pending = authenticate(None, Some(&header), KEY, 1_001).unwrap();
    assert_eq!(pending.user_id(), ALICE);
    let pending = authenticate(Some(&token), None, KEY, 4_599).unwrap();
    assert_eq!(pending.user_id(), ALICE);
}

#[test]
fn request_with_expired_token_is_unauthorized() {
    let token = create_token(ALICE_TEXT, KEY, 1_000, 3_600).unwrap();
    let err = authenticate(Some(&token), None, KEY, 4_600).unwrap_err();
    assert_eq!((err.status, err.message.as_str()), (401, "Invalid token"));
}

#[test]
fn token_signed_under_another_secret_is_unauthorized() {
    let token = create_token(ALICE_TEXT, b"someone-elses-key", 1_000, 3_600).unwrap();
    let err = authenticate(Some(&token), None, KEY, 1_001).unwrap_err();
    assert_eq!((err.status, err.message.as_str()), (401, "Invalid token"));
}

#[test]
fn token_whose_subject_is_no_identifier_is_invalid() {
    let token = create_token("alice", KEY, 1_000, 3_600).unwrap();
    let err = authenticate(Some(&token), None, KEY, 1_001).unwrap_err();
    assert_eq!((err.status, err.message.as_str()), (401, "Invalid token"));
}

#[test]
fn pending_user_of_a_parsed_identifier() {
    assert_eq!(pending_user(Some(7)).unwrap().user_id(), 7);
    let err = pending_user(None).unwrap_err();
    assert_eq!((err.status, err.message.as_str()), (401, "Invalid token"));
}

#[test]
fn deleted_user_is_unauthorized() {
    let token = create_token(ALICE_TEXT, KEY, 1_000, 3_600).unwrap();
    let pending = authenticate(Some(&token), None, KEY, 1_001).unwrap();
    let err = pending.resolve(None).unwrap_err();
    assert_eq!((err.status, err.message.as_str()), (401, "User does not exist"));
}

#[test]
fn resolved_user_is_attached() {
    let token = create_token(ALICE_TEXT, KEY, 1_000, 3_600).unwrap();
    let pending = authenticate(Some(&token), None, KEY, 1_001).unwrap();
    let auth = pending.resolve(Some(user_with_role(UserRole::Moderator))).unwrap();
    assert_eq!(auth.user().id, ALICE);
    assert_eq!(auth.user().email, "alice@x.com");
    assert_eq!(auth.user().role, UserRole::Moderator);
}

#[test]
fn resolved_user_is_the_one_that_the_token_named() {
    let token = create_token(ALICE_TEXT, KEY, 1_000, 3_600).unwrap();
    let pending = authenticate(Some(&token), None, KEY, 1_001).unwrap();
    let found = user_with_role(UserRole::User);
    assert_eq!(found.id, pending.user_id());
    let auth = pending.resolve(Some(found)).unwrap();
    assert_eq!(auth.user().id, ALICE);
}

#[test]
fn role_check_grants_or_denies() {
    let token = create_token(ALICE_TEXT, KEY, 1_000, 3_600).unwrap();
    let staff = [UserRole::Admin, UserRole::Moderator];
    for (role, granted) in
        [(UserRole::Admin, true), (UserRole::Moderator, true), (UserRole::User, false)]
    {
        let pending = authenticate(Some(&token), None, KEY, 1_001).unwrap();
        let auth = pending.resolve(Some(user_with_role(role))).unwrap();
        match auth.authorize(&staff) {
            Ok(authorized) => {
                assert!(granted);
                assert_eq!(authorized.user().role, role);
                assert_eq!(authorized.user().id, ALICE);
            }
            Err(err) => {
                assert!(!granted);
                assert_eq!(err.status, 403);
                assert_eq!(err.message, "You are not authorized to perform this action");
            }
        }
    }
}

#[test]
fn empty_set_of_roles_denies_everyone() {
    let token = create_token(ALICE_TEXT, KEY, 1_000, 3_600).unwrap();
    let pending = authenticate(Some(&token), None, KEY, 1_001).unwrap();
    let auth = pending.resolve(Some(user_with_role(UserRole::Admin))).unwrap();
    let err = auth.authorize(&[]).unwrap_err();
    assert_eq!(err.status, 403);
}

#[test]
fn has_role_is_membership() {
    assert!(has_role(&[UserRole::Admin, UserRole::Moderator], UserRole::Admin));
    assert!(has_role(&[UserRole::Admin, UserRole::Moderator], UserRole::Moderator));
    assert!(!has_role(&[UserRole::Admin, UserRole::Moderator], UserRole::User));
    assert!(has_role(&[UserRole::User, UserRole::User], UserRole::User));
    assert!(!has_role(&[], UserRole::Admin));
}
