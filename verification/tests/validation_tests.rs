use auth_core::dtos::{LoginUserDto, RegisterUserDto, RequestQueryDto};
use auth_core::validation::{Field, ValidationErrors, Violation};

fn registration(name: &str, email: &str, password: &str, confirm: &str) -> RegisterUserDto {
    RegisterUserDto {
        name: name.to_string(),
        email: email.to_string(),
        password: password.to_string(),
        password_confirm: confirm.to_string(),
    }
}

fn violations_of(result: Result<(), ValidationErrors>) -> Vec<Violation> {
    match result {
        Ok(()) => Vec::new(),
        Err(errors) => errors.violations,
    }
}

#[test]
fn valid_registration_passes() {
    let dto = registration("Alice", "alice@x.com", "secret1", "secret1");
    assert!(dto.validate().is_ok());
}

#[test]
fn registration_reports_each_rule() {
    let v = violations_of(registration("", "alice@x.com", "secret1", "secret1").validate());
    assert_eq!(v, vec![Violation::NameRequired]);
    let v = violations_of(registration("Alice", "not-an-email", "secret1", "secret1").validate());
    assert_eq!(v, vec![Violation::EmailInvalid]);
    let v = violations_of(registration("Alice", "alice@x.com", "12345", "12345").validate());
    assert_eq!(v, vec![Violation::PasswordTooShort]);
    let v = violations_of(registration("Alice", "alice@x.com", "secret1", "secret2").validate());
    assert_eq!(v, vec![Violation::PasswordMismatch]);
    let v = violations_of(registration("Alice", "alice@x.com", "secret1", "").validate());
    assert_eq!(v, vec![Violation::PasswordConfirmRequired, Violation::PasswordMismatch]);
}

#[test]
fn registration_reports_all_rules_in_declaration_order() {
    let v = violations_of(registration("", "", "", "").validate());
    assert_eq!(
        v,
        vec![
            Violation::NameRequired,
            Violation::EmailRequired,
            Violation::EmailInvalid,
            Violation::PasswordTooShort,
            Violation::PasswordConfirmRequired,
        ]
    );
}

#[test]
fn password_length_counts_characters() {
    // six characters, more than six bytes
    let dto = registration("Zoë", "zoe@x.com", "pässwö", "pässwö");
    assert!(dto.validate().is_ok());
    // five characters, more than six bytes
    let v = violations_of(registration("Zoë", "zoe@x.com", "äääää", "äääää").validate());
    assert_eq!(v, vec![Violation::PasswordTooShort]);
    // exactly six
    assert!(registration("A", "a@b.co", "123456", "123456").validate().is_ok());
}

#[test]
fn validation_with_a_given_email_verdict() {
    let dto = registration("Alice", "alice@x.com", "secret1", "secret1");
    assert!(dto.validate_with(true).is_ok());
    assert_eq!(violations_of(dto.validate_with(false)), vec![Violation::EmailInvalid]);
    let dto = LoginUserDto { email: "alice@x.com".to_string(), password: "secret1".to_string() };
    assert!(dto.validate_with(true).is_ok());
    assert_eq!(violations_of(dto.validate_with(false)), vec![Violation::EmailInvalid]);
}

#[test]
fn email_check_is_the_validators() {
    for good in ["email@here.com", "weirder-email@here.and.there.com", "email@[127.0.0.1]"] {
        let dto = registration("A", good, "secret1", "secret1");
        assert!(dto.validate().is_ok(), "{}", good);
    }
    for bad in ["abc", "abc@", "@x.com", "a b@x.com", "a@b@c@", "alice@x.com\n"] {
        let dto = registration("A", bad, "secret1", "secret1");
        assert_eq!(violations_of(dto.validate()), vec![Violation::EmailInvalid], "{}", bad);
    }
}

#[test]
fn revalidation_gives_the_same_violations() {
    let dto = registration("", "nope", "123", "456");
    let first = violations_of(dto.validate());
    let second = violations_of(dto.validate());
    let third = violations_of(dto.clone().validate());
    assert_eq!(first, second);
    assert_eq!(first, third);
    assert_eq!(
        first,
        vec![
            Violation::NameRequired,
            Violation::EmailInvalid,
            Violation::PasswordTooShort,
            Violation::PasswordMismatch,
        ]
    );
}

#[test]
fn default_inputs_are_empty() {
    let dto = RegisterUserDto::default();
    assert_eq!(
        (dto.name.as_str(), dto.email.as_str(), dto.password.as_str(), dto.password_confirm.as_str()),
        ("", "", "", "")
    );
    assert!(dto.validate().is_err());
    let dto = LoginUserDto::default();
    assert_eq!((dto.email.as_str(), dto.password.as_str()), ("", ""));
    assert!(dto.validate().is_err());
}

#[test]
fn login_validation() {
    let ok = LoginUserDto { email: "alice@x.com".to_string(), password: "secret1".to_string() };
    assert!(ok.validate().is_ok());
    let bad = LoginUserDto { email: String::new(), password: "short".to_string() };
    assert_eq!(
        violations_of(bad.validate()),
        vec![Violation::EmailRequired, Violation::EmailInvalid, Violation::PasswordTooShort]
    );
    let bad = LoginUserDto { email: "alice@x.com".to_string(), password: String::new() };
    assert_eq!(violations_of(bad.validate()), vec![Violation::PasswordTooShort]);
}

#[test]
fn query_validation_and_defaults() {
    let q = RequestQueryDto { page: None, limit: None };
    assert!(q.validate().is_ok());
    assert_eq!((q.page_or_default(), q.limit_or_default()), (1, 10));
    let q = RequestQueryDto { page: Some(1), limit: Some(1) };
    assert!(q.validate().is_ok());
    let q = RequestQueryDto { page: Some(7), limit: Some(50) };
    assert!(q.validate().is_ok());
    assert_eq!((q.page_or_default(), q.limit_or_default()), (7, 50));
    let q = RequestQueryDto { page: Some(0), limit: Some(10) };
    assert_eq!(violations_of(q.validate()), vec![Violation::PageTooSmall]);
    let q = RequestQueryDto { page: Some(1), limit: Some(0) };
    assert_eq!(violations_of(q.validate()), vec![Violation::LimitOutOfRange]);
    let q = RequestQueryDto { page: Some(1), limit: Some(51) };
    assert_eq!(violations_of(q.validate()), vec![Violation::LimitOutOfRange]);
    let q = RequestQueryDto { page: Some(0), limit: Some(usize::MAX) };
    assert_eq!(
        violations_of(q.validate()),
        vec![Violation::PageTooSmall, Violation::LimitOutOfRange]
    );
}

#[test]
fn violations_name_their_field_and_message() {
    assert_eq!(Violation::NameRequired.field(), Field::Name);
    assert_eq!(Violation::EmailRequired.field(), Field::Email);
    assert_eq!(Violation::EmailInvalid.field(), Field::Email);
    assert_eq!(Violation::PasswordTooShort.field(), Field::Password);
    assert_eq!(Violation::PasswordConfirmRequired.field(), Field::PasswordConfirm);
    assert_eq!(Violation::PasswordMismatch.field(), Field::PasswordConfirm);
    assert_eq!(Violation::PageTooSmall.field(), Field::Page);
    assert_eq!(Violation::LimitOutOfRange.field(), Field::Limit);
    assert_eq!(Field::PasswordConfirm.to_str(), "password_confirm");
    assert_eq!(Violation::NameRequired.to_str(), "Name is required");
    assert_eq!(Violation::EmailRequired.to_str(), "Email is required");
    assert_eq!(Violation::EmailInvalid.to_str(), "Email is invalid");
    assert_eq!(Violation::PasswordTooShort.to_str(), "Password must be at least 6 characters ");
    assert_eq!(Violation::PasswordConfirmRequired.to_str(), "Confirm Password is required");
    assert_eq!(
        Violation::PasswordMismatch.to_str(),
        "Password and confirm password do not match"
    );
}

#[test]
fn report_has_one_line_for_each_field() {
    let one = ValidationErrors { violations: vec![Violation::EmailInvalid] };
    assert_eq!(one.to_string(), "email: Email is invalid");
    let same_field =
        ValidationErrors { violations: vec![Violation::EmailRequired, Violation::EmailInvalid] };
    assert_eq!(same_field.to_string(), "email: Email is required, Email is invalid");
    let all = registration("", "", "", "").validate().unwrap_err();
    assert_eq!(
        all.to_string(),
        "name: Name is required\n\
         email: Email is required, Email is invalid\n\
         password: Password must be at least 6 characters \n\
         password_confirm: Confirm Password is required"
    );
    let none = ValidationErrors { violations: Vec::new() };
    assert_eq!(none.to_string(), "");
}
