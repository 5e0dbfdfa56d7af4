//! Email grammar and password policy, through the public parsers.

use auth_core::errors::{AuthError, InputFault};
use auth_core::model::{Email, Password};

fn email_err(raw: &str) -> AuthError {
    Email::parse(raw.to_string()).err().expect("email should be rejected")
}

#[test]
fn accepts_plain_email() {
    let e = Email::parse("a@example.com".to_string()).unwrap();
    assert_eq!(e.as_str().as_str(), "a@example.com");
    assert!(!e.is_empty());
}

#[test]
fn accepts_dotted_local_and_subdomains() {
    assert!(Email::parse("first.last@mail.example.co".to_string()).is_ok());
    assert!(Email::parse("user_name-1@sub.domain-x.org".to_string()).is_ok());
    assert!(Email::parse("a.b.c@x.y.museum".to_string()).is_ok());
}

#[test]
fn rejects_empty_email() {
    assert_eq!(email_err(""), AuthError::InvalidInput(InputFault::EmailRequired));
}

#[test]
fn rejects_missing_at() {
    assert_eq!(email_err("a.example.com"), AuthError::InvalidInput(InputFault::EmailFormat));
}

#[test]
fn rejects_bad_shapes() {
    for raw in [
        "@example.com",       // empty local part
        "a@",                 // empty domain
        "a@example",          // no dot in domain
        "a@example.c",        // top-level segment too short
        "a@example.abcdefgh", // top-level segment too long
        "a@example.c0m",      // digit in top-level segment
        ".a@example.com",     // local starts with a dot
        "a.@example.com",     // local ends with a dot
        "a..b@example.com",   // adjacent dots in local
        "a@.example.com",     // domain starts with a dot
        "a@example..com",     // adjacent dots in domain
        "a b@example.com",    // space in local
        "a@b@example.com",    // second at-sign in domain
        "a@exa mple.com",     // space in domain
    ] {
        assert_eq!(
            email_err(raw),
            AuthError::InvalidInput(InputFault::EmailFormat),
            "expected rejection of {raw:?}"
        );
    }
}

#[test]
fn accepts_hyphen_and_underscore() {
    assert!(Email::parse("a-b_c@ex-ample.com".to_string()).is_ok());
    assert!(Email::parse("-@x.co".to_string()).is_ok());
}

#[test]
fn accepts_policy_password() {
    let p = Password::parse("Secret1!".to_string()).unwrap();
    assert_eq!(p.as_str().as_str(), "Secret1!");
    assert!(!p.is_empty());
}

#[test]
fn rejects_empty_password() {
    assert_eq!(
        Password::parse("".to_string()).err().unwrap(),
        AuthError::InvalidInput(InputFault::PasswordRequired)
    );
}

#[test]
fn rejects_short_password() {
    assert_eq!(
        Password::parse("a1!".to_string()).err().unwrap(),
        AuthError::InvalidInput(InputFault::PasswordTooShort)
    );
}

#[test]
fn rejects_password_without_digit() {
    assert_eq!(
        Password::parse("abcdef!".to_string()).err().unwrap(),
        AuthError::InvalidInput(InputFault::PasswordNeedsDigit)
    );
}

#[test]
fn rejects_password_without_punctuation() {
    assert_eq!(
        Password::parse("abcdef1".to_string()).err().unwrap(),
        AuthError::InvalidInput(InputFault::PasswordNeedsPunct)
    );
}

#[test]
fn password_fault_order_is_length_before_digit() {
    // A short input missing everything is reported as too short first.
    assert_eq!(
        Password::parse("abc".to_string()).err().unwrap(),
        AuthError::InvalidInput(InputFault::PasswordTooShort)
    );
}
