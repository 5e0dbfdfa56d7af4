//! Token issuing, validation, and bearer-header extraction.

use auth_core::errors::{AuthError, InputFault, TokenFault};
use auth_core::jwt::{get_token, sign_jwt, validate_jwt};

const NOW: u64 = 1_700_000_000;
const SECRET: &str = "secret";

#[test]
fn issued_token_validates_to_its_user() {
    let token = sign_jwt(42, 5, NOW, SECRET).unwrap();
    assert_eq!(validate_jwt(&token, SECRET, NOW), Ok(42));
    // Any instant before the expiry is accepted.
    assert_eq!(validate_jwt(&token, SECRET, NOW + 299), Ok(42));
}

#[test]
fn expiry_boundary_is_strict_less_than() {
    // A token whose exp equals "now" is still valid; one tick later it is not.
    let token = sign_jwt(7, 0, NOW, SECRET).unwrap();
    assert_eq!(validate_jwt(&token, SECRET, NOW), Ok(7));
    assert_eq!(
        validate_jwt(&token, SECRET, NOW + 1),
        Err(AuthError::Unauthorized(TokenFault::Expired))
    );
}

#[test]
fn expired_token_is_unauthorized() {
    let token = sign_jwt(7, 5, NOW, SECRET).unwrap();
    assert_eq!(
        validate_jwt(&token, SECRET, NOW + 301),
        Err(AuthError::Unauthorized(TokenFault::Expired))
    );
}

#[test]
fn tampered_token_is_unauthorized() {
    let token = sign_jwt(7, 5, NOW, SECRET).unwrap();
    let mut tampered = token.clone();
    tampered.push('x');
    assert_eq!(
        validate_jwt(&tampered, SECRET, NOW),
        Err(AuthError::Unauthorized(TokenFault::Invalid))
    );
}

#[test]
fn wrong_secret_is_unauthorized() {
    let token = sign_jwt(7, 5, NOW, SECRET).unwrap();
    assert_eq!(
        validate_jwt(&token, "other-secret", NOW),
        Err(AuthError::Unauthorized(TokenFault::Invalid))
    );
}

#[test]
fn distinct_lifetimes_give_distinct_tokens() {
    let access = sign_jwt(7, 5, NOW, SECRET).unwrap();
    let refresh = sign_jwt(7, 1440, NOW, SECRET).unwrap();
    assert_ne!(access, refresh);
}

#[test]
fn bearer_extraction_takes_first_word() {
    assert_eq!(get_token("Bearer abc.def.ghi").unwrap(), "abc.def.ghi");
    assert_eq!(get_token("Bearer   spaced").unwrap(), "spaced");
    assert_eq!(get_token("Bearer one two").unwrap(), "one");
}

#[test]
fn bearer_extraction_rejects_missing_header() {
    assert_eq!(
        get_token(""),
        Err(AuthError::InvalidInput(InputFault::AuthHeaderMissing))
    );
}

#[test]
fn bearer_extraction_rejects_wrong_prefix() {
    assert_eq!(
        get_token("Token abc"),
        Err(AuthError::InvalidInput(InputFault::AuthHeaderFormat))
    );
    assert_eq!(
        get_token("Bearerabc"),
        Err(AuthError::InvalidInput(InputFault::AuthHeaderFormat))
    );
    assert_eq!(
        get_token("bearer abc"),
        Err(AuthError::InvalidInput(InputFault::AuthHeaderFormat))
    );
}

#[test]
fn bearer_extraction_rejects_prefix_without_token() {
    assert_eq!(
        get_token("Bearer    "),
        Err(AuthError::InvalidInput(InputFault::AuthHeaderNoToken))
    );
}

#[test]
fn round_trip_through_bearer_header() {
    let token = sign_jwt(9, 5, NOW, SECRET).unwrap();
    let header = format!("Bearer {token}");
    let extracted = get_token(&header).unwrap();
    assert_eq!(extracted, token);
    assert_eq!(validate_jwt(&extracted, SECRET, NOW), Ok(9));
}
