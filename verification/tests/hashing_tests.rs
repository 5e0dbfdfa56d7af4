//! The password-hash round trip through the real primitive.

use auth_core::errors::AuthError;
use auth_core::hashing::verify_password;
use auth_core::model::Password;

#[test]
fn hash_then_verify_succeeds_and_rejects_other_strings() {
    let password = Password::parse("Secret1!".to_string()).unwrap();
    let hash = password.hash().unwrap();
    // The original plaintext always verifies.
    assert_eq!(verify_password("Secret1!", hash.as_str()), Ok(true));
    // A different string does not.
    assert_eq!(verify_password("Secret1?", hash.as_str()), Ok(false));
    // The hash is salted: it never stores the plaintext.
    assert_ne!(hash.as_str().as_str(), "Secret1!");
}

#[test]
fn hash_has_the_fixed_shape_with_cost_twelve() {
    let password = Password::parse("Secret1!".to_string()).unwrap();
    let hash = password.hash().unwrap();
    assert_eq!(hash.as_str().len(), 60);
    assert!(hash.as_str().starts_with("$2b$12$"));
}

#[test]
fn malformed_stored_hash_is_internal_error() {
    assert_eq!(
        verify_password("Secret1!", "not-a-bcrypt-hash"),
        Err(AuthError::InternalError)
    );
}
