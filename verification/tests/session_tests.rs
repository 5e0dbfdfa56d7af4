//! End-to-end scenarios through the session manager, with the real hash and
//! token primitives linked in.

use auth_core::errors::{AuthError, InputFault, TokenFault};
use auth_core::forms::{LogoutForm, ManualLoginForm, RegisterForm, VerificationCodeForm};
use auth_core::jwt::validate_jwt;
use auth_core::model::{Email, LoginTypes};
use auth_core::oauth::GoogleUserResult;
use auth_core::session::{
    account_verification_service, get_user_by_id_service, issue_code, login_google_user_service,
    logout_user_service, manual_login_user_service, refresh_token_service, register_user_service,
    TokenConfig,
};
use auth_core::store::IdentityStore;

const NOW: u64 = 1_700_000_000;

fn config() -> TokenConfig {
    TokenConfig::new("secret".to_string())
}

fn ada_form() -> RegisterForm {
    RegisterForm {
        name: "Ada".to_string(),
        email: "a@example.com".to_string(),
        password: "Secret1!".to_string(),
    }
}

fn ada_login() -> ManualLoginForm {
    ManualLoginForm { email: "a@example.com".to_string(), password: "Secret1!".to_string() }
}

fn google_assertion(email: &str, name: &str) -> GoogleUserResult {
    GoogleUserResult {
        id: "google-id".to_string(),
        email: email.to_string(),
        verified_email: true,
        name: name.to_string(),
        given_name: String::new(),
        family_name: String::new(),
        picture: String::new(),
        locale: String::new(),
    }
}

#[test]
fn register_stores_unverified_user_and_issues_code() {
    let mut store = IdentityStore::new();
    let out = register_user_service(&mut store, &ada_form()).unwrap();
    assert_eq!(out.user.id, 0);
    assert_eq!(out.user.name, "Ada");
    assert_eq!(out.user.email, "a@example.com");
    assert!(!out.user.is_verified);
    assert_eq!(out.user.login_type, LoginTypes::MANUAL);
    assert_eq!(out.mail.email, "a@example.com");
    assert_eq!(out.mail.code.len(), 4);
    assert!(out.mail.code.chars().all(|c| c.is_ascii_alphanumeric()));
    let stored = store.get_user_by_email(&"a@example.com".to_string()).unwrap();
    assert_eq!(stored.id, Some(0));
    assert_eq!(stored.is_verified, Some(false));
    assert_eq!(stored.login_type, LoginTypes::MANUAL);
    assert!(stored.password.is_some());
    // The stored password is a hash, never the submitted plaintext.
    assert_ne!(stored.password.unwrap().as_str().as_str(), "Secret1!");
}

#[test]
fn register_rejects_duplicate_email_with_conflict() {
    let mut store = IdentityStore::new();
    register_user_service(&mut store, &ada_form()).unwrap();
    assert_eq!(
        register_user_service(&mut store, &ada_form()).err().unwrap(),
        AuthError::Conflict
    );
}

#[test]
fn register_rejects_bad_inputs_without_storing() {
    let mut store = IdentityStore::new();
    let mut form = ada_form();
    form.email = "nonsense".to_string();
    assert_eq!(
        register_user_service(&mut store, &form).err().unwrap(),
        AuthError::InvalidInput(InputFault::EmailFormat)
    );
    let mut form = ada_form();
    form.password = "weak".to_string();
    assert_eq!(
        register_user_service(&mut store, &form).err().unwrap(),
        AuthError::InvalidInput(InputFault::PasswordTooShort)
    );
    assert!(store.get_user_by_email(&"a@example.com".to_string()).is_none());
}

#[test]
fn full_account_lifecycle() {
    let mut store = IdentityStore::new();
    let cfg = config();

    // Register: 201-equivalent success, stored unverified.
    let out = register_user_service(&mut store, &ada_form()).unwrap();

    // Immediate login with the same credentials: forbidden, not a wrong
    // credential, and a fresh code goes out.
    let denied = manual_login_user_service(&mut store, &ada_login(), &cfg, NOW).err().unwrap();
    assert_eq!(denied.error, AuthError::ForbiddenUnverified);
    let mail = denied.mail.expect("unverified login should re-issue a code");
    assert_eq!(mail.email, "a@example.com");
    assert_eq!(mail.code.len(), 4);

    // Redeem the code from registration: account becomes verified.
    let form = VerificationCodeForm { email: "a@example.com".to_string(), code: out.mail.code };
    account_verification_service(&mut store, &form).unwrap();
    let user = store.get_user_by_email(&"a@example.com".to_string()).unwrap();
    assert_eq!(user.is_verified, Some(true));

    // Login now issues tokens and persists the refresh record.
    let resp = manual_login_user_service(&mut store, &ada_login(), &cfg, NOW).unwrap();
    assert_eq!(resp.user_id, 0);
    assert_eq!(resp.email, "a@example.com");
    assert_eq!(validate_jwt(&resp.access_token, "secret", NOW), Ok(0));
    assert_eq!(validate_jwt(&resp.refresh_token, "secret", NOW), Ok(0));
    assert!(store.find_refresh_token(&resp.refresh_token).is_some());
}

#[test]
fn login_with_unknown_email_is_wrong_email() {
    let mut store = IdentityStore::new();
    let denied = manual_login_user_service(&mut store, &ada_login(), &config(), NOW)
        .err()
        .unwrap();
    assert_eq!(denied.error, AuthError::WrongEmail);
    assert!(denied.mail.is_none());
}

#[test]
fn login_with_wrong_password_is_wrong_password() {
    let mut store = IdentityStore::new();
    register_user_service(&mut store, &ada_form()).unwrap();
    let form = ManualLoginForm {
        email: "a@example.com".to_string(),
        password: "Wrong9?x".to_string(),
    };
    let denied = manual_login_user_service(&mut store, &form, &config(), NOW).err().unwrap();
    assert_eq!(denied.error, AuthError::WrongPassword);
    assert!(denied.mail.is_none());
}

#[test]
fn login_with_malformed_password_is_invalid_input() {
    let mut store = IdentityStore::new();
    register_user_service(&mut store, &ada_form()).unwrap();
    let form = ManualLoginForm { email: "a@example.com".to_string(), password: "x".to_string() };
    let denied = manual_login_user_service(&mut store, &form, &config(), NOW).err().unwrap();
    assert_eq!(denied.error, AuthError::InvalidInput(InputFault::PasswordTooShort));
}

#[test]
fn second_code_redeems_and_invalidates_first() {
    let mut store = IdentityStore::new();
    let email = Email::parse("a@example.com".to_string()).unwrap();
    let first = issue_code(&mut store, &email);
    let second = issue_code(&mut store, &email);

    // Redeeming the second-issued code succeeds.
    let form = VerificationCodeForm { email: "a@example.com".to_string(), code: second };
    account_verification_service(&mut store, &form).unwrap();

    // Redemption purged every outstanding code: the first no longer matches.
    let form = VerificationCodeForm { email: "a@example.com".to_string(), code: first };
    assert_eq!(
        account_verification_service(&mut store, &form).err().unwrap(),
        AuthError::InvalidCode
    );
}

#[test]
fn wrong_code_is_rejected_and_kept_state() {
    let mut store = IdentityStore::new();
    let email = Email::parse("a@example.com".to_string()).unwrap();
    let code = issue_code(&mut store, &email);
    let wrong = if code == "AAAA" { "BBBB" } else { "AAAA" };
    let form = VerificationCodeForm { email: "a@example.com".to_string(), code: wrong.to_string() };
    assert_eq!(
        account_verification_service(&mut store, &form).err().unwrap(),
        AuthError::InvalidCode
    );
    // The issued code still redeems afterwards.
    let form = VerificationCodeForm { email: "a@example.com".to_string(), code };
    account_verification_service(&mut store, &form).unwrap();
}

#[test]
fn oauth_login_provisions_a_verified_account() {
    let mut store = IdentityStore::new();
    let cfg = config();
    let resp =
        login_google_user_service(&mut store, &google_assertion("g@example.com", "Grace"), &cfg, NOW)
            .unwrap();
    assert_eq!(resp.user_id, 0);
    assert_eq!(resp.email, "g@example.com");
    let user = store.get_user_by_email(&"g@example.com".to_string()).unwrap();
    assert_eq!(user.login_type, LoginTypes::GOOGLE);
    assert_eq!(user.is_verified, Some(true));
    assert!(user.password.is_none());

    // A second assertion for the same email reuses the account.
    let again =
        login_google_user_service(&mut store, &google_assertion("g@example.com", "Grace"), &cfg, NOW)
            .unwrap();
    assert_eq!(again.user_id, 0);
    assert_eq!(store.user_count(), 1);
}

#[test]
fn manual_login_against_provider_account_is_internal_error() {
    // A provider-provisioned account has no stored password to check against.
    let mut store = IdentityStore::new();
    let cfg = config();
    login_google_user_service(&mut store, &google_assertion("g@example.com", "Grace"), &cfg, NOW)
        .unwrap();
    let form = ManualLoginForm {
        email: "g@example.com".to_string(),
        password: "Secret1!".to_string(),
    };
    let denied = manual_login_user_service(&mut store, &form, &cfg, NOW).err().unwrap();
    assert_eq!(denied.error, AuthError::InternalError);
}

#[test]
fn oauth_login_rejects_malformed_email() {
    let mut store = IdentityStore::new();
    assert_eq!(
        login_google_user_service(&mut store, &google_assertion("not-an-email", "X"), &config(), NOW)
            .err()
            .unwrap(),
        AuthError::InvalidInput(InputFault::EmailFormat)
    );
}

#[test]
fn refresh_rotates_the_session() {
    let mut store = IdentityStore::new();
    let cfg = config();
    let resp =
        login_google_user_service(&mut store, &google_assertion("g@example.com", "Grace"), &cfg, NOW)
            .unwrap();

    let header = format!("Bearer {}", resp.refresh_token);
    let pair = refresh_token_service(&mut store, &header, &cfg, NOW + 10).unwrap();

    // The new pair carries the same user id as the original session.
    assert_eq!(validate_jwt(&pair.new_access_token, "secret", NOW + 10), Ok(resp.user_id));
    assert_eq!(validate_jwt(&pair.new_refresh_token, "secret", NOW + 10), Ok(resp.user_id));

    // Rotation consumed the presented record: the old value no longer rotates.
    assert_eq!(
        refresh_token_service(&mut store, &header, &cfg, NOW + 20).err().unwrap(),
        AuthError::Unauthorized(TokenFault::NotFound)
    );
    // The new refresh token does.
    let header = format!("Bearer {}", pair.new_refresh_token);
    refresh_token_service(&mut store, &header, &cfg, NOW + 30).unwrap();
}

#[test]
fn logout_invalidates_by_deletion_not_revocation() {
    let mut store = IdentityStore::new();
    let cfg = config();
    let resp =
        login_google_user_service(&mut store, &google_assertion("g@example.com", "Grace"), &cfg, NOW)
            .unwrap();

    let form = LogoutForm { refresh_token: resp.refresh_token.clone() };
    logout_user_service(&mut store, &form).unwrap();

    // The token's own signature and expiry are still nominally valid...
    assert_eq!(validate_jwt(&resp.refresh_token, "secret", NOW + 10), Ok(0));
    // ...but continuation finds no matching stored record.
    assert!(store.find_refresh_token(&resp.refresh_token).is_none());
    let header = format!("Bearer {}", resp.refresh_token);
    assert_eq!(
        refresh_token_service(&mut store, &header, &cfg, NOW + 10).err().unwrap(),
        AuthError::Unauthorized(TokenFault::NotFound)
    );
}

#[test]
fn refresh_rejects_bad_headers_and_expired_tokens() {
    let mut store = IdentityStore::new();
    let cfg = config();
    assert_eq!(
        refresh_token_service(&mut store, &"nope".to_string(), &cfg, NOW).err().unwrap(),
        AuthError::InvalidInput(InputFault::AuthHeaderFormat)
    );
    assert_eq!(
        refresh_token_service(&mut store, &"Bearer not.a.token".to_string(), &cfg, NOW)
            .err()
            .unwrap(),
        AuthError::Unauthorized(TokenFault::Invalid)
    );
    let resp =
        login_google_user_service(&mut store, &google_assertion("g@example.com", "Grace"), &cfg, NOW)
            .unwrap();
    let header = format!("Bearer {}", resp.refresh_token);
    // 1440 minutes later plus one second, the refresh token itself expired.
    let later = NOW + 1440 * 60 + 1;
    assert_eq!(
        refresh_token_service(&mut store, &header, &cfg, later).err().unwrap(),
        AuthError::Unauthorized(TokenFault::Expired)
    );
}

#[test]
fn user_lookup_by_string_id() {
    let mut store = IdentityStore::new();
    let cfg = config();
    login_google_user_service(&mut store, &google_assertion("g@example.com", "Grace"), &cfg, NOW)
        .unwrap();
    let found = get_user_by_id_service(&store, &"0".to_string()).unwrap();
    assert_eq!(found.unwrap().email.as_str().as_str(), "g@example.com");
    assert!(get_user_by_id_service(&store, &"7".to_string()).unwrap().is_none());
    assert_eq!(
        get_user_by_id_service(&store, &"seven".to_string()).err().unwrap(),
        AuthError::InvalidInput(InputFault::IdFormat)
    );
}
