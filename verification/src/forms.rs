//! Inbound request forms, as plain values the transport hands to the core.

use vstd::prelude::*;

verus! {

/// Raw user-creation payload.
#[derive(Debug, Clone)]
pub struct FormData {
    pub name: String,
    pub email: String,
    pub password: String,
}

/// Third-party login payload: the assertion token with the profile fields the
/// client sent along.
#[derive(Debug, Clone)]
pub struct LoginForm {
    pub id_token: String,
    pub name: String,
    pub email: String,
    pub password: Option<String>,
}

/// Manual login payload.
#[derive(Debug, Clone)]
pub struct ManualLoginForm {
    pub email: String,
    pub password: String,
}

/// Registration payload.
#[derive(Debug, Clone)]
pub struct RegisterForm {
    pub name: String,
    pub email: String,
    pub password: String,
}

/// Code-redemption payload.
#[derive(Debug, Clone)]
pub struct VerificationCodeForm {
    pub email: String,
    pub code: String,
}

/// Logout payload: the refresh-token value to delete.
#[derive(Debug, Clone)]
pub struct LogoutForm {
    pub refresh_token: String,
}

} // verus!
