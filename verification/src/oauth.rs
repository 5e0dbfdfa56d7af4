//! Third-party identity assertions.
//!
//! Cryptographic verification of an assertion happens at the provider's
//! endpoint, outside this core; what arrives here is the verified profile
//! ([`GoogleUserResult`]), and extending trust to it is the session manager's
//! one mandatory step before provisioning an account.

use vstd::prelude::*;

use crate::errors::ServiceError;

verus! {

/// What the provider's token endpoint answers with.
#[derive(Debug, Clone)]
pub struct OAuthResponse {
    pub access_token: String,
    pub id_token: String,
}

/// The verified profile of a third-party identity assertion.
#[derive(Debug, Clone)]
pub struct GoogleUserResult {
    pub id: String,
    pub email: String,
    pub verified_email: bool,
    pub name: String,
    pub given_name: String,
    pub family_name: String,
    pub picture: String,
    pub locale: String,
}

/// Supported third-party providers: a closed variant set.
#[derive(Clone, Copy, Debug, PartialEq, Eq, Structural)]
pub enum OauthType {
    Google,
    Facebook,
}

/// A chosen provider.
#[derive(Clone, Copy, Debug)]
pub struct Oauth(OauthType);

impl Oauth {
    /// The display name of a supported provider; every member of the closed
    /// variant set is accepted.
    pub fn validate(oauth_type: OauthType) -> (r: Result<String, ServiceError>)
        ensures
            match oauth_type {
                OauthType::Google => r matches Ok(s) && s@ == "Google"@,
                OauthType::Facebook => r matches Ok(s) && s@ == "Facebook"@,
            },
    {
        let oauth = Oauth(oauth_type);
        match oauth.0 {
            OauthType::Google => Ok("Google".to_owned()),
            OauthType::Facebook => Ok("Facebook".to_owned()),
        }
    }
}

} // verus!
