//! The session manager: register, manual login, third-party login, account
//! verification, session refresh and logout, composed over the identity
//! store, the hash primitive and the token issuer.
//!
//! Every operation takes the store and, where tokens are minted, the token
//! configuration and the current instant; outbound mail is returned to the
//! caller as a [`MailTask`] rather than sent here. The deterministic part of
//! each operation is a spec function of the store's state and the inputs, and
//! each executable operation is proved to follow it.

use vstd::prelude::*;

use rand::distr::SampleString;

use crate::converter::{spec_parse_id, Converter};
use crate::errors::{AuthError, InputFault, TokenFault};
use crate::hashing::{bcrypt_verify_of, verify_password};
use crate::jwt::{get_token, jwt_claims_of, sign_jwt, spec_expiry, spec_get_token, spec_validate_jwt, validate_jwt};
use crate::model::{Email, LoginTypes, Password, RefreshToken, User, UserBuilder, UserVerificationCode};
use crate::forms::{LogoutForm, ManualLoginForm, RegisterForm, VerificationCodeForm};
use crate::oauth::GoogleUserResult;
use crate::store::{
    code_not_for, code_matches, lemma_find_first_exists, lemma_find_first_is_mem,
    lemma_find_first_none, lemma_find_first_none_inv, lemma_find_first_some,
    lemma_found_user_form, refresh_has_value, refresh_not_value, spec_find_code,
    spec_find_refresh, spec_find_user, user_has_email, IdentityStore,
};
use crate::validate::{is_alnum_char, spec_email_error, spec_password_error};

verus! {

/// Default access-token lifetime, in minutes.
pub const ACCESS_TOKEN_MINUTES: u64 = 5;

/// Default refresh-token lifetime, in minutes.
pub const REFRESH_TOKEN_MINUTES: u64 = 1440;

/// Length of a verification code.
pub const CODE_LENGTH: usize = 4;

/// Process configuration the surrounding system loads once at start and
/// passes in; the core never reads the environment itself.
#[derive(Debug, Clone)]
pub struct Config {
    pub google_oauth_client_id: String,
    pub google_oauth_client_secret: String,
    pub google_oauth_redirect_url: String,
    pub google_smtp_username: String,
    pub google_smtp_password: String,
    pub client_url: String,
}

/// The token issuer's configuration: signing secret and the two lifetimes.
#[derive(Debug, Clone)]
pub struct TokenConfig {
    pub secret: String,
    pub access_minutes: u64,
    pub refresh_minutes: u64,
}

impl TokenConfig {
    /// A configuration with the default lifetimes.
    pub fn new(secret: String) -> (c: Self)
        ensures
            c.secret == secret,
            c.access_minutes == ACCESS_TOKEN_MINUTES,
            c.refresh_minutes == REFRESH_TOKEN_MINUTES,
    {
        TokenConfig {
            secret,
            access_minutes: ACCESS_TOKEN_MINUTES,
            refresh_minutes: REFRESH_TOKEN_MINUTES,
        }
    }
}

/// An outbound mail the caller must dispatch: the code for its recipient.
#[derive(Debug, Clone)]
pub struct MailTask {
    pub email: String,
    pub code: String,
}

/// The created-user summary a successful registration answers with — never
/// the stored hash.
#[derive(Debug, Clone)]
pub struct RegisteredUser {
    pub id: u64,
    pub name: String,
    pub email: String,
    pub is_verified: bool,
    pub login_type: LoginTypes,
}

/// What a successful registration yields: the summary and the code mail.
#[derive(Debug, Clone)]
pub struct RegisterOutcome {
    pub user: RegisteredUser,
    pub mail: MailTask,
}

/// What a successful login yields: the token pair and the public user view.
#[derive(Debug, Clone)]
pub struct LoginResponse {
    pub access_token: String,
    pub refresh_token: String,
    pub user_id: u64,
    pub email: String,
}

/// A rejected login: the error, and — for an unverified account — the fresh
/// code mail the caller must dispatch.
#[derive(Debug, Clone)]
pub struct LoginDenied {
    pub error: AuthError,
    pub mail: Option<MailTask>,
}

/// The refreshed token pair.
#[derive(Debug, Clone)]
pub struct TokenPair {
    pub new_access_token: String,
    pub new_refresh_token: String,
}

/// Both token expiries fit the clock's range when issued at `now`.
pub open spec fn spec_expiries_fit(config: TokenConfig, now: u64) -> bool {
    spec_expiry(now, config.access_minutes) <= u64::MAX && spec_expiry(now, config.refresh_minutes)
        <= u64::MAX
}

/// Relies on rand's Alphanumeric distribution: every sampled character is an
/// ASCII letter or digit. Nothing else is promised of a random value.
#[verifier::external_body]
fn random_alphanumeric_code(len: usize) -> (code: String)
    ensures
        code@.len() == len,
        forall|i: int| 0 <= i < code@.len() ==> is_alnum_char(#[trigger] code@[i]),
{
    rand::distr::Alphanumeric.sample_string(&mut rand::rng(), len)
}

/// Issues a fresh one-time code for `email`: generates it, stores the record,
/// and hands the code back for dispatch. Codes already outstanding for the
/// email are kept — they are purged only at successful redemption.
pub fn issue_code(store: &mut IdentityStore, email: &Email) -> (code: String)
    requires
        old(store).inv(),
    ensures
        final(store).inv(),
        final(store).users() == old(store).users(),
        final(store).refresh_tokens() == old(store).refresh_tokens(),
        code@.len() == CODE_LENGTH,
        forall|i: int| 0 <= i < code@.len() ==> is_alnum_char(#[trigger] code@[i]),
        ({
            let c = final(store).codes().last();
            &&& final(store).codes() == old(store).codes().push(c)
            &&& c.email == *email
            &&& c.code@ == code@
        }),
{
    let code = random_alphanumeric_code(CODE_LENGTH);
    let record = UserVerificationCode { email: email.clone(), code: code.clone() };
    store.store_verification_code(record);
    code
}

/// The error a registration is rejected with, if any: email shape first, then
/// the duplicate check, then the password policy.
pub open spec fn spec_register_error(
    users: Seq<User>,
    email: Seq<char>,
    password: Seq<char>,
) -> Option<AuthError> {
    if spec_email_error(email) is Some {
        Some(AuthError::InvalidInput(spec_email_error(email)->0))
    } else if spec_find_user(users, email) is Some {
        Some(AuthError::Conflict)
    } else if spec_password_error(password) is Some {
        Some(AuthError::InvalidInput(spec_password_error(password)->0))
    } else {
        None
    }
}

/// Registers a manual account: validates the inputs, rejects a duplicate
/// email, hashes the password, stores the user unverified, and issues a
/// verification code for dispatch.
pub fn register_user_service(store: &mut IdentityStore, form: &RegisterForm) -> (r: Result<
    RegisterOutcome,
    AuthError,
>)
    requires
        old(store).inv(),
    ensures
        final(store).inv(),
        final(store).refresh_tokens() == old(store).refresh_tokens(),
        match spec_register_error(old(store).users(), form.email@, form.password@) {
            Some(e) => r == Err::<RegisterOutcome, AuthError>(e) && final(store).users() == old(store).users() && final(store).codes() == old(store).codes(),
            None => match r {
                Ok(out) => ({
                    let u = final(store).users().last();
                    let c = final(store).codes().last();
                    &&& final(store).users() == old(store).users().push(u)
                    &&& u.id == Some(old(store).users().len() as u64)
                    &&& u.name@ == form.name@
                    &&& u.email@ == form.email@
                    &&& u.is_verified == Some(false)
                    &&& u.login_type == LoginTypes::MANUAL
                    &&& u.password is Some
                    &&& bcrypt_verify_of(form.password@, u.password->0@) == Some(true)
                    &&& out.user.id == u.id->0
                    &&& out.user.name@ == form.name@
                    &&& out.user.email@ == form.email@
                    &&& out.user.is_verified == false
                    &&& out.user.login_type == LoginTypes::MANUAL
                    &&& final(store).codes() == old(store).codes().push(c)
                    &&& c.email@ == form.email@
                    &&& c.code@ == out.mail.code@
                    &&& c.code@.len() == CODE_LENGTH
                    &&& (forall|i: int|
                        0 <= i < c.code@.len() ==> is_alnum_char(#[trigger] c.code@[i]))
                    &&& out.mail.email@ == form.email@
                }),
                Err(e) => e == AuthError::InternalError && final(store).users() == old(store).users() && final(store).codes() == old(store).codes(),
            },
        },
{
    let email = match Email::parse(form.email.clone()) {
        Ok(e) => e,
        Err(e) => {
            return Err(e);
        },
    };
    match store.get_user_by_email(email.as_str()) {
        Some(_) => {
            return Err(AuthError::Conflict);
        },
        None => {},
    }
    let password = match Password::parse(form.password.clone()) {
        Ok(p) => p,
        Err(e) => {
            return Err(e);
        },
    };
    let hashed = match password.hash() {
        Ok(h) => h,
        Err(e) => {
            return Err(e);
        },
    };
    let code_email = email.clone();
    let new_user = UserBuilder::new(form.name.clone(), email, LoginTypes::MANUAL).password(
        hashed,
    ).is_verified(false).build();
    let stored = match store.create_user(&new_user) {
        Ok(u) => u,
        Err(_) => {
            proof {
                assert(false);
            }
            return Err(AuthError::InternalError);
        },
    };
    let code = issue_code(store, &code_email);
    let user_id = stored.id.unwrap();
    let summary = RegisteredUser {
        id: user_id,
        name: stored.name,
        email: code_email.as_str().clone(),
        is_verified: false,
        login_type: LoginTypes::MANUAL,
    };
    Ok(
        RegisterOutcome {
            user: summary,
            mail: MailTask { email: code_email.as_str().clone(), code },
        },
    )
}

/// The deterministic part of a manual login: what the submitted credentials
/// decide against the stored users, before any token is minted.
pub enum LoginDecision {
    /// Rejected with this error.
    Fail(AuthError),
    /// Credentials are right but the account is unverified: re-issue a code
    /// and reject as forbidden.
    NeedsVerification(User),
    /// Credentials are right and the account is verified: issue a session.
    Proceed(User),
}

/// Decides a manual login: unknown email, then password shape, then the hash
/// check (a missing stored hash or a malformed one is an internal error,
/// never a mismatch), then the verification gate.
pub open spec fn spec_login_decision(
    users: Seq<User>,
    email: Seq<char>,
    password: Seq<char>,
) -> LoginDecision {
    match spec_find_user(users, email) {
        None => LoginDecision::Fail(AuthError::WrongEmail),
        Some(u) => if spec_password_error(password) is Some {
            LoginDecision::Fail(AuthError::InvalidInput(spec_password_error(password)->0))
        } else {
            match u.password {
                None => LoginDecision::Fail(AuthError::InternalError),
                Some(stored) => match bcrypt_verify_of(password, stored@) {
                    None => LoginDecision::Fail(AuthError::InternalError),
                    Some(false) => LoginDecision::Fail(AuthError::WrongPassword),
                    Some(true) => if u.is_verified != Some(true) {
                        LoginDecision::NeedsVerification(u)
                    } else {
                        LoginDecision::Proceed(u)
                    },
                },
            }
        },
    }
}

/// Issues the access and refresh tokens for an authenticated user and
/// persists the refresh record.
fn login_response(store: &mut IdentityStore, user: &User, config: &TokenConfig, now: u64) -> (r:
    Result<LoginResponse, AuthError>)
    requires
        old(store).inv(),
        user.id is Some,
    ensures
        final(store).inv(),
        final(store).users() == old(store).users(),
        final(store).codes() == old(store).codes(),
        if spec_expiries_fit(*config, now) {
            match r {
                Ok(resp) => ({
                    let t = final(store).refresh_tokens().last();
                    &&& resp.user_id == user.id->0
                    &&& resp.email@ == user.email@
                    &&& jwt_claims_of(resp.access_token@, config.secret@) == Some(
                        (user.id->0, now, spec_expiry(now, config.access_minutes) as u64),
                    )
                    &&& jwt_claims_of(resp.refresh_token@, config.secret@) == Some(
                        (user.id->0, now, spec_expiry(now, config.refresh_minutes) as u64),
                    )
                    &&& final(store).refresh_tokens() == old(store).refresh_tokens().push(t)
                    &&& t.user_id == user.id
                    &&& t.email@ == user.email@
                    &&& t.refresh_token@ == resp.refresh_token@
                }),
                Err(_) => false,
            }
        } else {
            r == Err::<LoginResponse, AuthError>(AuthError::InternalError) && final(store).refresh_tokens() == old(store).refresh_tokens()
        },
{
    let user_id = user.id.unwrap();
    let access_token = match sign_jwt(user_id, config.access_minutes, now, config.secret.as_str()) {
        Ok(t) => t,
        Err(e) => {
            return Err(e);
        },
    };
    let refresh_token = match sign_jwt(
        user_id,
        config.refresh_minutes,
        now,
        config.secret.as_str(),
    ) {
        Ok(t) => t,
        Err(e) => {
            return Err(e);
        },
    };
    let record = RefreshToken {
        id: None,
        user_id: user.id,
        email: user.email.clone(),
        refresh_token: refresh_token.clone(),
    };
    store.store_refresh_token(record);
    Ok(
        LoginResponse {
            access_token,
            refresh_token,
            user_id,
            email: user.email.as_str().clone(),
        },
    )
}

/// Logs a manual account in, following [`spec_login_decision`]: on
/// `NeedsVerification` a fresh code is stored and returned for dispatch with
/// the forbidden error; on `Proceed` the session tokens are issued and the
/// refresh record persisted.
pub fn manual_login_user_service(
    store: &mut IdentityStore,
    form: &ManualLoginForm,
    config: &TokenConfig,
    now: u64,
) -> (r: Result<LoginResponse, LoginDenied>)
    requires
        old(store).inv(),
    ensures
        final(store).inv(),
        match spec_login_decision(old(store).users(), form.email@, form.password@) {
            LoginDecision::Fail(e) => ({
                &&& final(store).users() == old(store).users()
                &&& final(store).codes() == old(store).codes()
                &&& final(store).refresh_tokens() == old(store).refresh_tokens()
                &&& match r {
                    Err(d) => d.error == e && d.mail is None,
                    Ok(_) => false,
                }
            }),
            LoginDecision::NeedsVerification(u) => ({
                &&& final(store).users() == old(store).users()
                &&& final(store).refresh_tokens() == old(store).refresh_tokens()
                &&& match r {
                    Err(d) => d.error == AuthError::ForbiddenUnverified && match d.mail {
                        Some(m) => ({
                            let c = final(store).codes().last();
                            &&& m.email@ == form.email@
                            &&& m.code@.len() == CODE_LENGTH
                            &&& (forall|i: int|
                                0 <= i < m.code@.len() ==> is_alnum_char(#[trigger] m.code@[i]))
                            &&& final(store).codes() == old(store).codes().push(c)
                            &&& c.email@ == form.email@
                            &&& c.code@ == m.code@
                        }),
                        None => false,
                    },
                    Ok(_) => false,
                }
            }),
            LoginDecision::Proceed(u) => ({
                &&& u.id is Some
                &&& final(store).users() == old(store).users()
                &&& final(store).codes() == old(store).codes()
                &&& if spec_expiries_fit(*config, now) {
                    match r {
                        Ok(resp) => ({
                            let t = final(store).refresh_tokens().last();
                            &&& resp.user_id == u.id->0
                            &&& resp.email@ == form.email@
                            &&& jwt_claims_of(resp.access_token@, config.secret@) == Some(
                                (u.id->0, now, spec_expiry(now, config.access_minutes) as u64),
                            )
                            &&& jwt_claims_of(resp.refresh_token@, config.secret@) == Some(
                                (u.id->0, now, spec_expiry(now, config.refresh_minutes) as u64),
                            )
                            &&& final(store).refresh_tokens() == old(store).refresh_tokens().push(t)
                            &&& t.user_id == u.id
                            &&& t.email@ == form.email@
                            &&& t.refresh_token@ == resp.refresh_token@
                        }),
                        Err(_) => false,
                    }
                } else {
                    match r {
                        Ok(_) => false,
                        Err(d) => d.error == AuthError::InternalError && d.mail is None && final(store).refresh_tokens() == old(store).refresh_tokens(),
                    }
                }
            }),
        },
{
    let user = match store.get_user_by_email(&form.email) {
        None => {
            return Err(LoginDenied { error: AuthError::WrongEmail, mail: None });
        },
        Some(u) => u,
    };
    let password = match Password::parse(form.password.clone()) {
        Ok(p) => p,
        Err(e) => {
            return Err(LoginDenied { error: e, mail: None });
        },
    };
    let stored_hash = match &user.password {
        Some(h) => h,
        None => {
            return Err(LoginDenied { error: AuthError::InternalError, mail: None });
        },
    };
    let password_matches = match verify_password(password.as_str(), stored_hash.as_str()) {
        Ok(b) => b,
        Err(e) => {
            return Err(LoginDenied { error: e, mail: None });
        },
    };
    if !password_matches {
        return Err(LoginDenied { error: AuthError::WrongPassword, mail: None });
    }
    proof {
        lemma_found_user_form(store, form.email@);
    }
    let account_verified = match user.is_verified {
        Some(b) => b,
        None => false,
    };
    if !account_verified {
        let code = issue_code(store, &user.email);
        return Err(
            LoginDenied {
                error: AuthError::ForbiddenUnverified,
                mail: Some(MailTask { email: user.email.as_str().clone(), code }),
            },
        );
    }
    match login_response(store, &user, config, now) {
        Ok(resp) => Ok(resp),
        Err(e) => Err(LoginDenied { error: e, mail: None }),
    }
}

/// Logs a third-party identity in: the email of the verified assertion must
/// be well formed; an existing account (whatever its provider) gets a
/// session, and an absent one is provisioned as a verified provider account
/// with no password, then gets a session.
pub fn login_google_user_service(
    store: &mut IdentityStore,
    assertion: &GoogleUserResult,
    config: &TokenConfig,
    now: u64,
) -> (r: Result<LoginResponse, AuthError>)
    requires
        old(store).inv(),
    ensures
        final(store).inv(),
        final(store).codes() == old(store).codes(),
        match spec_email_error(assertion.email@) {
            Some(f) => r == Err::<LoginResponse, AuthError>(AuthError::InvalidInput(f)) && final(store).users() == old(store).users() && final(store).refresh_tokens() == old(store).refresh_tokens(),
            None => match spec_find_user(old(store).users(), assertion.email@) {
                Some(u) => ({
                    &&& u.id is Some
                    &&& final(store).users() == old(store).users()
                    &&& if spec_expiries_fit(*config, now) {
                        match r {
                            Ok(resp) => ({
                                let t = final(store).refresh_tokens().last();
                                &&& resp.user_id == u.id->0
                                &&& resp.email@ == assertion.email@
                                &&& jwt_claims_of(resp.access_token@, config.secret@) == Some(
                                    (u.id->0, now, spec_expiry(now, config.access_minutes) as u64),
                                )
                                &&& jwt_claims_of(resp.refresh_token@, config.secret@) == Some(
                                    (u.id->0, now, spec_expiry(now, config.refresh_minutes) as u64),
                                )
                                &&& final(store).refresh_tokens() == old(store).refresh_tokens().push(t)
                                &&& t.refresh_token@ == resp.refresh_token@
                                &&& t.user_id == u.id
                            }),
                            Err(_) => false,
                        }
                    } else {
                        r == Err::<LoginResponse, AuthError>(AuthError::InternalError) && final(store).refresh_tokens() == old(store).refresh_tokens()
                    }
                }),
                None => if spec_expiries_fit(*config, now) {
                    match r {
                        Ok(resp) => ({
                            let nu = final(store).users().last();
                            let t = final(store).refresh_tokens().last();
                            &&& final(store).users() == old(store).users().push(nu)
                            &&& nu.id == Some(old(store).users().len() as u64)
                            &&& nu.name@ == assertion.name@
                            &&& nu.email@ == assertion.email@
                            &&& nu.password is None
                            &&& nu.is_verified == Some(true)
                            &&& nu.login_type == LoginTypes::GOOGLE
                            &&& resp.user_id == nu.id->0
                            &&& resp.email@ == assertion.email@
                            &&& jwt_claims_of(resp.access_token@, config.secret@) == Some(
                                (nu.id->0, now, spec_expiry(now, config.access_minutes) as u64),
                            )
                            &&& jwt_claims_of(resp.refresh_token@, config.secret@) == Some(
                                (nu.id->0, now, spec_expiry(now, config.refresh_minutes) as u64),
                            )
                            &&& final(store).refresh_tokens() == old(store).refresh_tokens().push(t)
                            &&& t.refresh_token@ == resp.refresh_token@
                            &&& t.user_id == nu.id
                        }),
                        Err(_) => false,
                    }
                } else {
                    r == Err::<LoginResponse, AuthError>(AuthError::InternalError) && final(store).users() == old(store).users() && final(store).refresh_tokens() == old(store).refresh_tokens()
                },
            },
        },
{
    let email = match Email::parse(assertion.email.clone()) {
        Ok(e) => e,
        Err(e) => {
            return Err(e);
        },
    };
    match store.get_user_by_email(email.as_str()) {
        Some(user) => {
            proof {
                lemma_found_user_form(store, assertion.email@);
            }
            login_response(store, &user, config, now)
        },
        None => {
            let user_id = store.user_count() as u64;
            let access_token = match sign_jwt(
                user_id,
                config.access_minutes,
                now,
                config.secret.as_str(),
            ) {
                Ok(t) => t,
                Err(e) => {
                    return Err(e);
                },
            };
            let refresh_token = match sign_jwt(
                user_id,
                config.refresh_minutes,
                now,
                config.secret.as_str(),
            ) {
                Ok(t) => t,
                Err(e) => {
                    return Err(e);
                },
            };
            let record_email = email.clone();
            let new_user = UserBuilder::new(
                assertion.name.clone(),
                email,
                LoginTypes::GOOGLE,
            ).is_verified(true).build();
            match store.create_user(&new_user) {
                Ok(_) => {},
                Err(_) => {
                    proof {
                        assert(false);
                    }
                    return Err(AuthError::InternalError);
                },
            }
            let record = RefreshToken {
                id: None,
                user_id: Some(user_id),
                email: record_email,
                refresh_token: refresh_token.clone(),
            };
            store.store_refresh_token(record);
            Ok(
                LoginResponse {
                    access_token,
                    refresh_token,
                    user_id,
                    email: assertion.email.clone(),
                },
            )
        },
    }
}

/// Redeems a verification code: on an exact `(email, code)` match the user is
/// marked verified and every outstanding code for the email is deleted; on no
/// match the state is unchanged and the code is rejected.
pub fn account_verification_service(store: &mut IdentityStore, form: &VerificationCodeForm) -> (r:
    Result<(), AuthError>)
    requires
        old(store).inv(),
    ensures
        final(store).inv(),
        final(store).refresh_tokens() == old(store).refresh_tokens(),
        match spec_email_error(form.email@) {
            Some(f) => r == Err::<(), AuthError>(AuthError::InvalidInput(f)) && final(store).users() == old(store).users() && final(store).codes() == old(store).codes(),
            None => match spec_find_code(old(store).codes(), form.email@, form.code@) {
                None => r == Err::<(), AuthError>(AuthError::InvalidCode) && final(store).users()
                    == old(store).users() && final(store).codes() == old(store).codes(),
                Some(_) => r == Ok::<(), AuthError>(()) && final(store).codes() == old(store).codes().filter(code_not_for(form.email@)) && final(store).users().len() == old(store).users().len() && (forall|i: int|
                    0 <= i < old(store).users().len() ==> #[trigger] final(store).users()[i] == (
                    if old(store).users()[i].email@ == form.email@ {
                        User { is_verified: Some(true), ..old(store).users()[i] }
                    } else {
                        old(store).users()[i]
                    })),
            },
        },
{
    let email = match Email::parse(form.email.clone()) {
        Ok(e) => e,
        Err(e) => {
            return Err(e);
        },
    };
    let payload = UserVerificationCode { email, code: form.code.clone() };
    match store.get_verification_code(&payload) {
        None => Err(AuthError::InvalidCode),
        Some(found) => {
            proof {
                lemma_find_first_is_mem(
                    old(store).codes(),
                    code_matches(form.email@, form.code@),
                );
            }
            let _ = store.update_user_verification(found.email.as_str());
            store.delete_verification_codes(found.email.as_str());
            Ok(())
        },
    }
}

/// Looks a user up by the string form of a store-assigned id: a malformed id
/// is an input fault, an absent user an explicit empty result.
pub fn get_user_by_id_service(store: &IdentityStore, user_id: &String) -> (r: Result<
    Option<User>,
    AuthError,
>)
    requires
        store.inv(),
    ensures
        match spec_parse_id(user_id@) {
            None => r == Err::<Option<User>, AuthError>(
                AuthError::InvalidInput(InputFault::IdFormat),
            ),
            Some(id) => match r {
                Ok(found) => match found {
                    Some(u) => id < store.users().len() && u == store.users()[id as int],
                    None => id >= store.users().len(),
                },
                Err(_) => false,
            },
        },
{
    let id = match Converter::string_to_id(user_id) {
        Ok(v) => v,
        Err(e) => {
            return Err(e);
        },
    };
    Ok(store.get_user_by_id(id))
}

/// Rotates a session. The bearer token is extracted from the authorization
/// header and validated; the matching stored record must exist (a deleted —
/// logged-out — token finds nothing and is rejected). Rotation consumes the
/// presented record and stores the new one: delete, then insert.
pub fn refresh_token_service(
    store: &mut IdentityStore,
    auth_header: &String,
    config: &TokenConfig,
    now: u64,
) -> (r: Result<TokenPair, AuthError>)
    requires
        old(store).inv(),
    ensures
        final(store).inv(),
        final(store).users() == old(store).users(),
        final(store).codes() == old(store).codes(),
        match spec_get_token(auth_header@) {
            Err(f) => r == Err::<TokenPair, AuthError>(AuthError::InvalidInput(f)) && final(store).refresh_tokens() == old(store).refresh_tokens(),
            Ok(token) => match spec_validate_jwt(token, config.secret@, now) {
                Err(e) => r == Err::<TokenPair, AuthError>(e) && final(store).refresh_tokens()
                    == old(store).refresh_tokens(),
                Ok(user_id) => match spec_find_refresh(old(store).refresh_tokens(), token) {
                    None => r == Err::<TokenPair, AuthError>(
                        AuthError::Unauthorized(TokenFault::NotFound),
                    ) && final(store).refresh_tokens() == old(store).refresh_tokens(),
                    Some(rec) => if spec_expiries_fit(*config, now) {
                        match r {
                            Ok(pair) => ({
                                let t = final(store).refresh_tokens().last();
                                &&& jwt_claims_of(pair.new_access_token@, config.secret@) == Some(
                                    (user_id, now, spec_expiry(now, config.access_minutes) as u64),
                                )
                                &&& jwt_claims_of(pair.new_refresh_token@, config.secret@) == Some(
                                    (user_id, now, spec_expiry(now, config.refresh_minutes) as u64),
                                )
                                &&& final(store).refresh_tokens() == old(store).refresh_tokens().filter(refresh_not_value(token)).push(t)
                                &&& t.refresh_token@ == pair.new_refresh_token@
                                &&& t.user_id == Some(user_id)
                                &&& t.email@ == rec.email@
                            }),
                            Err(_) => false,
                        }
                    } else {
                        r == Err::<TokenPair, AuthError>(AuthError::InternalError) && final(store).refresh_tokens() == old(store).refresh_tokens()
                    },
                },
            },
        },
{
    let token = match get_token(auth_header.as_str()) {
        Ok(t) => t,
        Err(e) => {
            return Err(e);
        },
    };
    let user_id = match validate_jwt(token.as_str(), config.secret.as_str(), now) {
        Ok(u) => u,
        Err(e) => {
            return Err(e);
        },
    };
    let record = match store.find_refresh_token(&token) {
        Some(rec) => rec,
        None => {
            return Err(AuthError::Unauthorized(TokenFault::NotFound));
        },
    };
    let new_access_token = match sign_jwt(
        user_id,
        config.access_minutes,
        now,
        config.secret.as_str(),
    ) {
        Ok(t) => t,
        Err(e) => {
            return Err(e);
        },
    };
    let new_refresh_token = match sign_jwt(
        user_id,
        config.refresh_minutes,
        now,
        config.secret.as_str(),
    ) {
        Ok(t) => t,
        Err(e) => {
            return Err(e);
        },
    };
    store.delete_refresh_token(&token);
    let new_record = RefreshToken {
        id: None,
        user_id: Some(user_id),
        email: record.email,
        refresh_token: new_refresh_token.clone(),
    };
    store.store_refresh_token(new_record);
    Ok(TokenPair { new_access_token, new_refresh_token })
}

/// Logs a session out by deleting its stored refresh-token record. Access
/// tokens are never revoked — they expire on their own; logout invalidates
/// continuation by deletion alone.
pub fn logout_user_service(store: &mut IdentityStore, form: &LogoutForm) -> (r: Result<
    (),
    AuthError,
>)
    requires
        old(store).inv(),
    ensures
        final(store).inv(),
        final(store).users() == old(store).users(),
        final(store).codes() == old(store).codes(),
        final(store).refresh_tokens() == old(store).refresh_tokens().filter(
            refresh_not_value(form.refresh_token@),
        ),
        r == Ok::<(), AuthError>(()),
{
    let _ = store.delete_refresh_token(&form.refresh_token);
    Ok(())
}

/// Registering and immediately logging in with the same valid credentials is
/// rejected as forbidden-unverified — never as a wrong credential. The
/// premises are exactly what a successful registration establishes of the
/// stored user.
pub proof fn lemma_register_then_login_forbidden(users0: Seq<User>, u: User, password: Seq<char>)
    requires
        spec_find_user(users0, u.email@) is None,
        u.is_verified == Some(false),
        u.password is Some,
        bcrypt_verify_of(password, u.password->0@) == Some(true),
        spec_password_error(password) is None,
    ensures
        spec_login_decision(users0.push(u), u.email@, password) == LoginDecision::NeedsVerification(
            u,
        ),
{
    let users1 = users0.push(u);
    lemma_find_first_none_inv(users0, user_has_email(u.email@));
    assert forall|k: int| 0 <= k < users0.len() implies !user_has_email(u.email@)(
        #[trigger] users1[k],
    ) by {
        assert(users1[k] == users0[k]);
    }
    assert(user_has_email(u.email@)(users1[users0.len() as int]));
    lemma_find_first_some(users1, user_has_email(u.email@), users0.len() as int);
}

/// Issuing two codes for an email and redeeming the second succeeds, and the
/// redemption invalidates the first as well: after it, neither code matches
/// any stored record.
pub proof fn lemma_second_code_redeems_and_invalidates_first(
    codes0: Seq<UserVerificationCode>,
    first: UserVerificationCode,
    second: UserVerificationCode,
)
    requires
        first.email@ == second.email@,
    ensures
        spec_find_code(codes0.push(first).push(second), second.email@, second.code@) is Some,
        spec_find_code(
            codes0.push(first).push(second).filter(code_not_for(second.email@)),
            second.email@,
            first.code@,
        ) is None,
        spec_find_code(
            codes0.push(first).push(second).filter(code_not_for(second.email@)),
            second.email@,
            second.code@,
        ) is None,
{
    let all = codes0.push(first).push(second);
    let n = all.len();
    assert(all[n - 1] == second);
    assert(code_matches(second.email@, second.code@)(all[n - 1]));
    lemma_find_first_exists(all, code_matches(second.email@, second.code@));
    let purged = all.filter(code_not_for(second.email@));
    assert forall|i: int| 0 <= i < purged.len() implies !code_matches(
        second.email@,
        first.code@,
    )(#[trigger] purged[i]) by {
        all.lemma_filter_pred(code_not_for(second.email@), i);
    }
    lemma_find_first_none(purged, code_matches(second.email@, first.code@));
    assert forall|i: int| 0 <= i < purged.len() implies !code_matches(
        second.email@,
        second.code@,
    )(#[trigger] purged[i]) by {
        all.lemma_filter_pred(code_not_for(second.email@), i);
    }
    lemma_find_first_none(purged, code_matches(second.email@, second.code@));
}

/// Logout invalidates by deletion: once every record holding a refresh-token
/// value is deleted, session continuation with that value finds no stored
/// record, whatever the token's own signature and expiry still say.
pub proof fn lemma_logout_invalidates(tokens: Seq<RefreshToken>, value: Seq<char>)
    ensures
        spec_find_refresh(tokens.filter(refresh_not_value(value)), value) is None,
{
    let remaining = tokens.filter(refresh_not_value(value));
    assert forall|i: int| 0 <= i < remaining.len() implies !refresh_has_value(value)(
        #[trigger] remaining[i],
    ) by {
        tokens.lemma_filter_pred(refresh_not_value(value), i);
    }
    lemma_find_first_none(remaining, refresh_has_value(value));
}

} // verus!

