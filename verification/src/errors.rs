//! Closed error taxonomy of the authentication core.
//!
//! Every failure an operation can report is one of the variants below, so the
//! transport layer's mapping to a status classification stays total. Messages
//! live in a single table rather than in free-form strings.

use vstd::prelude::*;

verus! {

/// Faults in a submitted input field (4xx, client must correct and retry).
#[derive(Clone, Copy, Debug, PartialEq, Eq, Structural)]
pub enum InputFault {
    EmailRequired,
    EmailFormat,
    PasswordRequired,
    PasswordTooShort,
    PasswordNeedsDigit,
    PasswordNeedsPunct,
    AuthHeaderMissing,
    AuthHeaderFormat,
    AuthHeaderNoToken,
    IdFormat,
}

/// Why a presented bearer token was rejected.
#[derive(Clone, Copy, Debug, PartialEq, Eq, Structural)]
pub enum TokenFault {
    /// Signature invalid or token malformed.
    Invalid,
    /// The token's expiry instant lies strictly before the current instant.
    Expired,
    /// No stored refresh-token record matches the presented value.
    NotFound,
}

/// The error kinds the session core can report.
#[derive(Clone, Copy, Debug, PartialEq, Eq, Structural)]
pub enum AuthError {
    /// Malformed or missing field.
    InvalidInput(InputFault),
    /// Duplicate email on registration.
    Conflict,
    /// Credential failure: no account with the submitted email.
    WrongEmail,
    /// Credential failure: password does not match the stored hash.
    WrongPassword,
    /// Verification-code mismatch.
    InvalidCode,
    /// Unverified account attempting a manual login.
    ForbiddenUnverified,
    /// Bad, expired, or revoked token.
    Unauthorized(TokenFault),
    /// Transport failure at a collaborator; safe to retry.
    Unavailable,
    /// Unexpected failure; not retryable.
    InternalError,
}

/// The status classification of each error kind, as the transport maps it
/// (400, 401, 403 or 500).
pub open spec fn spec_status(e: AuthError) -> u16 {
    match e {
        AuthError::InvalidInput(_) => 400,
        AuthError::Conflict => 400,
        AuthError::WrongEmail => 400,
        AuthError::WrongPassword => 400,
        AuthError::InvalidCode => 400,
        AuthError::ForbiddenUnverified => 403,
        AuthError::Unauthorized(_) => 401,
        AuthError::Unavailable => 500,
        AuthError::InternalError => 500,
    }
}

/// The human-readable message of each error kind.
pub open spec fn spec_message(e: AuthError) -> Seq<char> {
    match e {
        AuthError::InvalidInput(f) => match f {
            InputFault::EmailRequired => "Email is required."@,
            InputFault::EmailFormat => "Invalid email format."@,
            InputFault::PasswordRequired => "Password is required."@,
            InputFault::PasswordTooShort => "Password must be at least 6 characters long."@,
            InputFault::PasswordNeedsDigit => "Password must contain at least one number."@,
            InputFault::PasswordNeedsPunct => "Password must contain at least one special character."@,
            InputFault::AuthHeaderMissing => "No auth header."@,
            InputFault::AuthHeaderFormat => "Invalid auth header format."@,
            InputFault::AuthHeaderNoToken => "Error in getting parts of the token."@,
            InputFault::IdFormat => "Invalid ID format."@,
        },
        AuthError::Conflict => "Email already exist."@,
        AuthError::WrongEmail => "Wrong email."@,
        AuthError::WrongPassword => "Wrong password."@,
        AuthError::InvalidCode => "Wrong code. Please try again."@,
        AuthError::ForbiddenUnverified => "Verify your account first. We've sent a code to your email."@,
        AuthError::Unauthorized(f) => match f {
            TokenFault::Invalid => "Invalid access token."@,
            TokenFault::Expired => "Expired access token."@,
            TokenFault::NotFound => "Invalid token."@,
        },
        AuthError::Unavailable => "Service temporarily unavailable. Please try again."@,
        AuthError::InternalError => "Internal Server Error. Please try again."@,
    }
}

impl AuthError {
    /// The status code (400, 401, 403 or 500) the transport reports for this error.
    pub fn status_code(&self) -> (c: u16)
        ensures
            c == spec_status(*self),
    {
        match self {
            AuthError::InvalidInput(_) => 400,
            AuthError::Conflict => 400,
            AuthError::WrongEmail => 400,
            AuthError::WrongPassword => 400,
            AuthError::InvalidCode => 400,
            AuthError::ForbiddenUnverified => 403,
            AuthError::Unauthorized(_) => 401,
            AuthError::Unavailable => 500,
            AuthError::InternalError => 500,
        }
    }

    /// The message of this error kind, from the message table.
    pub fn message(&self) -> (m: String)
        ensures
            m@ == spec_message(*self),
    {
        match self {
            AuthError::InvalidInput(f) => match f {
                InputFault::EmailRequired => "Email is required.".to_owned(),
                InputFault::EmailFormat => "Invalid email format.".to_owned(),
                InputFault::PasswordRequired => "Password is required.".to_owned(),
                InputFault::PasswordTooShort => "Password must be at least 6 characters long.".to_owned(),
                InputFault::PasswordNeedsDigit => "Password must contain at least one number.".to_owned(),
                InputFault::PasswordNeedsPunct => "Password must contain at least one special character.".to_owned(),
                InputFault::AuthHeaderMissing => "No auth header.".to_owned(),
                InputFault::AuthHeaderFormat => "Invalid auth header format.".to_owned(),
                InputFault::AuthHeaderNoToken => "Error in getting parts of the token.".to_owned(),
                InputFault::IdFormat => "Invalid ID format.".to_owned(),
            },
            AuthError::Conflict => "Email already exist.".to_owned(),
            AuthError::WrongEmail => "Wrong email.".to_owned(),
            AuthError::WrongPassword => "Wrong password.".to_owned(),
            AuthError::InvalidCode => "Wrong code. Please try again.".to_owned(),
            AuthError::ForbiddenUnverified => "Verify your account first. We've sent a code to your email.".to_owned(),
            AuthError::Unauthorized(f) => match f {
                TokenFault::Invalid => "Invalid access token.".to_owned(),
                TokenFault::Expired => "Expired access token.".to_owned(),
                TokenFault::NotFound => "Invalid token.".to_owned(),
            },
            AuthError::Unavailable => "Service temporarily unavailable. Please try again.".to_owned(),
            AuthError::InternalError => "Internal Server Error. Please try again.".to_owned(),
        }
    }

    /// This error as the transport-facing classification, message attached.
    pub fn to_service_error(&self) -> (r: ServiceError)
        ensures
            service_matches(*self, r),
    {
        let message = self.message();
        let code = self.status_code();
        if code == 401 {
            ServiceError::Unauthorized(message)
        } else if code == 403 {
            ServiceError::Forbidden(message)
        } else if code == 500 {
            ServiceError::InternalServerError(message)
        } else {
            ServiceError::BadRequest(message)
        }
    }
}

/// Transport-facing error classification: one variant per status class,
/// carrying the message shown to the caller.
#[derive(Clone, Debug, PartialEq, Eq)]
pub enum ServiceError {
    InternalServerError(String),
    Unauthorized(String),
    BadRequest(String),
    Forbidden(String),
}

/// `s` is the correct transport classification of `e`: the variant agrees with
/// `e`'s status class and the payload is `e`'s message.
pub open spec fn service_matches(e: AuthError, s: ServiceError) -> bool {
    match s {
        ServiceError::BadRequest(m) => spec_status(e) == 400 && m@ == spec_message(e),
        ServiceError::Unauthorized(m) => spec_status(e) == 401 && m@ == spec_message(e),
        ServiceError::Forbidden(m) => spec_status(e) == 403 && m@ == spec_message(e),
        ServiceError::InternalServerError(m) => spec_status(e) == 500 && m@ == spec_message(e),
    }
}

/// The status line of an outbound payload: the message and its code.
#[derive(Debug, Clone)]
pub struct Status {
    pub message: String,
    pub code: u16,
}

impl Status {
    /// A status line with the given code and message.
    pub fn new(code: u16, message: String) -> (s: Self)
        ensures
            s.code == code,
            s.message == message,
    {
        Status { message, code }
    }
}

/// Message keys kept for callers that report store-level failures.
#[derive(Clone, Copy, Debug, PartialEq, Eq, Structural)]
pub enum ErrorMessages {
    InvalidToken,
    UserNotExist,
    EmailAlreadyExist,
    UserFetchError,
    CreateUserError,
    InvalidateTokenError,
}

/// The message of each key.
pub open spec fn spec_error_msg(e: ErrorMessages) -> Seq<char> {
    match e {
        ErrorMessages::InvalidToken => "Invalid token."@,
        ErrorMessages::UserNotExist => "User does not exist."@,
        ErrorMessages::EmailAlreadyExist => "Email already exist."@,
        ErrorMessages::UserFetchError => "Error fetching user."@,
        ErrorMessages::CreateUserError => "Failed creating user."@,
        ErrorMessages::InvalidateTokenError => "Failed invalidating token."@,
    }
}

impl ErrorMessages {
    /// The message for this key, from the table.
    pub fn error_msg(&self) -> (m: String)
        ensures
            m@ == spec_error_msg(*self),
    {
        match self {
            ErrorMessages::InvalidToken => "Invalid token.".to_owned(),
            ErrorMessages::UserNotExist => "User does not exist.".to_owned(),
            ErrorMessages::EmailAlreadyExist => "Email already exist.".to_owned(),
            ErrorMessages::UserFetchError => "Error fetching user.".to_owned(),
            ErrorMessages::CreateUserError => "Failed creating user.".to_owned(),
            ErrorMessages::InvalidateTokenError => "Failed invalidating token.".to_owned(),
        }
    }
}

} // verus!
