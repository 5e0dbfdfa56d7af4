//! The error taxonomy: messages, status classes, and the transport mapping.

use auth_core::converter::Converter;
use auth_core::errors::{
    AuthError, ErrorMessages, InputFault, ServiceError, Status, TokenFault,
};
use auth_core::oauth::{Oauth, OauthType};

#[test]
fn status_codes_follow_the_taxonomy() {
    assert_eq!(AuthError::InvalidInput(InputFault::EmailFormat).status_code(), 400);
    assert_eq!(AuthError::Conflict.status_code(), 400);
    assert_eq!(AuthError::WrongEmail.status_code(), 400);
    assert_eq!(AuthError::WrongPassword.status_code(), 400);
    assert_eq!(AuthError::InvalidCode.status_code(), 400);
    assert_eq!(AuthError::ForbiddenUnverified.status_code(), 403);
    assert_eq!(AuthError::Unauthorized(TokenFault::Invalid).status_code(), 401);
    assert_eq!(AuthError::Unauthorized(TokenFault::Expired).status_code(), 401);
    assert_eq!(AuthError::Unavailable.status_code(), 500);
    assert_eq!(AuthError::InternalError.status_code(), 500);
}

#[test]
fn messages_come_from_the_table() {
    assert_eq!(AuthError::Conflict.message(), "Email already exist.");
    assert_eq!(AuthError::WrongEmail.message(), "Wrong email.");
    assert_eq!(AuthError::WrongPassword.message(), "Wrong password.");
    assert_eq!(AuthError::InvalidCode.message(), "Wrong code. Please try again.");
    assert_eq!(
        AuthError::ForbiddenUnverified.message(),
        "Verify your account first. We've sent a code to your email."
    );
    assert_eq!(
        AuthError::InvalidInput(InputFault::EmailRequired).message(),
        "Email is required."
    );
    assert_eq!(
        AuthError::InvalidInput(InputFault::PasswordTooShort).message(),
        "Password must be at least 6 characters long."
    );
    assert_eq!(
        AuthError::Unauthorized(TokenFault::Expired).message(),
        "Expired access token."
    );
}

#[test]
fn transport_mapping_keeps_class_and_message() {
    match AuthError::Conflict.to_service_error() {
        ServiceError::BadRequest(m) => assert_eq!(m, "Email already exist."),
        other => panic!("wrong classification: {other:?}"),
    }
    match AuthError::Unauthorized(TokenFault::Invalid).to_service_error() {
        ServiceError::Unauthorized(m) => assert_eq!(m, "Invalid access token."),
        other => panic!("wrong classification: {other:?}"),
    }
    match AuthError::ForbiddenUnverified.to_service_error() {
        ServiceError::Forbidden(_) => {}
        other => panic!("wrong classification: {other:?}"),
    }
    match AuthError::InternalError.to_service_error() {
        ServiceError::InternalServerError(m) => {
            assert_eq!(m, "Internal Server Error. Please try again.")
        }
        other => panic!("wrong classification: {other:?}"),
    }
}

#[test]
fn error_msg_table() {
    assert_eq!(ErrorMessages::InvalidToken.error_msg(), "Invalid token.");
    assert_eq!(ErrorMessages::UserNotExist.error_msg(), "User does not exist.");
    assert_eq!(ErrorMessages::EmailAlreadyExist.error_msg(), "Email already exist.");
    assert_eq!(ErrorMessages::UserFetchError.error_msg(), "Error fetching user.");
    assert_eq!(ErrorMessages::CreateUserError.error_msg(), "Failed creating user.");
    assert_eq!(
        ErrorMessages::InvalidateTokenError.error_msg(),
        "Failed invalidating token."
    );
}

#[test]
fn status_line_holds_code_and_message() {
    let s = Status::new(201, "User created successfully!".to_string());
    assert_eq!(s.code, 201);
    assert_eq!(s.message, "User created successfully!");
}

#[test]
fn oauth_validate_names_providers() {
    assert_eq!(Oauth::validate(OauthType::Google).unwrap(), "Google");
    assert_eq!(Oauth::validate(OauthType::Facebook).unwrap(), "Facebook");
}

#[test]
fn id_parsing_accepts_decimal_and_rejects_the_rest() {
    assert_eq!(Converter::string_to_id(&"0".to_string()), Ok(0));
    assert_eq!(Converter::string_to_id(&"42".to_string()), Ok(42));
    assert_eq!(
        Converter::string_to_id(&"18446744073709551615".to_string()),
        Ok(u64::MAX)
    );
    let bad = AuthError::InvalidInput(InputFault::IdFormat);
    assert_eq!(Converter::string_to_id(&"".to_string()), Err(bad));
    assert_eq!(Converter::string_to_id(&"12a".to_string()), Err(bad));
    assert_eq!(Converter::string_to_id(&"-1".to_string()), Err(bad));
    assert_eq!(
        Converter::string_to_id(&"18446744073709551616".to_string()),
        Err(bad)
    );
}
