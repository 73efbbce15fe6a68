//! The bodies that the API answers with, and the status and message that
//! each error is reported with.

use vstd::prelude::*;

verus! {

use crate::errors::AuthAPIError;

#[derive(Debug, Clone, PartialEq, Eq)]
pub struct ErrorResponse {
    pub error: String,
}

#[derive(Debug, Clone, PartialEq, Eq)]
pub struct RouteResponse {
    pub message: String,
}

#[derive(Debug, Clone, PartialEq, Eq)]
pub struct SignupResponse {
    pub message: String,
}

/// The HTTP status of each error.
pub open spec fn error_status(e: AuthAPIError) -> u16 {
    match e {
        AuthAPIError::UserAlreadyExists => 409,
        AuthAPIError::InvalidCredentials => 400,
        AuthAPIError::IncorrectCredentials => 401,
        AuthAPIError::InvalidToken => 401,
        AuthAPIError::MissingToken => 400,
        AuthAPIError::InvalidCookie => 400,
        AuthAPIError::Invalid2FACode => 400,
        AuthAPIError::InvalidLoginAttamptId => 400,
        AuthAPIError::UnexpectedError => 500,
    }
}

/// The message of each error.
pub open spec fn error_message(e: AuthAPIError) -> Seq<char> {
    match e {
        AuthAPIError::UserAlreadyExists => "User already exists"@,
        AuthAPIError::InvalidCredentials => "Invalid credentials"@,
        AuthAPIError::IncorrectCredentials => "Incorrect credentials"@,
        AuthAPIError::InvalidToken => "Invalid Token"@,
        AuthAPIError::MissingToken => "Missing Token"@,
        AuthAPIError::InvalidCookie => "Invalid Cookie"@,
        AuthAPIError::Invalid2FACode => "Invalid 2FA code"@,
        AuthAPIError::InvalidLoginAttamptId => "Invalid login attempt id"@,
        AuthAPIError::UnexpectedError => "Unexpected error"@,
    }
}

impl AuthAPIError {
    /// The status and body that the error is answered with.
    pub fn into_response(self) -> (r: (u16, ErrorResponse))
        ensures
            r.0 == error_status(self),
            r.1.error@ == error_message(self),
    {
        let (status, message) = match self {
            AuthAPIError::UserAlreadyExists => (409, "User already exists"),
            AuthAPIError::InvalidCredentials => (400, "Invalid credentials"),
            AuthAPIError::IncorrectCredentials => (401, "Incorrect credentials"),
            AuthAPIError::InvalidToken => (401, "Invalid Token"),
            AuthAPIError::MissingToken => (400, "Missing Token"),
            AuthAPIError::InvalidCookie => (400, "Invalid Cookie"),
            AuthAPIError::Invalid2FACode => (400, "Invalid 2FA code"),
            AuthAPIError::InvalidLoginAttamptId => (400, "Invalid login attempt id"),
            AuthAPIError::UnexpectedError => (500, "Unexpected error"),
        };
        (status, ErrorResponse { error: message.to_string() })
    }
}

} // verus!
