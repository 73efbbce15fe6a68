//! Error kinds of the validated types and of the outward-facing API.

use vstd::prelude::*;

verus! {

/// Why a raw value was refused by one of the validated types.
#[derive(Debug, Clone, Copy, PartialEq, Eq, Structural)]
pub enum ValidationError {
    MalformedEmail,
    PasswordTooShort,
    MalformedCode,
    OutOfRangeCode,
    MalformedLoginAttemptId,
}

/// The coarse errors that the login flow hands to its callers.
#[derive(Debug, Clone, Copy, PartialEq, Eq, Structural)]
pub enum AuthAPIError {
    UserAlreadyExists,
    InvalidCredentials,
    IncorrectCredentials,
    MissingToken,
    InvalidToken,
    InvalidCookie,
    Invalid2FACode,
    InvalidLoginAttamptId,
    UnexpectedError,
}

} // verus!
