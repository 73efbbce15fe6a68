//! A password of at least eight characters.

use vstd::prelude::*;

verus! {

use crate::errors::ValidationError;

/// The least number of characters (not bytes) of a password.
pub const MIN_PASSWORD_CHARS: usize = 8;

#[derive(Debug, PartialEq, Eq)]
pub struct Password {
    value: String,
}

impl View for Password {
    type V = Seq<char>;

    closed spec fn view(&self) -> Seq<char> {
        self.value@
    }
}

fn validate_password(s: &str) -> (r: bool)
    ensures
        r == (s@.len() >= MIN_PASSWORD_CHARS),
{
    s.unicode_len() >= MIN_PASSWORD_CHARS
}

impl Password {
    #[verifier::type_invariant]
    closed spec fn inv(&self) -> bool {
        self.value@.len() >= MIN_PASSWORD_CHARS
    }

    /// Fails with `PasswordTooShort` exactly when the text has fewer than
    /// eight characters; otherwise keeps the text as it is.
    pub fn parse(s: String) -> (r: Result<Password, ValidationError>)
        ensures
            s@.len() < MIN_PASSWORD_CHARS ==> r == Err::<Password, ValidationError>(
                ValidationError::PasswordTooShort,
            ),
            s@.len() >= MIN_PASSWORD_CHARS ==> (r matches Ok(p) && p@ == s@),
    {
        if validate_password(s.as_str()) {
            Ok(Password { value: s })
        } else {
            Err(ValidationError::PasswordTooShort)
        }
    }

    pub fn as_str(&self) -> (r: &str)
        ensures
            r@ == self@,
    {
        self.value.as_str()
    }
}

} // verus!
