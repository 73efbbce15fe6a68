//! An e-mail address that passed address-syntax validation.

use vstd::prelude::*;

verus! {

use crate::errors::ValidationError;

/// Whether `validator::validate_email` accepts the text.
pub uninterp spec fn email_syntax_ok(s: Seq<char>) -> bool;

/// Relies on `validator::validate_email`: its verdict depends on the text
/// alone, and an empty text is refused.
#[verifier::external_body]
fn check_email_syntax(s: &str) -> (r: bool)
    ensures
        r == email_syntax_ok(s@),
        s@.len() == 0 ==> !r,
{
    validator::validate_email(s)
}

/// An e-mail address; equality is exact (no case folding).
#[derive(Debug, PartialEq, Eq, Hash)]
pub struct Email {
    value: String,
}

impl View for Email {
    type V = Seq<char>;

    closed spec fn view(&self) -> Seq<char> {
        self.value@
    }
}

impl Email {
    #[verifier::type_invariant]
    closed spec fn inv(&self) -> bool {
        email_syntax_ok(self.value@)
    }

    /// Accepts the text exactly when it is a syntactically valid address.
    pub fn parse(s: String) -> (r: Result<Email, ValidationError>)
        ensures
            email_syntax_ok(s@) ==> (r matches Ok(e) && e@ == s@),
            !email_syntax_ok(s@) ==> r == Err::<Email, ValidationError>(
                ValidationError::MalformedEmail,
            ),
    {
        if check_email_syntax(s.as_str()) {
            Ok(Email { value: s })
        } else {
            Err(ValidationError::MalformedEmail)
        }
    }

    pub fn as_str(&self) -> (r: &str)
        ensures
            r@ == self@,
    {
        self.value.as_str()
    }
}

} // verus!
