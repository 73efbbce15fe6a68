//! The identifier of a pending second-factor challenge: a UUID.

use vstd::prelude::*;

verus! {

use crate::errors::ValidationError;

/// The lower-case hyphenated text of the UUID that `uuid::Uuid::parse_str`
/// reads from `s`, or `None` when it refuses `s`.
pub uninterp spec fn uuid_text(s: Seq<char>) -> Option<Seq<char>>;

/// Relies on `uuid::Uuid::parse_str` followed by `to_string`: the outcome
/// depends on the text alone, and the lower-case hyphenated text that
/// `to_string` writes is read back by `parse_str` as the same UUID.
#[verifier::external_body]
fn canonical_uuid(s: &str) -> (r: Option<String>)
    ensures
        match r {
            Some(t) => uuid_text(s@) == Some(t@) && uuid_text(t@) == Some(t@),
            None => uuid_text(s@) is None,
        },
{
    uuid::Uuid::parse_str(s).ok().map(|u| u.to_string())
}

/// Relies on `uuid::Uuid::new_v4` followed by `to_string`: the text is the
/// lower-case hyphenated form, which `parse_str` reads back unchanged.
#[verifier::external_body]
fn random_uuid() -> (r: String)
    ensures
        uuid_text(r@) == Some(r@),
{
    uuid::Uuid::new_v4().to_string()
}

#[derive(Debug, PartialEq, Eq)]
pub struct LoginAttemptId {
    value: String,
}

impl View for LoginAttemptId {
    type V = Seq<char>;

    closed spec fn view(&self) -> Seq<char> {
        self.value@
    }
}

impl LoginAttemptId {
    #[verifier::type_invariant]
    closed spec fn inv(&self) -> bool {
        uuid_text(self.value@) == Some(self.value@)
    }

    /// Accepts any text that reads as a UUID and keeps its canonical form.
    pub fn parse(id: String) -> (r: Result<LoginAttemptId, ValidationError>)
        ensures
            match uuid_text(id@) {
                Some(t) => r matches Ok(l) && l@ == t,
                None => r == Err::<LoginAttemptId, ValidationError>(
                    ValidationError::MalformedLoginAttemptId,
                ),
            },
    {
        match canonical_uuid(id.as_str()) {
            Some(t) => Ok(LoginAttemptId { value: t }),
            None => Err(ValidationError::MalformedLoginAttemptId),
        }
    }

    /// A fresh random (version 4) identifier.
    pub fn generate() -> (r: LoginAttemptId)
        ensures
            uuid_text(r@) == Some(r@),
    {
        LoginAttemptId { value: random_uuid() }
    }

    pub fn as_str(&self) -> (r: &str)
        ensures
            r@ == self@,
    {
        self.value.as_str()
    }

    /// A second identifier with the same text.
    pub fn copied(&self) -> (r: LoginAttemptId)
        ensures
            r@ == self@,
    {
        proof {
            use_type_invariant(self);
        }
        LoginAttemptId { value: self.value.clone() }
    }
}

impl Default for LoginAttemptId {
    fn default() -> (r: LoginAttemptId)
        ensures
            uuid_text(r@) == Some(r@),
    {
        LoginAttemptId::generate()
    }
}

} // verus!
