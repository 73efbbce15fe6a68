//! A registered user.

use vstd::prelude::*;

verus! {

/// The mathematical value of a `User`.
pub struct UserView {
    pub email: Seq<char>,
    pub password: Seq<char>,
    pub requires_2fa: bool,
}

#[derive(Debug, Clone, PartialEq, Eq)]
pub struct User {
    pub email: String,
    pub password: String,
    pub requires_2fa: bool,
}

impl View for User {
    type V = UserView;

    open spec fn view(&self) -> UserView {
        UserView { email: self.email@, password: self.password@, requires_2fa: self.requires_2fa }
    }
}

impl User {
    pub fn new(email: String, password: String, requires_2fa: bool) -> (r: User)
        ensures
            r@ == (UserView { email: email@, password: password@, requires_2fa }),
    {
        User { email, password, requires_2fa }
    }

    pub fn email(&self) -> (r: &str)
        ensures
            r@ == self.email@,
    {
        self.email.as_str()
    }

    /// A second record with the same contents.
    pub fn copied(&self) -> (r: User)
        ensures
            r@ == self@,
    {
        User {
            email: self.email.clone(),
            password: self.password.clone(),
            requires_2fa: self.requires_2fa,
        }
    }
}

} // verus!
