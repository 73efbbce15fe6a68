//! The in-memory user store: users keyed by their e-mail text.

use vstd::prelude::*;

verus! {

use crate::data_stores::UserStore;
use crate::keyed_table::KeyedTable;
use crate::user::{User, UserView};

#[derive(Debug, Clone, Copy, PartialEq, Eq, Structural)]
pub enum UserStoreError {
    UserAlreadyExists,
    UserNotFound,
    InvalidCredentials,
    UnexpectedError,
}

pub type UserMap = Map<Seq<char>, UserView>;

/// Adding a user: refused when the e-mail is taken, else inserted.
pub open spec fn add_user_spec(m: UserMap, u: UserView) -> (Result<(), UserStoreError>, UserMap) {
    if m.contains_key(u.email) {
        (Err(UserStoreError::UserAlreadyExists), m)
    } else {
        (Ok(()), m.insert(u.email, u))
    }
}

pub open spec fn get_user_spec(m: UserMap, email: Seq<char>) -> Result<UserView, UserStoreError> {
    if m.contains_key(email) {
        Ok(m[email])
    } else {
        Err(UserStoreError::UserNotFound)
    }
}

pub open spec fn validate_user_spec(m: UserMap, email: Seq<char>, password: Seq<char>) -> Result<
    (),
    UserStoreError,
> {
    if !m.contains_key(email) {
        Err(UserStoreError::UserNotFound)
    } else if m[email].password == password {
        Ok(())
    } else {
        Err(UserStoreError::InvalidCredentials)
    }
}

/// A second `add_user` with an e-mail that is already stored fails with
/// `UserAlreadyExists` and leaves the record of the first in place.
pub proof fn lemma_add_user_twice(m: UserMap, first: UserView, second: UserView)
    requires
        first.email == second.email,
    ensures
        ({
            let (r1, m1) = add_user_spec(m, first);
            let (r2, m2) = add_user_spec(m1, second);
            &&& r2 == Err::<(), UserStoreError>(UserStoreError::UserAlreadyExists)
            &&& m2 == m1
            &&& r1 is Ok ==> get_user_spec(m2, first.email) == Ok::<UserView, UserStoreError>(first)
        }),
{
}

pub struct HashmapUserStore {
    users: KeyedTable<User>,
}

impl View for HashmapUserStore {
    type V = UserMap;

    closed spec fn view(&self) -> UserMap {
        self.users@.map_values(|u: User| u@)
    }
}

impl HashmapUserStore {
    pub closed spec fn wf(&self) -> bool {
        self.users.wf()
    }

    pub fn new() -> (r: HashmapUserStore)
        ensures
            r.wf(),
            r@ == UserMap::empty(),
    {
        let r = HashmapUserStore { users: KeyedTable::new() };
        assert(r@ =~= UserMap::empty());
        r
    }

    pub fn add_user(&mut self, user: User) -> (r: Result<(), UserStoreError>)
        requires
            old(self).wf(),
        ensures
            final(self).wf(),
            (r, final(self)@) == add_user_spec(old(self)@, user@),
    {
        let key = user.email.clone();
        if self.users.get(key.as_str()).is_some() {
            return Err(UserStoreError::UserAlreadyExists);
        }
        let ghost u = user@;
        self.users.insert(key, user);
        assert(self@ =~= old(self)@.insert(u.email, u));
        Ok(())
    }

    pub fn get_user(&self, email: &str) -> (r: Result<User, UserStoreError>)
        requires
            self.wf(),
        ensures
            match r {
                Ok(u) => get_user_spec(self@, email@) == Ok::<UserView, UserStoreError>(u@),
                Err(e) => get_user_spec(self@, email@) == Err::<UserView, UserStoreError>(e),
            },
    {
        match self.users.get(email) {
            Some(user) => Ok(user.copied()),
            None => Err(UserStoreError::UserNotFound),
        }
    }

    pub fn validate_user(&self, email: &str, password: &str) -> (r: Result<(), UserStoreError>)
        requires
            self.wf(),
        ensures
            r == validate_user_spec(self@, email@, password@),
    {
        let user = self.get_user(email)?;
        if user.password == password.to_string() {
            Ok(())
        } else {
            Err(UserStoreError::InvalidCredentials)
        }
    }
}

impl UserStore for HashmapUserStore {
    open spec fn users(&self) -> UserMap {
        self@
    }

    open spec fn well_formed(&self) -> bool {
        self.wf()
    }

    open spec fn reliable(&self) -> bool {
        true
    }

    fn add_user(&mut self, user: User) -> (r: Result<(), UserStoreError>) {
        HashmapUserStore::add_user(self, user)
    }

    fn get_user(&self, email: &str) -> (r: Result<User, UserStoreError>) {
        HashmapUserStore::get_user(self, email)
    }

    fn validate_user(&self, email: &str, password: &str) -> (r: Result<(), UserStoreError>) {
        HashmapUserStore::validate_user(self, email, password)
    }
}

} // verus!
