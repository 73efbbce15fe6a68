//! The capabilities that the login flow needs from its storage: users,
//! revoked tokens and pending challenges. Any backend may provide them; a
//! backend that can fail reports `UnexpectedError` and changes nothing.

use vstd::prelude::*;

verus! {

use crate::banned_token_store::{BannedMap, BannedTokenStoreError, is_banned_spec};
use crate::email::Email;
use crate::login_attempt_id::LoginAttemptId;
use crate::two_fa_code::TwoFACode;
use crate::two_fa_code_store::{
    ChallengeMap,
    ChallengeView,
    TwoFACodeStoreError,
    get_two_fa_code_spec,
    is_live,
};
use crate::user::User;
use crate::user_store::{UserMap, UserStoreError, add_user_spec, get_user_spec, validate_user_spec};

pub trait UserStore {
    /// The users held, keyed by e-mail text.
    spec fn users(&self) -> UserMap;

    /// The store's own consistency condition.
    spec fn well_formed(&self) -> bool;

    /// Whether the storage never fails; a reliable store never reports
    /// `UnexpectedError`.
    spec fn reliable(&self) -> bool;

    fn add_user(&mut self, user: User) -> (r: Result<(), UserStoreError>)
        requires
            old(self).well_formed(),
        ensures
            final(self).well_formed(),
            final(self).reliable() == old(self).reliable(),
            r == Err::<(), UserStoreError>(UserStoreError::UnexpectedError) ==> {
                &&& !old(self).reliable()
                &&& final(self).users() == old(self).users()
            },
            r != Err::<(), UserStoreError>(UserStoreError::UnexpectedError) ==> (
            r,
            final(self).users(),
            ) == add_user_spec(old(self).users(), user@),
    ;

    fn get_user(&self, email: &str) -> (r: Result<User, UserStoreError>)
        requires
            self.well_formed(),
        ensures
            match r {
                Ok(u) => get_user_spec(self.users(), email@) == Ok::<
                    crate::user::UserView,
                    UserStoreError,
                >(u@),
                Err(UserStoreError::UnexpectedError) => !self.reliable(),
                Err(e) => get_user_spec(self.users(), email@) == Err::<
                    crate::user::UserView,
                    UserStoreError,
                >(e),
            },
    ;

    fn validate_user(&self, email: &str, password: &str) -> (r: Result<(), UserStoreError>)
        requires
            self.well_formed(),
        ensures
            r == Err::<(), UserStoreError>(UserStoreError::UnexpectedError) ==> !self.reliable(),
            r != Err::<(), UserStoreError>(UserStoreError::UnexpectedError) ==> r
                == validate_user_spec(self.users(), email@, password@),
    ;
}

pub trait BannedTokenStore {
    /// Revoked token text to the time at which its record lapses.
    spec fn banned(&self) -> BannedMap;

    spec fn well_formed(&self) -> bool;

    /// Whether the storage never fails.
    spec fn reliable(&self) -> bool;

    /// Whether a lookup of the token at time `now` gets an answer; a reliable
    /// store always answers.
    spec fn answers(&self, token: Seq<char>, now: u64) -> bool;

    fn add_banned_token(&mut self, token: String, expires_at: u64) -> (r: Result<
        (),
        BannedTokenStoreError,
    >)
        requires
            old(self).well_formed(),
        ensures
            final(self).well_formed(),
            final(self).reliable() == old(self).reliable(),
            r is Ok ==> final(self).banned() == old(self).banned().insert(token@, expires_at),
            r is Err ==> !old(self).reliable() && final(self).banned() == old(self).banned(),
    ;

    fn is_banned_token(&self, token: &str, now: u64) -> (r: Result<bool, BannedTokenStoreError>)
        requires
            self.well_formed(),
        ensures
            self.reliable() ==> self.answers(token@, now),
            r is Ok <==> self.answers(token@, now),
            r matches Ok(b) ==> b == is_banned_spec(self.banned(), token@, now),
    ;
}

pub trait TwoFACodeStore {
    /// E-mail text to its pending challenge.
    spec fn challenges(&self) -> ChallengeMap;

    spec fn well_formed(&self) -> bool;

    /// Whether the storage never fails.
    spec fn reliable(&self) -> bool;

    fn add_two_fa_code(
        &mut self,
        email: &Email,
        login_attempt_id: LoginAttemptId,
        code: TwoFACode,
        expires_at: u64,
    ) -> (r: Result<(), TwoFACodeStoreError>)
        requires
            old(self).well_formed(),
        ensures
            final(self).well_formed(),
            final(self).reliable() == old(self).reliable(),
            r is Ok ==> final(self).challenges() == old(self).challenges().insert(
                email@,
                ChallengeView { login_attempt_id: login_attempt_id@, code: code@, expires_at },
            ),
            r is Err ==> !old(self).reliable() && final(self).challenges() == old(
                self,
            ).challenges(),
    ;

    fn get_two_fa_code(&self, email: &Email, now: u64) -> (r: Result<
        (LoginAttemptId, TwoFACode),
        TwoFACodeStoreError,
    >)
        requires
            self.well_formed(),
        ensures
            match r {
                Ok((l, c)) => get_two_fa_code_spec(self.challenges(), email@, now) == Ok::<
                    (Seq<char>, Seq<char>),
                    TwoFACodeStoreError,
                >((l@, c@)),
                Err(TwoFACodeStoreError::UnexpectedError) => !self.reliable(),
                Err(e) => get_two_fa_code_spec(self.challenges(), email@, now) == Err::<
                    (Seq<char>, Seq<char>),
                    TwoFACodeStoreError,
                >(e),
            },
    ;

    fn delete_two_fa_code(&mut self, email: &Email, now: u64) -> (r: Result<
        (),
        TwoFACodeStoreError,
    >)
        requires
            old(self).well_formed(),
        ensures
            final(self).well_formed(),
            final(self).reliable() == old(self).reliable(),
            r == Err::<(), TwoFACodeStoreError>(TwoFACodeStoreError::UnexpectedError) ==> {
                &&& !old(self).reliable()
                &&& final(self).challenges() == old(self).challenges()
            },
            r != Err::<(), TwoFACodeStoreError>(TwoFACodeStoreError::UnexpectedError) ==> {
                &&& final(self).challenges() == old(self).challenges().remove(email@)
                &&& (r is Ok <==> is_live(old(self).challenges(), email@, now))
            },
    ;
}

} // verus!
