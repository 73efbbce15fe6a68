//! The in-memory store of pending second-factor challenges: at most one per
//! e-mail, each lapsing at a given time.

use vstd::prelude::*;

verus! {

use crate::data_stores::TwoFACodeStore;
use crate::email::Email;
use crate::keyed_table::KeyedTable;
use crate::login_attempt_id::LoginAttemptId;
use crate::two_fa_code::TwoFACode;

#[derive(Debug, Clone, Copy, PartialEq, Eq, Structural)]
pub enum TwoFACodeStoreError {
    LoginAttemptIdNotFound,
    UnexpectedError,
}

/// The mathematical value of a stored challenge.
pub struct ChallengeView {
    pub login_attempt_id: Seq<char>,
    pub code: Seq<char>,
    pub expires_at: u64,
}

/// E-mail text to its pending challenge.
pub type ChallengeMap = Map<Seq<char>, ChallengeView>;

/// Whether a challenge for the e-mail is present and has not lapsed at `now`.
pub open spec fn is_live(m: ChallengeMap, email: Seq<char>, now: u64) -> bool {
    m.contains_key(email) && now < m[email].expires_at
}

pub open spec fn get_two_fa_code_spec(m: ChallengeMap, email: Seq<char>, now: u64) -> Result<
    (Seq<char>, Seq<char>),
    TwoFACodeStoreError,
> {
    if is_live(m, email, now) {
        Ok((m[email].login_attempt_id, m[email].code))
    } else {
        Err(TwoFACodeStoreError::LoginAttemptIdNotFound)
    }
}

struct Challenge {
    login_attempt_id: LoginAttemptId,
    code: TwoFACode,
    expires_at: u64,
}

impl View for Challenge {
    type V = ChallengeView;

    closed spec fn view(&self) -> ChallengeView {
        ChallengeView {
            login_attempt_id: self.login_attempt_id@,
            code: self.code@,
            expires_at: self.expires_at,
        }
    }
}

pub struct HashmapTwoFACodeStore {
    challenges: KeyedTable<Challenge>,
}

impl View for HashmapTwoFACodeStore {
    type V = ChallengeMap;

    closed spec fn view(&self) -> ChallengeMap {
        self.challenges@.map_values(|c: Challenge| c@)
    }
}

impl HashmapTwoFACodeStore {
    pub closed spec fn wf(&self) -> bool {
        self.challenges.wf()
    }

    pub fn new() -> (r: HashmapTwoFACodeStore)
        ensures
            r.wf(),
            r@ == ChallengeMap::empty(),
    {
        let r = HashmapTwoFACodeStore { challenges: KeyedTable::new() };
        assert(r@ =~= ChallengeMap::empty());
        r
    }

    /// Stores the challenge for the e-mail until `expires_at`, replacing any
    /// earlier challenge for it.
    pub fn add_two_fa_code(
        &mut self,
        email: &Email,
        login_attempt_id: LoginAttemptId,
        code: TwoFACode,
        expires_at: u64,
    ) -> (r: Result<(), TwoFACodeStoreError>)
        requires
            old(self).wf(),
        ensures
            final(self).wf(),
            final(self)@ == old(self)@.insert(
                email@,
                ChallengeView { login_attempt_id: login_attempt_id@, code: code@, expires_at },
            ),
            r is Ok,
    {
        let item = Challenge { login_attempt_id, code, expires_at };
        let ghost value = item@;
        self.challenges.insert(email.as_str().to_string(), item);
        assert(self@ =~= old(self)@.insert(email@, value));
        Ok(())
    }

    /// The pending challenge for the e-mail; `LoginAttemptIdNotFound` when
    /// none was issued or it has lapsed.
    pub fn get_two_fa_code(&self, email: &Email, now: u64) -> (r: Result<
        (LoginAttemptId, TwoFACode),
        TwoFACodeStoreError,
    >)
        requires
            self.wf(),
        ensures
            match r {
                Ok((l, c)) => get_two_fa_code_spec(self@, email@, now) == Ok::<
                    (Seq<char>, Seq<char>),
                    TwoFACodeStoreError,
                >((l@, c@)),
                Err(e) => get_two_fa_code_spec(self@, email@, now) == Err::<
                    (Seq<char>, Seq<char>),
                    TwoFACodeStoreError,
                >(e),
            },
    {
        match self.challenges.get(email.as_str()) {
            Some(item) => {
                if now < item.expires_at {
                    Ok((item.login_attempt_id.copied(), item.code.copied()))
                } else {
                    Err(TwoFACodeStoreError::LoginAttemptIdNotFound)
                }
            },
            None => Err(TwoFACodeStoreError::LoginAttemptIdNotFound),
        }
    }

    /// Removes the challenge for the e-mail. Succeeds only when it was live at
    /// `now`, so a second removal fails.
    pub fn delete_two_fa_code(&mut self, email: &Email, now: u64) -> (r: Result<
        (),
        TwoFACodeStoreError,
    >)
        requires
            old(self).wf(),
        ensures
            final(self).wf(),
            final(self)@ == old(self)@.remove(email@),
            r is Ok <==> is_live(old(self)@, email@, now),
            r is Err ==> r == Err::<(), TwoFACodeStoreError>(
                TwoFACodeStoreError::LoginAttemptIdNotFound,
            ),
    {
        let live = match self.challenges.get(email.as_str()) {
            Some(item) => now < item.expires_at,
            None => false,
        };
        self.challenges.remove(email.as_str());
        assert(self@ =~= old(self)@.remove(email@));
        if live {
            Ok(())
        } else {
            Err(TwoFACodeStoreError::LoginAttemptIdNotFound)
        }
    }
}

impl TwoFACodeStore for HashmapTwoFACodeStore {
    open spec fn challenges(&self) -> ChallengeMap {
        self@
    }

    open spec fn well_formed(&self) -> bool {
        self.wf()
    }

    open spec fn reliable(&self) -> bool {
        true
    }

    fn add_two_fa_code(
        &mut self,
        email: &Email,
        login_attempt_id: LoginAttemptId,
        code: TwoFACode,
        expires_at: u64,
    ) -> (r: Result<(), TwoFACodeStoreError>) {
        HashmapTwoFACodeStore::add_two_fa_code(self, email, login_attempt_id, code, expires_at)
    }

    fn get_two_fa_code(&self, email: &Email, now: u64) -> (r: Result<
        (LoginAttemptId, TwoFACode),
        TwoFACodeStoreError,
    >) {
        HashmapTwoFACodeStore::get_two_fa_code(self, email, now)
    }

    fn delete_two_fa_code(&mut self, email: &Email, now: u64) -> (r: Result<
        (),
        TwoFACodeStoreError,
    >) {
        HashmapTwoFACodeStore::delete_two_fa_code(self, email, now)
    }
}

} // verus!
