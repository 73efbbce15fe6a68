//! The in-memory store of revoked tokens. Each record lapses at a given
//! time, after which the token reads as not revoked.

use vstd::prelude::*;

verus! {

use crate::data_stores::BannedTokenStore;
use crate::keyed_table::KeyedTable;

#[derive(Debug, Clone, Copy, PartialEq, Eq, Structural)]
pub enum BannedTokenStoreError {
    UnexpectedError,
}

/// Revoked token text to the time (in seconds) at which its record lapses.
pub type BannedMap = Map<Seq<char>, u64>;

/// Whether the token is revoked at time `now`.
pub open spec fn is_banned_spec(m: BannedMap, token: Seq<char>, now: u64) -> bool {
    m.contains_key(token) && now < m[token]
}

pub struct HashsetBannedTokenStore {
    tokens: KeyedTable<u64>,
}

impl View for HashsetBannedTokenStore {
    type V = BannedMap;

    closed spec fn view(&self) -> BannedMap {
        self.tokens@
    }
}

impl HashsetBannedTokenStore {
    pub closed spec fn wf(&self) -> bool {
        self.tokens.wf()
    }

    pub fn new() -> (r: HashsetBannedTokenStore)
        ensures
            r.wf(),
            r@ == BannedMap::empty(),
    {
        HashsetBannedTokenStore { tokens: KeyedTable::new() }
    }

    /// Records the token as revoked until `expires_at`, replacing an earlier
    /// record of the same token. Revoking twice is no error.
    pub fn add_banned_token(&mut self, token: String, expires_at: u64) -> (r: Result<
        (),
        BannedTokenStoreError,
    >)
        requires
            old(self).wf(),
        ensures
            final(self).wf(),
            final(self)@ == old(self)@.insert(token@, expires_at),
            r is Ok,
    {
        self.tokens.insert(token, expires_at);
        Ok(())
    }

    /// Whether the token is revoked at time `now`; a lapsed record reads as
    /// never revoked.
    pub fn is_banned_token(&self, token: &str, now: u64) -> (r: Result<bool, BannedTokenStoreError>)
        requires
            self.wf(),
        ensures
            r == Ok::<bool, BannedTokenStoreError>(is_banned_spec(self@, token@, now)),
    {
        match self.tokens.get(token) {
            Some(expires_at) => Ok(now < *expires_at),
            None => Ok(false),
        }
    }
}

impl BannedTokenStore for HashsetBannedTokenStore {
    open spec fn banned(&self) -> BannedMap {
        self@
    }

    open spec fn well_formed(&self) -> bool {
        self.wf()
    }

    open spec fn reliable(&self) -> bool {
        true
    }

    open spec fn answers(&self, token: Seq<char>, now: u64) -> bool {
        true
    }

    fn add_banned_token(&mut self, token: String, expires_at: u64) -> (r: Result<
        (),
        BannedTokenStoreError,
    >) {
        HashsetBannedTokenStore::add_banned_token(self, token, expires_at)
    }

    fn is_banned_token(&self, token: &str, now: u64) -> (r: Result<bool, BannedTokenStoreError>) {
        HashsetBannedTokenStore::is_banned_token(self, token, now)
    }
}

} // verus!
