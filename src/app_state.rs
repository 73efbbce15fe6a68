//! The state that the API works on: the three stores and the signing secret.

use vstd::prelude::*;

verus! {

use crate::data_stores::{BannedTokenStore, TwoFACodeStore, UserStore};

pub struct AppState<U: UserStore, B: BannedTokenStore, T: TwoFACodeStore> {
    pub user_store: U,
    pub banned_token_store: B,
    pub two_fa_code_store: T,
    pub jwt_secret: Vec<u8>,
}

impl<U: UserStore, B: BannedTokenStore, T: TwoFACodeStore> AppState<U, B, T> {
    pub open spec fn wf(&self) -> bool {
        &&& self.user_store.well_formed()
        &&& self.banned_token_store.well_formed()
        &&& self.two_fa_code_store.well_formed()
    }

    pub fn new(user_store: U, banned_token_store: B, two_fa_code_store: T, jwt_secret: Vec<u8>) -> (r:
        AppState<U, B, T>)
        ensures
            r.user_store == user_store,
            r.banned_token_store == banned_token_store,
            r.two_fa_code_store == two_fa_code_store,
            r.jwt_secret@ == jwt_secret@,
    {
        AppState { user_store, banned_token_store, two_fa_code_store, jwt_secret }
    }
}

} // verus!
