//! Ending a session, and checking a token on request.

use vstd::prelude::*;

verus! {

use crate::app_state::AppState;
use crate::data_stores::{BannedTokenStore, TwoFACodeStore, UserStore};
use crate::auth::{
    current_time,
    revocation_expiry,
    revoke_token_at,
    token_claims,
    validate_token_at,
    validate_token_spec,
};
use crate::errors::AuthAPIError;
use crate::responses::RouteResponse;

pub struct VerifyTokenRequest {
    pub token: String,
}

/// Ends the session of the token at time `now`: a missing token gives
/// `MissingToken`, one that does not validate gives `InvalidToken`, and a
/// valid one is revoked. With a revocation store that fails, a valid token
/// may be refused as invalid, or the revocation fail with `UnexpectedError`;
/// either way nothing is recorded.
pub fn logout_at<U: UserStore, B: BannedTokenStore, T: TwoFACodeStore>(
    state: &mut AppState<U, B, T>,
    token: Option<String>,
    now: u64,
) -> (r: Result<(), AuthAPIError>)
    requires
        old(state).wf(),
    ensures
        final(state).wf(),
        final(state).user_store == old(state).user_store,
        final(state).two_fa_code_store == old(state).two_fa_code_store,
        final(state).banned_token_store.reliable() == old(state).banned_token_store.reliable(),
        final(state).jwt_secret@ == old(state).jwt_secret@,
        ({
            let banned = old(state).banned_token_store.banned();
            match token {
                None => r == Err::<(), AuthAPIError>(AuthAPIError::MissingToken)
                    && final(state).banned_token_store.banned() == banned,
                Some(t) => if validate_token_spec(banned, t@, old(state).jwt_secret@, now) is Ok {
                    ||| {
                        &&& r is Ok
                        &&& final(state).banned_token_store.banned() == banned.insert(
                            t@,
                            revocation_expiry(t@, old(state).jwt_secret@, now),
                        )
                    }
                    ||| {
                        &&& !old(state).banned_token_store.reliable()
                        &&& r is Err
                        &&& final(state).banned_token_store.banned() == banned
                    }
                } else {
                    &&& r == Err::<(), AuthAPIError>(AuthAPIError::InvalidToken)
                    &&& final(state).banned_token_store.banned() == banned
                },
            }
        }),
{
    let token = match token {
        Some(t) => t,
        None => return Err(AuthAPIError::MissingToken),
    };
    if validate_token_at(token.as_str(), &state.banned_token_store, state.jwt_secret.as_slice(), now).is_err() {
        return Err(AuthAPIError::InvalidToken);
    }
    match revoke_token_at(&mut state.banned_token_store, token.as_str(), state.jwt_secret.as_slice(), now) {
        Ok(()) => Ok(()),
        Err(_) => Err(AuthAPIError::UnexpectedError),
    }
}

/// Ends the session of the token at the current time.
pub fn logout<U: UserStore, B: BannedTokenStore, T: TwoFACodeStore>(
    state: &mut AppState<U, B, T>,
    token: Option<String>,
) -> (r: Result<(), AuthAPIError>)
    requires
        old(state).wf(),
    ensures
        final(state).wf(),
        final(state).user_store == old(state).user_store,
        final(state).two_fa_code_store == old(state).two_fa_code_store,
        final(state).jwt_secret@ == old(state).jwt_secret@,
        token is None ==> r == Err::<(), AuthAPIError>(AuthAPIError::MissingToken),
        r is Err ==> final(state).banned_token_store.banned() == old(
            state,
        ).banned_token_store.banned(),
        match token {
            Some(t) => {
                &&& r is Ok ==> exists|now: u64|
                    final(state).banned_token_store.banned() == old(
                        state,
                    ).banned_token_store.banned().insert(
                        t@,
                        revocation_expiry(t@, old(state).jwt_secret@, now),
                    )
                &&& token_claims(t@, old(state).jwt_secret@) is None ==> r == Err::<
                    (),
                    AuthAPIError,
                >(AuthAPIError::InvalidToken)
            },
            None => true,
        },
{
    let now = current_time();
    logout_at(state, token, now)
}

/// Answers whether the token is valid at time `now`; with a revocation
/// store that fails, a valid token may be reported invalid.
pub fn verify_token_at<U: UserStore, B: BannedTokenStore, T: TwoFACodeStore>(
    state: &AppState<U, B, T>,
    request: VerifyTokenRequest,
    now: u64,
) -> (r: Result<RouteResponse, AuthAPIError>)
    requires
        state.wf(),
    ensures
        ({
            let outcome = validate_token_spec(
                state.banned_token_store.banned(),
                request.token@,
                state.jwt_secret@,
                now,
            );
            &&& outcome is Ok ==> ((r matches Ok(m) && m.message@ == "Token has been validated!"@)
                || (!state.banned_token_store.reliable() && r == Err::<RouteResponse, AuthAPIError>(
                AuthAPIError::InvalidToken,
            )))
            &&& outcome is Err ==> r == Err::<RouteResponse, AuthAPIError>(
                AuthAPIError::InvalidToken,
            )
        }),
{
    match validate_token_at(request.token.as_str(), &state.banned_token_store, state.jwt_secret.as_slice(), now) {
        Ok(_) => Ok(RouteResponse { message: "Token has been validated!".to_string() }),
        Err(_) => Err(AuthAPIError::InvalidToken),
    }
}

/// Answers whether the token is valid at the current time.
pub fn verify_token<U: UserStore, B: BannedTokenStore, T: TwoFACodeStore>(
    state: &AppState<U, B, T>,
    request: VerifyTokenRequest,
) -> (r: Result<RouteResponse, AuthAPIError>)
    requires
        state.wf(),
    ensures
        r is Ok ==> exists|now: u64|
            validate_token_spec(
                state.banned_token_store.banned(),
                request.token@,
                state.jwt_secret@,
                now,
            ) is Ok,
        token_claims(request.token@, state.jwt_secret@) is None ==> r == Err::<
            RouteResponse,
            AuthAPIError,
        >(AuthAPIError::InvalidToken),
{
    let now = current_time();
    verify_token_at(state, request, now)
}

} // verus!
