//! Completing a login with the second factor: the challenge identifier and
//! code must both match the pending challenge, which is then used up.

use vstd::prelude::*;

verus! {

use crate::app_state::AppState;
use crate::data_stores::{BannedTokenStore, TwoFACodeStore, UserStore};
use crate::auth::{AuthCookie, current_time, generate_auth_cookie_at, is_session_cookie, signed_token, token_claims};
use crate::constants::expiry_after;
use crate::email::{Email, email_syntax_ok};
use crate::errors::AuthAPIError;
use crate::login_attempt_id::{LoginAttemptId, uuid_text};
use crate::two_fa_code::{TwoFACode, code_outcome};
use crate::two_fa_code_store::{ChallengeMap, ChallengeView, get_two_fa_code_spec};

pub struct Verify2FARequest {
    pub email: String,
    pub login_attempt_id: String,
    pub two_fa_code: String,
}

/// Where a verification attempt goes: refused with an error, or accepted.
/// Malformed input is refused first, each kind with its own error; then a
/// missing or lapsed challenge, or one that differs in identifier or code,
/// gives `IncorrectCredentials`.
pub open spec fn verify_step(
    challenges: ChallengeMap,
    email: Seq<char>,
    login_attempt_id: Seq<char>,
    code: Seq<char>,
    now: u64,
) -> Result<(), AuthAPIError> {
    if !email_syntax_ok(email) {
        Err(AuthAPIError::InvalidCredentials)
    } else {
        match uuid_text(login_attempt_id) {
            None => Err(AuthAPIError::InvalidLoginAttamptId),
            Some(id) => if code_outcome(code) is Err {
                Err(AuthAPIError::Invalid2FACode)
            } else {
                match get_two_fa_code_spec(challenges, email, now) {
                    Err(_) => Err(AuthAPIError::IncorrectCredentials),
                    Ok((stored_id, stored_code)) => if stored_id == id && stored_code == code {
                        Ok(())
                    } else {
                        Err(AuthAPIError::IncorrectCredentials)
                    },
                }
            },
        }
    }
}

fn same_text(a: &str, b: &str) -> (r: bool)
    ensures
        r == (a@ == b@),
{
    a.to_string() == b.to_string()
}

/// Verifies the second factor at time `now`. On success the challenge is
/// removed and a session cookie issued; on any refusal the stored challenges
/// are left as they were. A challenge store that fails counts as a wrong
/// code.
pub fn verify_2fa_at<U: UserStore, B: BannedTokenStore, T: TwoFACodeStore>(
    state: &mut AppState<U, B, T>,
    request: Verify2FARequest,
    now: u64,
) -> (r: Result<AuthCookie, AuthAPIError>)
    requires
        old(state).wf(),
    ensures
        final(state).wf(),
        final(state).user_store == old(state).user_store,
        final(state).banned_token_store == old(state).banned_token_store,
        final(state).two_fa_code_store.reliable() == old(state).two_fa_code_store.reliable(),
        final(state).jwt_secret@ == old(state).jwt_secret@,
        ({
            let challenges = old(state).two_fa_code_store.challenges();
            match verify_step(
                challenges,
                request.email@,
                request.login_attempt_id@,
                request.two_fa_code@,
                now,
            ) {
                Err(e) => {
                    &&& r == Err::<AuthCookie, AuthAPIError>(e)
                    &&& final(state).two_fa_code_store.challenges() == challenges
                },
                Ok(()) => {
                    ||| {
                        &&& !old(state).two_fa_code_store.reliable()
                        &&& r == Err::<AuthCookie, AuthAPIError>(
                            AuthAPIError::IncorrectCredentials,
                        )
                        &&& final(state).two_fa_code_store.challenges() == challenges
                    }
                    ||| {
                        &&& final(state).two_fa_code_store.challenges() == challenges.remove(
                            request.email@,
                        )
                        &&& match expiry_after(now) {
                            Some(exp) => r matches Ok(c) && is_session_cookie(
                                c,
                                signed_token(request.email@, exp, old(state).jwt_secret@),
                            ) && token_claims(c.value@, old(state).jwt_secret@) == Some(
                                (request.email@, exp),
                            ),
                            None => r == Err::<AuthCookie, AuthAPIError>(
                                AuthAPIError::UnexpectedError,
                            ),
                        }
                    }
                },
            }
        }),
{
    let email = match Email::parse(request.email) {
        Ok(e) => e,
        Err(_) => return Err(AuthAPIError::InvalidCredentials),
    };
    let login_attempt_id = match LoginAttemptId::parse(request.login_attempt_id) {
        Ok(id) => id,
        Err(_) => return Err(AuthAPIError::InvalidLoginAttamptId),
    };
    let two_fa_code = match TwoFACode::parse(request.two_fa_code) {
        Ok(c) => c,
        Err(_) => return Err(AuthAPIError::Invalid2FACode),
    };
    let (stored_id, stored_code) = match state.two_fa_code_store.get_two_fa_code(&email, now) {
        Ok(pair) => pair,
        Err(_) => return Err(AuthAPIError::IncorrectCredentials),
    };
    let id_matches = same_text(stored_id.as_str(), login_attempt_id.as_str());
    let code_matches = same_text(stored_code.as_str(), two_fa_code.as_str());
    if !(id_matches && code_matches) {
        return Err(AuthAPIError::IncorrectCredentials);
    }
    if state.two_fa_code_store.delete_two_fa_code(&email, now).is_err() {
        return Err(AuthAPIError::IncorrectCredentials);
    }
    match generate_auth_cookie_at(&email, now, state.jwt_secret.as_slice()) {
        Ok(cookie) => Ok(cookie),
        Err(_) => Err(AuthAPIError::UnexpectedError),
    }
}

/// Verifies the second factor at the current time.
pub fn verify_2fa<U: UserStore, B: BannedTokenStore, T: TwoFACodeStore>(
    state: &mut AppState<U, B, T>,
    request: Verify2FARequest,
) -> (r: Result<AuthCookie, AuthAPIError>)
    requires
        old(state).wf(),
    ensures
        final(state).wf(),
        final(state).user_store == old(state).user_store,
        final(state).banned_token_store == old(state).banned_token_store,
        final(state).jwt_secret@ == old(state).jwt_secret@,
        r is Ok ==> final(state).two_fa_code_store.challenges() == old(
            state,
        ).two_fa_code_store.challenges().remove(request.email@),
        r matches Ok(c) ==> exists|exp: u64|
            is_session_cookie(c, signed_token(request.email@, exp, old(state).jwt_secret@))
                && token_claims(c.value@, old(state).jwt_secret@) == Some((request.email@, exp)),
        r is Err ==> final(state).two_fa_code_store.challenges() == old(
            state,
        ).two_fa_code_store.challenges(),
        !email_syntax_ok(request.email@) ==> r == Err::<AuthCookie, AuthAPIError>(
            AuthAPIError::InvalidCredentials,
        ),
        email_syntax_ok(request.email@) && uuid_text(request.login_attempt_id@) is None ==> r
            == Err::<AuthCookie, AuthAPIError>(AuthAPIError::InvalidLoginAttamptId),
        email_syntax_ok(request.email@) && uuid_text(request.login_attempt_id@) is Some
            && code_outcome(request.two_fa_code@) is Err ==> r == Err::<AuthCookie, AuthAPIError>(
            AuthAPIError::Invalid2FACode,
        ),
{
    let now = current_time();
    verify_2fa_at(state, request, now)
}

/// Issuing a second challenge for an e-mail makes the first one fail, as
/// long as the two differ in identifier or code.
pub proof fn lemma_new_challenge_replaces_old(
    challenges: ChallengeMap,
    email: Seq<char>,
    first: ChallengeView,
    second: ChallengeView,
    now: u64,
)
    requires
        email_syntax_ok(email),
        uuid_text(first.login_attempt_id) == Some(first.login_attempt_id),
        code_outcome(first.code) is Ok,
        first.login_attempt_id != second.login_attempt_id || first.code != second.code,
    ensures
        verify_step(
            challenges.insert(email, first).insert(email, second),
            email,
            first.login_attempt_id,
            first.code,
            now,
        ) == Err::<(), AuthAPIError>(AuthAPIError::IncorrectCredentials),
{
}

/// A challenge is used once: after a successful verification removes it,
/// the same attempt fails.
pub proof fn lemma_challenge_single_use(
    challenges: ChallengeMap,
    email: Seq<char>,
    login_attempt_id: Seq<char>,
    code: Seq<char>,
    now: u64,
    later: u64,
)
    requires
        verify_step(challenges, email, login_attempt_id, code, now) is Ok,
    ensures
        verify_step(challenges.remove(email), email, login_attempt_id, code, later) == Err::<
            (),
            AuthAPIError,
        >(AuthAPIError::IncorrectCredentials),
{
}

/// A wrong code is refused with `IncorrectCredentials`, and since a refusal
/// leaves the challenge in place, the right code still succeeds after it.
pub proof fn lemma_wrong_code_keeps_challenge(
    challenges: ChallengeMap,
    email: Seq<char>,
    login_attempt_id: Seq<char>,
    code: Seq<char>,
    wrong_code: Seq<char>,
    now: u64,
)
    requires
        verify_step(challenges, email, login_attempt_id, code, now) is Ok,
        code_outcome(wrong_code) is Ok,
        wrong_code != code,
    ensures
        verify_step(challenges, email, login_attempt_id, wrong_code, now) == Err::<
            (),
            AuthAPIError,
        >(AuthAPIError::IncorrectCredentials),
        verify_step(challenges, email, login_attempt_id, code, now) is Ok,
{
}

} // verus!
