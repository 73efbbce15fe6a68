//! Logging in: checks the credentials, then either opens a session at once
//! or issues a second-factor challenge and sends its code to the user.

use vstd::prelude::*;

verus! {

use crate::app_state::AppState;
use crate::data_stores::{BannedTokenStore, TwoFACodeStore, UserStore};
use crate::auth::{AuthCookie, current_time, generate_auth_cookie_at, is_session_cookie, signed_token, token_claims};
use crate::constants::{capped_expiry, expiry_after, saturating_expiry};
use crate::email::{Email, email_syntax_ok};
use crate::email_client::EmailClient;
use crate::errors::AuthAPIError;
use crate::login_attempt_id::LoginAttemptId;
use crate::password::{MIN_PASSWORD_CHARS, Password};
use crate::two_fa_code::{TwoFACode, code_outcome};
use crate::two_fa_code_store::ChallengeView;
use crate::user_store::{UserMap, validate_user_spec};

pub struct LoginRequest {
    pub email: String,
    pub password: String,
}

#[derive(Debug, Clone, PartialEq, Eq)]
pub struct TwoFactorAuthResponse {
    pub message: String,
    pub login_attempt_id: String,
}

#[derive(Debug, Clone, PartialEq, Eq)]
pub enum LoginResponse {
    RegularAuth,
    TwoFactorAuth(TwoFactorAuthResponse),
}

/// Where a login attempt goes: refused with an error, or accepted, with
/// whether the user requires a second factor.
pub open spec fn login_step(users: UserMap, email: Seq<char>, password: Seq<char>) -> Result<
    bool,
    AuthAPIError,
> {
    if !email_syntax_ok(email) || password.len() < MIN_PASSWORD_CHARS {
        Err(AuthAPIError::InvalidCredentials)
    } else if validate_user_spec(users, email, password) is Err {
        Err(AuthAPIError::IncorrectCredentials)
    } else {
        Ok(users[email].requires_2fa)
    }
}

/// Opens a session for the e-mail at time `now`. It fails only when the
/// token's expiry does not fit in a `u64`.
pub fn handle_no_2fa(email: &Email, secret: &[u8], now: u64) -> (r: Result<
    (LoginResponse, Option<AuthCookie>),
    AuthAPIError,
>)
    ensures
        match expiry_after(now) {
            Some(exp) => r matches Ok((LoginResponse::RegularAuth, Some(c))) && is_session_cookie(
                c,
                signed_token(email@, exp, secret@),
            ) && token_claims(c.value@, secret@) == Some((email@, exp)),
            None => r == Err::<(LoginResponse, Option<AuthCookie>), AuthAPIError>(
                AuthAPIError::InvalidCookie,
            ),
        },
{
    match generate_auth_cookie_at(email, now, secret) {
        Ok(cookie) => Ok((LoginResponse::RegularAuth, Some(cookie))),
        Err(_) => Err(AuthAPIError::InvalidCookie),
    }
}

/// Stores a challenge for the e-mail, then sends its code to the user. The
/// code is sent only once the challenge is stored; when storing fails
/// nothing is sent.
pub fn handle_2fa<T: TwoFACodeStore, N: EmailClient>(
    email: &Email,
    two_fa_code_store: &mut T,
    email_client: &mut N,
    login_attempt_id: LoginAttemptId,
    two_fa_code: TwoFACode,
    now: u64,
) -> (r: Result<(LoginResponse, Option<AuthCookie>), AuthAPIError>)
    requires
        old(two_fa_code_store).well_formed(),
    ensures
        final(two_fa_code_store).well_formed(),
        final(two_fa_code_store).reliable() == old(two_fa_code_store).reliable(),
        ({
            let stored = old(two_fa_code_store).challenges().insert(
                email@,
                ChallengeView {
                    login_attempt_id: login_attempt_id@,
                    code: two_fa_code@,
                    expires_at: saturating_expiry(now),
                },
            );
            match r {
                Ok((response, cookie)) => {
                    &&& final(two_fa_code_store).challenges() == stored
                    &&& final(email_client).outbox() == old(email_client).outbox().push(
                        (email@, "2fa_code"@, two_fa_code@),
                    )
                    &&& cookie is None
                    &&& response matches LoginResponse::TwoFactorAuth(t)
                    &&& t.login_attempt_id@ == login_attempt_id@
                    &&& t.message@ == "2FA required"@
                },
                Err(e) => {
                    &&& e == AuthAPIError::UnexpectedError
                    &&& (final(two_fa_code_store).challenges() == stored || {
                        &&& !old(two_fa_code_store).reliable()
                        &&& final(two_fa_code_store).challenges() == old(
                            two_fa_code_store,
                        ).challenges()
                        &&& final(email_client).outbox() == old(email_client).outbox()
                    })
                },
            }
        }),
{
    let id_text = login_attempt_id.as_str().to_string();
    let code_text = two_fa_code.as_str().to_string();
    if two_fa_code_store.add_two_fa_code(email, login_attempt_id, two_fa_code, capped_expiry(now)).is_err() {
        return Err(AuthAPIError::UnexpectedError);
    }
    if email_client.send_email(email, "2fa_code", code_text.as_str()).is_err() {
        return Err(AuthAPIError::UnexpectedError);
    }
    let response = TwoFactorAuthResponse {
        message: "2FA required".to_string(),
        login_attempt_id: id_text,
    };
    Ok((LoginResponse::TwoFactorAuth(response), None))
}

/// Logs in at time `now`, with the challenge identifier and code to use if
/// the user requires a second factor. Malformed input is refused with
/// `InvalidCredentials` and wrong credentials with `IncorrectCredentials`;
/// the two are not told apart further. A user store that fails counts as
/// wrong credentials; a challenge store or delivery that fails gives
/// `UnexpectedError`. Nothing is sent except the code of a stored challenge.
pub fn login_at<U: UserStore, B: BannedTokenStore, T: TwoFACodeStore, N: EmailClient>(
    state: &mut AppState<U, B, T>,
    email_client: &mut N,
    request: LoginRequest,
    login_attempt_id: LoginAttemptId,
    two_fa_code: TwoFACode,
    now: u64,
) -> (r: Result<(LoginResponse, Option<AuthCookie>), AuthAPIError>)
    requires
        old(state).wf(),
    ensures
        final(state).wf(),
        final(state).user_store == old(state).user_store,
        final(state).banned_token_store == old(state).banned_token_store,
        final(state).two_fa_code_store.reliable() == old(state).two_fa_code_store.reliable(),
        final(state).jwt_secret@ == old(state).jwt_secret@,
        ({
            let secret = old(state).jwt_secret@;
            let challenges = old(state).two_fa_code_store.challenges();
            let outbox = old(email_client).outbox();
            let stored = challenges.insert(
                request.email@,
                ChallengeView {
                    login_attempt_id: login_attempt_id@,
                    code: two_fa_code@,
                    expires_at: saturating_expiry(now),
                },
            );
            let unchanged = {
                &&& final(state).two_fa_code_store.challenges() == challenges
                &&& final(email_client).outbox() == outbox
            };
            let user_store_failed = {
                &&& !old(state).user_store.reliable()
                &&& r == Err::<(LoginResponse, Option<AuthCookie>), AuthAPIError>(
                    AuthAPIError::IncorrectCredentials,
                )
                &&& unchanged
            };
            match login_step(old(state).user_store.users(), request.email@, request.password@) {
                Err(e) => {
                    &&& r == Err::<(LoginResponse, Option<AuthCookie>), AuthAPIError>(e)
                    &&& unchanged
                },
                Ok(false) => user_store_failed || {
                    &&& unchanged
                    &&& match expiry_after(now) {
                        Some(exp) => r matches Ok((LoginResponse::RegularAuth, Some(c)))
                            && is_session_cookie(c, signed_token(request.email@, exp, secret))
                            && token_claims(c.value@, secret) == Some((request.email@, exp)),
                        None => r == Err::<(LoginResponse, Option<AuthCookie>), AuthAPIError>(
                            AuthAPIError::InvalidCookie,
                        ),
                    }
                },
                Ok(true) => user_store_failed || match r {
                    Ok((response, cookie)) => {
                        &&& final(state).two_fa_code_store.challenges() == stored
                        &&& final(email_client).outbox() == outbox.push(
                            (request.email@, "2fa_code"@, two_fa_code@),
                        )
                        &&& cookie is None
                        &&& response matches LoginResponse::TwoFactorAuth(t)
                        &&& t.login_attempt_id@ == login_attempt_id@
                        &&& t.message@ == "2FA required"@
                    },
                    Err(e) => {
                        &&& e == AuthAPIError::UnexpectedError
                        &&& (final(state).two_fa_code_store.challenges() == stored || (!old(
                            state,
                        ).two_fa_code_store.reliable() && unchanged))
                    },
                },
            }
        }),
{
    let email = match Email::parse(request.email) {
        Ok(e) => e,
        Err(_) => return Err(AuthAPIError::InvalidCredentials),
    };
    let password = match Password::parse(request.password) {
        Ok(p) => p,
        Err(_) => return Err(AuthAPIError::InvalidCredentials),
    };
    if state.user_store.validate_user(email.as_str(), password.as_str()).is_err() {
        return Err(AuthAPIError::IncorrectCredentials);
    }
    let user = match state.user_store.get_user(email.as_str()) {
        Ok(user) => user,
        Err(_) => return Err(AuthAPIError::IncorrectCredentials),
    };
    if user.requires_2fa {
        handle_2fa(
            &email,
            &mut state.two_fa_code_store,
            email_client,
            login_attempt_id,
            two_fa_code,
            now,
        )
    } else {
        handle_no_2fa(&email, state.jwt_secret.as_slice(), now)
    }
}

/// Logs in at the current time, drawing a fresh challenge identifier and
/// code for users who require a second factor.
pub fn login<U: UserStore, B: BannedTokenStore, T: TwoFACodeStore, N: EmailClient>(
    state: &mut AppState<U, B, T>,
    email_client: &mut N,
    request: LoginRequest,
) -> (r: Result<(LoginResponse, Option<AuthCookie>), AuthAPIError>)
    requires
        old(state).wf(),
    ensures
        final(state).wf(),
        final(state).user_store == old(state).user_store,
        final(state).banned_token_store == old(state).banned_token_store,
        final(state).jwt_secret@ == old(state).jwt_secret@,
        ({
            let secret = old(state).jwt_secret@;
            let step = login_step(old(state).user_store.users(), request.email@, request.password@);
            let challenges = final(state).two_fa_code_store.challenges();
            &&& step matches Err(e) ==> {
                &&& r == Err::<(LoginResponse, Option<AuthCookie>), AuthAPIError>(e)
                &&& final(email_client).outbox() == old(email_client).outbox()
                &&& challenges == old(state).two_fa_code_store.challenges()
            }
            &&& (step == Ok::<bool, AuthAPIError>(false) && old(state).user_store.reliable()) ==> {
                &&& final(email_client).outbox() == old(email_client).outbox()
                &&& r matches Ok((LoginResponse::RegularAuth, Some(c)))
                &&& exists|exp: u64|
                    is_session_cookie(c, signed_token(request.email@, exp, secret))
                        && token_claims(c.value@, secret) == Some((request.email@, exp))
            }
            &&& (step == Ok::<bool, AuthAPIError>(true) && old(state).user_store.reliable()) ==> (
            r == Err::<(LoginResponse, Option<AuthCookie>), AuthAPIError>(
                AuthAPIError::UnexpectedError,
            ) || {
                &&& r matches Ok((LoginResponse::TwoFactorAuth(t), None))
                &&& challenges.contains_key(request.email@)
                &&& challenges[request.email@].login_attempt_id == t.login_attempt_id@
                &&& code_outcome(challenges[request.email@].code) is Ok
                &&& final(email_client).outbox() == old(email_client).outbox().push(
                    (request.email@, "2fa_code"@, challenges[request.email@].code),
                )
            })
        }),
{
    let login_attempt_id = LoginAttemptId::generate();
    let two_fa_code = TwoFACode::generate();
    let now = current_time();
    login_at(state, email_client, request, login_attempt_id, two_fa_code, now)
}

} // verus!
