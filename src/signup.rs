//! Registering a user.

use vstd::prelude::*;

verus! {

use crate::app_state::AppState;
use crate::data_stores::{BannedTokenStore, TwoFACodeStore, UserStore};
use crate::errors::AuthAPIError;
use crate::password::MIN_PASSWORD_CHARS;
use crate::responses::SignupResponse;
use crate::user::{User, UserView};
use crate::user_store::{UserStoreError, add_user_spec};

pub struct SignupRequest {
    pub email: String,
    pub password: String,
    pub requires_2fa: bool,
}

impl SignupRequest {
    pub fn create_user(self) -> (r: User)
        ensures
            r@ == (UserView {
                email: self.email@,
                password: self.password@,
                requires_2fa: self.requires_2fa,
            }),
    {
        User::new(self.email, self.password, self.requires_2fa)
    }
}

/// The signup check on an address: non-empty, with `ch` present and not
/// first.
pub open spec fn valid_email_spec(email: Seq<char>, ch: char) -> bool {
    email.len() > 0 && email.contains(ch) && email[0] != ch
}

pub open spec fn valid_credentials_spec(email: Seq<char>, password: Seq<char>) -> bool {
    valid_email_spec(email, '@') && password.len() >= MIN_PASSWORD_CHARS
}

pub fn valid_password(password: &str, len: usize) -> (r: bool)
    ensures
        r == (password@.len() >= len),
{
    password.unicode_len() >= len
}

pub fn valid_email(email: &str, ch: char) -> (r: bool)
    ensures
        r == valid_email_spec(email@, ch),
{
    let n = email.unicode_len();
    if n == 0 {
        return false;
    }
    if email.get_char(0) == ch {
        return false;
    }
    let mut i: usize = 1;
    while i < n
        invariant
            n == email@.len(),
            1 <= i <= n,
            forall|j: int| 0 <= j < i ==> email@[j] != ch,
        decreases n - i,
    {
        if email.get_char(i) == ch {
            return true;
        }
        i = i + 1;
    }
    false
}

pub fn valid_credentials(email: &str, password: &str) -> (r: bool)
    ensures
        r == valid_credentials_spec(email@, password@),
{
    valid_email(email, '@') && valid_password(password, MIN_PASSWORD_CHARS)
}

/// Registers the user when the address and password pass the signup checks
/// and the address is not taken. A failing user store gives
/// `UnexpectedError` and registers nobody.
pub fn signup<U: UserStore, B: BannedTokenStore, T: TwoFACodeStore>(
    state: &mut AppState<U, B, T>,
    request: SignupRequest,
) -> (r: Result<SignupResponse, AuthAPIError>)
    requires
        old(state).wf(),
    ensures
        final(state).wf(),
        final(state).user_store.reliable() == old(state).user_store.reliable(),
        final(state).banned_token_store == old(state).banned_token_store,
        final(state).two_fa_code_store == old(state).two_fa_code_store,
        final(state).jwt_secret@ == old(state).jwt_secret@,
        !valid_credentials_spec(request.email@, request.password@) ==> {
            &&& r == Err::<SignupResponse, AuthAPIError>(AuthAPIError::InvalidCredentials)
            &&& final(state).user_store.users() == old(state).user_store.users()
        },
        valid_credentials_spec(request.email@, request.password@) ==> {
            let u = UserView {
                email: request.email@,
                password: request.password@,
                requires_2fa: request.requires_2fa,
            };
            let (added, users) = add_user_spec(old(state).user_store.users(), u);
            ||| {
                &&& r == Err::<SignupResponse, AuthAPIError>(AuthAPIError::UnexpectedError)
                &&& !old(state).user_store.reliable()
                &&& final(state).user_store.users() == old(state).user_store.users()
            }
            ||| {
                &&& final(state).user_store.users() == users
                &&& added is Ok ==> (r matches Ok(s) && s.message@
                    == "User created successfully!"@)
                &&& added is Err ==> r == Err::<SignupResponse, AuthAPIError>(
                    AuthAPIError::UserAlreadyExists,
                )
            }
        },
{
    if !valid_credentials(request.email.as_str(), request.password.as_str()) {
        return Err(AuthAPIError::InvalidCredentials);
    }
    let user = request.create_user();
    match state.user_store.add_user(user) {
        Ok(()) => Ok(SignupResponse { message: "User created successfully!".to_string() }),
        Err(UserStoreError::UserAlreadyExists) => Err(AuthAPIError::UserAlreadyExists),
        Err(UserStoreError::InvalidCredentials) => Err(AuthAPIError::InvalidCredentials),
        Err(UserStoreError::UserNotFound) => Err(AuthAPIError::UnexpectedError),
        Err(UserStoreError::UnexpectedError) => Err(AuthAPIError::UnexpectedError),
    }
}

} // verus!
