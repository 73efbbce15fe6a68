//! Credential-and-session core of an authentication service: validated
//! identity values, the storage capabilities for users, revoked tokens and
//! pending second-factor challenges (with in-memory implementations), signed
//! session tokens, and the login flow that ties them together.

pub mod constants;
pub mod decimal;
pub mod errors;

pub mod email;
pub mod login_attempt_id;
pub mod password;
pub mod two_fa_code;
pub mod user;

pub mod banned_token_store;
pub mod keyed_table;
pub mod data_stores;
pub mod two_fa_code_store;
pub mod user_store;

pub mod auth;
pub mod email_client;

pub mod app_state;
pub mod login;
pub mod logout;
pub mod responses;
pub mod signup;
pub mod verify_2fa;
