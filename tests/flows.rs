use auth_service::app_state::AppState;
use auth_service::auth::{
    current_time, generate_auth_token_at, revoke_token_at, validate_token_at, ValidateTokenError,
};
use auth_service::banned_token_store::HashsetBannedTokenStore;
use auth_service::email::Email;
use auth_service::email_client::MockEmailClient;
use auth_service::errors::AuthAPIError;
use auth_service::login::{login, login_at, LoginRequest, LoginResponse};
use auth_service::login_attempt_id::LoginAttemptId;
use auth_service::logout::{logout_at, verify_token_at, VerifyTokenRequest};
use auth_service::responses::SignupResponse;
use auth_service::signup::{signup, valid_credentials, valid_email, SignupRequest};
use auth_service::two_fa_code::TwoFACode;
use auth_service::two_fa_code_store::{HashmapTwoFACodeStore, TwoFACodeStoreError};
use auth_service::user_store::HashmapUserStore;
use auth_service::verify_2fa::{verify_2fa_at, Verify2FARequest};

const SECRET: &[u8] = b"a test signing secret";
const NOW: u64 = 1_700_000_000;

type State = AppState<HashmapUserStore, HashsetBannedTokenStore, HashmapTwoFACodeStore>;

fn state() -> State {
    AppState::new(
        HashmapUserStore::new(),
        HashsetBannedTokenStore::new(),
        HashmapTwoFACodeStore::new(),
        SECRET.to_vec(),
    )
}

fn sign_up(state: &mut State, email: &str, requires_2fa: bool) {
    let response = signup(
        state,
        SignupRequest {
            email: email.to_string(),
            password: "password123".to_string(),
            requires_2fa,
        },
    );
    assert_eq!(
        response,
        Ok(SignupResponse { message: "User created successfully!".to_string() })
    );
}

fn login_request(email: &str, password: &str) -> LoginRequest {
    LoginRequest { email: email.to_string(), password: password.to_string() }
}

fn verify_request(email: &str, id: &str, code: &str) -> Verify2FARequest {
    Verify2FARequest {
        email: email.to_string(),
        login_attempt_id: id.to_string(),
        two_fa_code: code.to_string(),
    }
}

fn email(s: &str) -> Email {
    Email::parse(s.to_string()).unwrap()
}

fn id(s: &str) -> LoginAttemptId {
    LoginAttemptId::parse(s.to_string()).unwrap()
}

fn code(s: &str) -> TwoFACode {
    TwoFACode::parse(s.to_string()).unwrap()
}

const ID_A: &str = "0f6e3a4c-8a2b-4c1d-9e7f-1a2b3c4d5e6f";
const ID_B: &str = "5b1d2c3e-4f5a-4b6c-8d7e-9f0a1b2c3d4e";

#[test]
fn should_return_201_if_valid_input() {
    let mut s = state();
    let response = signup(
        &mut s,
        SignupRequest {
            email: "my.name@example.com".to_string(),
            password: "password123".to_string(),
            requires_2fa: true,
        },
    );
    let expected_response = SignupResponse { message: "User created successfully!".to_owned() };
    assert_eq!(response, Ok(expected_response));
}

#[test]
fn should_return_409_if_email_already_exists() {
    let mut s = state();
    let request = || SignupRequest {
        email: "my.name@example.com".to_string(),
        password: "password123".to_string(),
        requires_2fa: true,
    };
    let _ = signup(&mut s, request());
    let error = signup(&mut s, request()).unwrap_err();
    let (status, body) = error.into_response();
    assert_eq!(status, 409);
    assert_eq!(body.error, "User already exists".to_owned());
}

#[test]
fn signup_twice_reports_user_already_exists() {
    let mut s = state();
    sign_up(&mut s, "my.name@example.com", true);
    let again = signup(
        &mut s,
        SignupRequest {
            email: "my.name@example.com".to_string(),
            password: "password123".to_string(),
            requires_2fa: true,
        },
    );
    assert_eq!(again, Err(AuthAPIError::UserAlreadyExists));
    let (status, body) = AuthAPIError::UserAlreadyExists.into_response();
    assert_eq!(status, 409);
    assert_eq!(body.error, "User already exists");
}

#[test]
fn signup_refuses_invalid_credentials() {
    let mut s = state();
    for (e, p) in [("", "password123"), ("example.com", "password123"), ("@example.com", "password123"), ("my.name@example.com", "1234")] {
        let r = signup(
            &mut s,
            SignupRequest { email: e.to_string(), password: p.to_string(), requires_2fa: true },
        );
        assert_eq!(r, Err(AuthAPIError::InvalidCredentials), "{:?}", (e, p));
    }
    let (status, body) = AuthAPIError::InvalidCredentials.into_response();
    assert_eq!(status, 400);
    assert_eq!(body.error, "Invalid credentials");
}

#[test]
fn signup_checks_on_address_and_password() {
    assert!(valid_email("a@b", '@'));
    assert!(!valid_email("@ab", '@'));
    assert!(!valid_email("", '@'));
    assert!(!valid_email("ab", '@'));
    assert!(valid_credentials("a@b", "12345678"));
    assert!(!valid_credentials("a@b", "1234567"));
}

#[test]
fn login_without_second_factor_gives_a_usable_token() {
    let mut s = state();
    let mut mail = MockEmailClient::new();
    sign_up(&mut s, "bob@example.com", false);
    let r = login_at(
        &mut s,
        &mut mail,
        login_request("bob@example.com", "password123"),
        id(ID_A),
        code("123456"),
        NOW,
    );
    let (response, cookie) = r.expect("authenticated");
    assert_eq!(response, LoginResponse::RegularAuth);
    let cookie = cookie.expect("session cookie");
    assert_eq!(cookie.name, "jwt");
    assert_eq!(cookie.path, "/");
    assert!(cookie.http_only);
    assert!(cookie.same_site_lax);
    assert_eq!(cookie.max_age_seconds, 600);
    assert!(!cookie.value.is_empty());
    let claims = validate_token_at(&cookie.value, &s.banned_token_store, SECRET, NOW + 1)
        .expect("valid token");
    assert_eq!(claims.sub, "bob@example.com");
    assert_eq!(claims.exp, NOW + 600);
    assert!(mail.sent().is_empty());
}

#[test]
fn login_at_current_time_gives_a_token_valid_now() {
    let mut s = state();
    let mut mail = MockEmailClient::new();
    sign_up(&mut s, "bob@example.com", false);
    let (_, cookie) = login(&mut s, &mut mail, login_request("bob@example.com", "password123"))
        .expect("authenticated");
    let now = current_time();
    assert!(now > 1_600_000_000);
    let claims = validate_token_at(&cookie.unwrap().value, &s.banned_token_store, SECRET, now)
        .expect("valid token");
    assert_eq!(claims.sub, "bob@example.com");
}

#[test]
fn login_refuses_malformed_input_and_wrong_credentials() {
    let mut s = state();
    let mut mail = MockEmailClient::new();
    sign_up(&mut s, "bob@example.com", false);
    let cases = [
        (login_request("not an email", "password123"), AuthAPIError::InvalidCredentials),
        (login_request("bob@example.com", "short"), AuthAPIError::InvalidCredentials),
        (login_request("bob@example.com", "password124"), AuthAPIError::IncorrectCredentials),
        (login_request("eve@example.com", "password123"), AuthAPIError::IncorrectCredentials),
    ];
    for (request, expected) in cases {
        let r = login_at(&mut s, &mut mail, request, id(ID_A), code("123456"), NOW);
        assert_eq!(r, Err(expected));
    }
}

#[test]
fn two_factor_login_then_verify() {
    let mut s = state();
    let mut mail = MockEmailClient::new();
    sign_up(&mut s, "carol@example.com", true);
    let r = login_at(
        &mut s,
        &mut mail,
        login_request("carol@example.com", "password123"),
        id(ID_A),
        code("654321"),
        NOW,
    );
    let (response, cookie) = r.expect("challenge");
    assert!(cookie.is_none());
    match response {
        LoginResponse::TwoFactorAuth(t) => {
            assert_eq!(t.message, "2FA required");
            assert_eq!(t.login_attempt_id, ID_A);
        }
        other => panic!("unexpected {:?}", other),
    }
    assert_eq!(mail.sent().len(), 1);
    assert_eq!(mail.sent()[0].recipient, "carol@example.com");
    assert_eq!(mail.sent()[0].subject, "2fa_code");
    assert_eq!(mail.sent()[0].content, "654321");

    let swapped = verify_2fa_at(&mut s, verify_request("carol@example.com", ID_A, "654322"), NOW + 5);
    assert_eq!(swapped, Err(AuthAPIError::IncorrectCredentials));

    let cookie = verify_2fa_at(&mut s, verify_request("carol@example.com", ID_A, "654321"), NOW + 6)
        .expect("authenticated");
    let claims = validate_token_at(&cookie.value, &s.banned_token_store, SECRET, NOW + 7).unwrap();
    assert_eq!(claims.sub, "carol@example.com");
}

#[test]
fn two_factor_login_with_generated_values_sends_the_stored_code() {
    let mut s = state();
    let mut mail = MockEmailClient::new();
    sign_up(&mut s, "carol@example.com", true);
    let (response, _) = login(&mut s, &mut mail, login_request("carol@example.com", "password123"))
        .expect("challenge");
    let attempt = match response {
        LoginResponse::TwoFactorAuth(t) => t.login_attempt_id,
        other => panic!("unexpected {:?}", other),
    };
    let sent_code = mail.sent()[0].content.clone();
    let now = current_time();
    let r = verify_2fa_at(&mut s, verify_request("carol@example.com", &attempt, &sent_code), now);
    assert!(r.is_ok());
}

#[test]
fn second_challenge_replaces_the_first() {
    let mut s = state();
    let mut mail = MockEmailClient::new();
    sign_up(&mut s, "alice@example.com", true);
    for (attempt, c) in [(ID_A, "111111"), (ID_B, "222222")] {
        let r = login_at(
            &mut s,
            &mut mail,
            login_request("alice@example.com", "password123"),
            id(attempt),
            code(c),
            NOW,
        );
        assert!(r.is_ok());
    }
    let first = verify_2fa_at(&mut s, verify_request("alice@example.com", ID_A, "111111"), NOW + 1);
    assert_eq!(first, Err(AuthAPIError::IncorrectCredentials));
    let second = verify_2fa_at(&mut s, verify_request("alice@example.com", ID_B, "222222"), NOW + 1);
    assert!(second.is_ok());
}

#[test]
fn verification_is_single_use() {
    let mut s = state();
    let mut mail = MockEmailClient::new();
    sign_up(&mut s, "alice@example.com", true);
    let r = login_at(
        &mut s,
        &mut mail,
        login_request("alice@example.com", "password123"),
        id(ID_A),
        code("111111"),
        NOW,
    );
    assert!(r.is_ok());
    let request = || verify_request("alice@example.com", ID_A, "111111");
    assert!(verify_2fa_at(&mut s, request(), NOW + 1).is_ok());
    assert_eq!(verify_2fa_at(&mut s, request(), NOW + 2), Err(AuthAPIError::IncorrectCredentials));
}

#[test]
fn verification_refuses_lapsed_challenge() {
    let mut s = state();
    let mut mail = MockEmailClient::new();
    sign_up(&mut s, "alice@example.com", true);
    let r = login_at(
        &mut s,
        &mut mail,
        login_request("alice@example.com", "password123"),
        id(ID_A),
        code("111111"),
        NOW,
    );
    assert!(r.is_ok());
    let late = verify_2fa_at(&mut s, verify_request("alice@example.com", ID_A, "111111"), NOW + 600);
    assert_eq!(late, Err(AuthAPIError::IncorrectCredentials));
}

#[test]
fn verification_tells_malformed_fields_apart() {
    let mut s = state();
    let cases = [
        (verify_request("nope", ID_A, "111111"), AuthAPIError::InvalidCredentials),
        (verify_request("a@example.com", "nope", "111111"), AuthAPIError::InvalidLoginAttamptId),
        (verify_request("a@example.com", ID_A, "12ab56"), AuthAPIError::Invalid2FACode),
        (verify_request("a@example.com", ID_A, "000001"), AuthAPIError::Invalid2FACode),
        (verify_request("a@example.com", ID_A, "111111"), AuthAPIError::IncorrectCredentials),
    ];
    for (request, expected) in cases {
        assert_eq!(verify_2fa_at(&mut s, request, NOW), Err(expected));
    }
    assert_eq!(AuthAPIError::Invalid2FACode.into_response().0, 400);
    assert_eq!(AuthAPIError::InvalidLoginAttamptId.into_response().1.error, "Invalid login attempt id");
}

#[test]
fn challenge_store_upserts_and_consumes_once() {
    let mut store = HashmapTwoFACodeStore::new();
    let e = email("alice@example.com");
    assert_eq!(store.add_two_fa_code(&e, id(ID_A), code("111111"), NOW + 10), Ok(()));
    assert_eq!(store.add_two_fa_code(&e, id(ID_B), code("222222"), NOW + 10), Ok(()));
    let (got_id, got_code) = store.get_two_fa_code(&e, NOW).unwrap();
    assert_eq!(got_id.as_str(), ID_B);
    assert_eq!(got_code.as_str(), "222222");
    assert_eq!(
        store.get_two_fa_code(&e, NOW + 10).map(|_| ()),
        Err(TwoFACodeStoreError::LoginAttemptIdNotFound)
    );
    assert_eq!(store.delete_two_fa_code(&e, NOW), Ok(()));
    assert_eq!(store.delete_two_fa_code(&e, NOW), Err(TwoFACodeStoreError::LoginAttemptIdNotFound));
}

fn token_for(s: &str, now: u64) -> String {
    generate_auth_token_at(&email(s), now, SECRET).unwrap()
}

#[test]
fn revoked_token_is_refused_before_it_expires() {
    let mut banned = HashsetBannedTokenStore::new();
    let token = token_for("bob@example.com", NOW);
    assert!(validate_token_at(&token, &banned, SECRET, NOW).is_ok());
    assert_eq!(revoke_token_at(&mut banned, &token, SECRET, NOW), Ok(()));
    assert_eq!(validate_token_at(&token, &banned, SECRET, NOW), Err(ValidateTokenError::Revoked));
    assert_eq!(revoke_token_at(&mut banned, &token, SECRET, NOW + 1), Ok(()));
    assert_eq!(
        validate_token_at(&token, &banned, SECRET, NOW + 599),
        Err(ValidateTokenError::Revoked)
    );
    assert_eq!(
        validate_token_at(&token, &banned, SECRET, NOW + 600),
        Err(ValidateTokenError::Expired)
    );
    assert_eq!(banned.is_banned_token(&token, NOW + 600), Ok(false));
}

#[test]
fn token_with_another_secret_or_garbage_is_malformed() {
    let banned = HashsetBannedTokenStore::new();
    let token = token_for("bob@example.com", NOW);
    assert_eq!(
        validate_token_at(&token, &banned, b"another secret", NOW),
        Err(ValidateTokenError::Malformed)
    );
    assert_eq!(
        validate_token_at("not.a.token", &banned, SECRET, NOW),
        Err(ValidateTokenError::Malformed)
    );
}

#[test]
fn token_expires_after_its_lifetime() {
    let banned = HashsetBannedTokenStore::new();
    let token = token_for("bob@example.com", NOW);
    assert!(validate_token_at(&token, &banned, SECRET, NOW + 599).is_ok());
    assert_eq!(
        validate_token_at(&token, &banned, SECRET, NOW + 600),
        Err(ValidateTokenError::Expired)
    );
}

#[test]
fn token_expiry_that_does_not_fit_is_an_error() {
    assert!(generate_auth_token_at(&email("bob@example.com"), u64::MAX - 10, SECRET).is_err());
}

#[test]
fn logout_revokes_and_a_second_logout_is_refused() {
    let mut s = state();
    let token = token_for("bob@example.com", NOW);
    assert_eq!(logout_at(&mut s, None, NOW), Err(AuthAPIError::MissingToken));
    assert_eq!(logout_at(&mut s, Some(token.clone()), NOW), Ok(()));
    assert_eq!(
        validate_token_at(&token, &s.banned_token_store, SECRET, NOW + 1),
        Err(ValidateTokenError::Revoked)
    );
    assert_eq!(logout_at(&mut s, Some(token.clone()), NOW + 1), Err(AuthAPIError::InvalidToken));
    assert_eq!(logout_at(&mut s, Some("garbage".to_string()), NOW), Err(AuthAPIError::InvalidToken));
}

#[test]
fn verify_token_answers_by_validity() {
    let mut s = state();
    let token = token_for("bob@example.com", NOW);
    let ok = verify_token_at(&s, VerifyTokenRequest { token: token.clone() }, NOW).unwrap();
    assert_eq!(ok.message, "Token has been validated!");
    assert_eq!(logout_at(&mut s, Some(token.clone()), NOW), Ok(()));
    assert_eq!(
        verify_token_at(&s, VerifyTokenRequest { token }, NOW),
        Err(AuthAPIError::InvalidToken)
    );
}
