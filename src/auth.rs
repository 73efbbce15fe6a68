//! Session tokens: issuing a signed token for an e-mail, binding it to a
//! cookie, validating it against revocation, signature and expiry, and
//! revoking it.

use vstd::prelude::*;

verus! {

use crate::banned_token_store::{BannedMap, BannedTokenStoreError, is_banned_spec};
use crate::data_stores::BannedTokenStore;
use crate::constants::{JWT_COOKIE_NAME, TTL_SECONDS, capped_expiry, checked_expiry, expiry_after, saturating_expiry};
use crate::email::Email;

#[verifier::external_type_specification]
#[verifier::external_body]
pub struct ExJwtError(jsonwebtoken::errors::Error);

/// The HS256 token that `jsonwebtoken::encode` writes for the claims
/// `{"sub": sub, "exp": exp}` under the secret.
pub uninterp spec fn signed_token(sub: Seq<char>, exp: u64, secret: Seq<u8>) -> Seq<char>;

/// The `sub` and `exp` claims that `jsonwebtoken::decode` (HS256, expiry
/// not checked) reads from a token under the secret, or `None` when the
/// token is refused or lacks them.
pub uninterp spec fn token_claims(token: Seq<char>, secret: Seq<u8>) -> Option<(Seq<char>, u64)>;

/// Relies on `jsonwebtoken::encode` with the default (HS256) header and a key
/// made by `EncodingKey::from_secret`: the token depends on the claims and the
/// secret alone; HMAC signing of a JSON map cannot fail; and `decode` with
/// the same secret (HS256) reads both claims back.
#[verifier::external_body]
fn encode_claims(sub: &str, exp: u64, secret: &[u8]) -> (r: Result<String, jsonwebtoken::errors::Error>)
    ensures
        r is Ok,
        r matches Ok(t) ==> t@ == signed_token(sub@, exp, secret@),
        r matches Ok(t) ==> token_claims(t@, secret@) == Some((sub@, exp)),
{
    let mut claims = serde_json::Map::new();
    claims.insert("sub".to_string(), serde_json::Value::from(sub));
    claims.insert("exp".to_string(), serde_json::Value::from(exp));
    let key = jsonwebtoken::EncodingKey::from_secret(secret);
    jsonwebtoken::encode(&jsonwebtoken::Header::default(), &claims, &key)
}

/// Relies on `jsonwebtoken::decode` (HS256, `exp` required but not checked
/// against the clock): the claims depend on the token and the secret alone.
#[verifier::external_body]
fn decode_claims(token: &str, secret: &[u8]) -> (r: Option<(String, u64)>)
    ensures
        match r {
            Some((sub, exp)) => token_claims(token@, secret@) == Some((sub@, exp)),
            None => token_claims(token@, secret@) is None,
        },
{
    let mut validation = jsonwebtoken::Validation::new(jsonwebtoken::Algorithm::HS256);
    validation.validate_exp = false;
    let key = jsonwebtoken::DecodingKey::from_secret(secret);
    let data = jsonwebtoken::decode::<serde_json::Value>(token, &key, &validation).ok()?;
    let sub = data.claims.get("sub")?.as_str()?.to_string();
    let exp = data.claims.get("exp")?.as_u64()?;
    Some((sub, exp))
}

/// Relies on `chrono::Utc::now` and `timestamp`: the current time in whole
/// seconds since the Unix epoch; nothing is known of its value.
#[verifier::external_body]
fn unix_now() -> (r: i64) {
    chrono::Utc::now().timestamp()
}

/// The current time in seconds since the Unix epoch (zero before it).
pub fn current_time() -> (r: u64)
    ensures
        r <= i64::MAX,
{
    let t = unix_now();
    if t < 0 {
        0
    } else {
        t as u64
    }
}

/// The claims of a session token.
#[derive(Debug, Clone, PartialEq, Eq)]
pub struct Claims {
    pub sub: String,
    pub exp: u64,
}

#[derive(Debug)]
pub enum GenerateTokenError {
    TokenError(jsonwebtoken::errors::Error),
    UnexpectedError,
}

/// Why a token was not accepted.
#[derive(Debug, Clone, Copy, PartialEq, Eq, Structural)]
pub enum ValidateTokenError {
    Revoked,
    Expired,
    Malformed,
}

/// The session cookie: the token with the attributes it is sent with.
#[derive(Debug, Clone, PartialEq, Eq)]
pub struct AuthCookie {
    pub name: String,
    pub value: String,
    pub path: String,
    pub http_only: bool,
    pub same_site_lax: bool,
    pub max_age_seconds: u64,
}

/// Binds a token to an HTTP-only, same-site (lax) cookie for the whole site
/// that lives as long as the token.
pub fn create_auth_cookie(token: String) -> (r: AuthCookie)
    ensures
        r.name@ == JWT_COOKIE_NAME@,
        r.value@ == token@,
        r.path@ == "/"@,
        r.http_only,
        r.same_site_lax,
        r.max_age_seconds == TTL_SECONDS,
{
    AuthCookie {
        name: JWT_COOKIE_NAME.to_string(),
        value: token,
        path: "/".to_string(),
        http_only: true,
        same_site_lax: true,
        max_age_seconds: TTL_SECONDS,
    }
}

/// The session cookie that carries `token`.
pub open spec fn is_session_cookie(c: AuthCookie, token: Seq<char>) -> bool {
    &&& c.name@ == JWT_COOKIE_NAME@
    &&& c.value@ == token
    &&& c.path@ == "/"@
    &&& c.http_only
    &&& c.same_site_lax
    &&& c.max_age_seconds == TTL_SECONDS
}

/// Signs a token for the e-mail that expires `TTL_SECONDS` after `now`. It
/// fails only when that time does not fit in a `u64`.
pub fn generate_auth_token_at(email: &Email, now: u64, secret: &[u8]) -> (r: Result<
    String,
    GenerateTokenError,
>)
    ensures
        match expiry_after(now) {
            None => r matches Err(GenerateTokenError::UnexpectedError),
            Some(exp) => r matches Ok(t) && t@ == signed_token(email@, exp, secret@)
                && token_claims(t@, secret@) == Some((email@, exp)),
        },
{
    let exp = match checked_expiry(now) {
        Some(exp) => exp,
        None => return Err(GenerateTokenError::UnexpectedError),
    };
    match encode_claims(email.as_str(), exp, secret) {
        Ok(t) => Ok(t),
        Err(e) => Err(GenerateTokenError::TokenError(e)),
    }
}

/// Signs a token for the e-mail that expires `TTL_SECONDS` from the current
/// time.
pub fn generate_auth_token(email: &Email, secret: &[u8]) -> (r: Result<String, GenerateTokenError>)
    ensures
        r matches Ok(t) && exists|exp: u64|
            t@ == signed_token(email@, exp, secret@) && token_claims(t@, secret@) == Some(
                (email@, exp),
            ),
{
    let now = current_time();
    generate_auth_token_at(email, now, secret)
}

/// Signs a token for the e-mail at time `now` and binds it to a cookie.
pub fn generate_auth_cookie_at(email: &Email, now: u64, secret: &[u8]) -> (r: Result<
    AuthCookie,
    GenerateTokenError,
>)
    ensures
        match expiry_after(now) {
            None => r matches Err(GenerateTokenError::UnexpectedError),
            Some(exp) => r matches Ok(c) && is_session_cookie(
                c,
                signed_token(email@, exp, secret@),
            ) && token_claims(c.value@, secret@) == Some((email@, exp)),
        },
{
    let token = generate_auth_token_at(email, now, secret)?;
    Ok(create_auth_cookie(token))
}

/// Signs a token for the e-mail at the current time and binds it to a cookie.
pub fn generate_auth_cookie(email: &Email, secret: &[u8]) -> (r: Result<AuthCookie, GenerateTokenError>)
    ensures
        r matches Ok(c) && exists|exp: u64|
            is_session_cookie(c, signed_token(email@, exp, secret@)) && token_claims(
                c.value@,
                secret@,
            ) == Some((email@, exp)),
{
    let now = current_time();
    generate_auth_cookie_at(email, now, secret)
}

/// Validation of a token at time `now`: first revocation, then signature and
/// decoding, then expiry.
pub open spec fn validate_token_spec(banned: BannedMap, token: Seq<char>, secret: Seq<u8>, now: u64) -> Result<
    (Seq<char>, u64),
    ValidateTokenError,
> {
    if is_banned_spec(banned, token, now) {
        Err(ValidateTokenError::Revoked)
    } else {
        match token_claims(token, secret) {
            None => Err(ValidateTokenError::Malformed),
            Some((sub, exp)) => if exp <= now {
                Err(ValidateTokenError::Expired)
            } else {
                Ok((sub, exp))
            },
        }
    }
}

/// Checks a token at time `now`. A revocation store that gives no answer
/// counts as a revocation (fail closed).
pub fn validate_token_at<B: BannedTokenStore>(
    token: &str,
    banned_token_store: &B,
    secret: &[u8],
    now: u64,
) -> (r: Result<Claims, ValidateTokenError>)
    requires
        banned_token_store.well_formed(),
    ensures
        banned_token_store.reliable() ==> banned_token_store.answers(token@, now),
        !banned_token_store.answers(token@, now) ==> r == Err::<Claims, ValidateTokenError>(
            ValidateTokenError::Revoked,
        ),
        banned_token_store.answers(token@, now) ==> match r {
            Ok(c) => validate_token_spec(banned_token_store.banned(), token@, secret@, now)
                == Ok::<(Seq<char>, u64), ValidateTokenError>((c.sub@, c.exp)),
            Err(e) => validate_token_spec(banned_token_store.banned(), token@, secret@, now)
                == Err::<(Seq<char>, u64), ValidateTokenError>(e),
        },
{
    match banned_token_store.is_banned_token(token, now) {
        Ok(false) => {},
        _ => return Err(ValidateTokenError::Revoked),
    }
    match decode_claims(token, secret) {
        None => Err(ValidateTokenError::Malformed),
        Some((sub, exp)) => {
            if exp <= now {
                Err(ValidateTokenError::Expired)
            } else {
                Ok(Claims { sub, exp })
            }
        },
    }
}

/// Checks a token at the current time.
pub fn validate_token<B: BannedTokenStore>(token: &str, banned_token_store: &B, secret: &[u8]) -> (r:
    Result<Claims, ValidateTokenError>)
    requires
        banned_token_store.well_formed(),
    ensures
        r matches Ok(c) ==> exists|now: u64|
            validate_token_spec(banned_token_store.banned(), token@, secret@, now) == Ok::<
                (Seq<char>, u64),
                ValidateTokenError,
            >((c.sub@, c.exp)),
        banned_token_store.reliable() && !banned_token_store.banned().contains_key(token@) ==> {
            &&& token_claims(token@, secret@) is None ==> r == Err::<Claims, ValidateTokenError>(
                ValidateTokenError::Malformed,
            )
            &&& token_claims(token@, secret@) matches Some((sub, exp)) ==> (r == Err::<
                Claims,
                ValidateTokenError,
            >(ValidateTokenError::Expired) || (r matches Ok(c) && c.sub@ == sub && c.exp == exp))
        },
{
    let now = current_time();
    validate_token_at(token, banned_token_store, secret, now)
}

/// How long a revocation made at `now` is kept: until the token's own
/// expiry when it is later than `now`, else for `TTL_SECONDS`.
pub open spec fn revocation_expiry(token: Seq<char>, secret: Seq<u8>, now: u64) -> u64 {
    match token_claims(token, secret) {
        Some((_, exp)) => if now < exp {
            exp
        } else {
            saturating_expiry(now)
        },
        None => saturating_expiry(now),
    }
}

/// Revokes a token at time `now`, for as long as it could still be used.
pub fn revoke_token_at<B: BannedTokenStore>(
    banned_token_store: &mut B,
    token: &str,
    secret: &[u8],
    now: u64,
) -> (r: Result<(), BannedTokenStoreError>)
    requires
        old(banned_token_store).well_formed(),
    ensures
        final(banned_token_store).well_formed(),
        final(banned_token_store).reliable() == old(banned_token_store).reliable(),
        r is Ok ==> final(banned_token_store).banned() == old(banned_token_store).banned().insert(
            token@,
            revocation_expiry(token@, secret@, now),
        ),
        r is Err ==> !old(banned_token_store).reliable() && final(banned_token_store).banned()
            == old(banned_token_store).banned(),
{
    let expires_at = match decode_claims(token, secret) {
        Some((_, exp)) => {
            if now < exp {
                exp
            } else {
                capped_expiry(now)
            }
        },
        None => capped_expiry(now),
    };
    banned_token_store.add_banned_token(token.to_string(), expires_at)
}

/// A token is reported as revoked right after it is revoked, whatever its
/// own expiry.
pub proof fn lemma_revoked_after_revoke(banned: BannedMap, token: Seq<char>, secret: Seq<u8>, now: u64)
    requires
        now < u64::MAX,
    ensures
        validate_token_spec(
            banned.insert(token, revocation_expiry(token, secret, now)),
            token,
            secret,
            now,
        ) == Err::<(Seq<char>, u64), ValidateTokenError>(ValidateTokenError::Revoked),
{
}

/// Revoking a token twice leaves it revoked, as after the first revocation.
pub proof fn lemma_revoke_twice(banned: BannedMap, token: Seq<char>, secret: Seq<u8>, first: u64, second: u64)
    requires
        first <= second < u64::MAX,
    ensures
        ({
            let once = banned.insert(token, revocation_expiry(token, secret, first));
            let twice = once.insert(token, revocation_expiry(token, secret, second));
            validate_token_spec(twice, token, secret, second) == Err::<
                (Seq<char>, u64),
                ValidateTokenError,
            >(ValidateTokenError::Revoked)
        }),
{
}

} // verus!
