//! Fixed parameters of sessions and challenges.

use vstd::prelude::*;

verus! {

/// Name of the cookie that carries the session token.
pub const JWT_COOKIE_NAME: &'static str = "jwt";

/// Lifetime, in seconds, of a session token and of a pending challenge.
pub const TTL_SECONDS: u64 = 600;

/// `now + TTL_SECONDS`, or `None` when it does not fit in a `u64`.
pub open spec fn expiry_after(now: u64) -> Option<u64> {
    if now + TTL_SECONDS <= u64::MAX {
        Some((now + TTL_SECONDS) as u64)
    } else {
        None
    }
}

/// `now + TTL_SECONDS`, held at `u64::MAX` when it would not fit.
pub open spec fn saturating_expiry(now: u64) -> u64 {
    match expiry_after(now) {
        Some(t) => t,
        None => u64::MAX,
    }
}

pub fn checked_expiry(now: u64) -> (r: Option<u64>)
    ensures
        r == expiry_after(now),
{
    now.checked_add(TTL_SECONDS)
}

pub fn capped_expiry(now: u64) -> (r: u64)
    ensures
        r == saturating_expiry(now),
{
    match checked_expiry(now) {
        Some(t) => t,
        None => u64::MAX,
    }
}

} // verus!
