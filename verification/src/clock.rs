//! Instants are whole seconds since the Unix epoch. This module reads the
//! clock and computes the two lifetimes the backend hands out.

use vstd::prelude::*;

verus! {

/// How long a one-time verification code stays valid: thirty minutes.
pub const CODE_TTL_SECONDS: i64 = 1800;

/// How long a session token stays valid: twenty-four hours.
pub const TOKEN_TTL_SECONDS: i64 = 86400;

/// The current instant, read from `chrono::Utc::now().timestamp()`.
///
/// Nothing is claimed of the value: it is whatever the system clock says.
/// chrono itself stops the process when the system clock is set before the
/// epoch.
#[verifier::external_body]
pub(crate) fn unix_now() -> i64 {
    chrono::Utc::now().timestamp()
}

/// The instant `ttl` seconds after `now`, where it fits in 64 bits.
pub open spec fn expiry_after(now: i64, ttl: i64) -> Option<i64> {
    if i64::MIN <= now + ttl <= i64::MAX {
        Some((now + ttl) as i64)
    } else {
        None
    }
}

/// The instant at which a code issued at `now` stops being valid.
pub fn code_expiry(now: i64) -> (r: Option<i64>)
    ensures
        r == expiry_after(now, CODE_TTL_SECONDS),
{
    now.checked_add(CODE_TTL_SECONDS)
}

/// The instant at which a token minted at `now` stops being valid.
pub fn token_expiry(now: i64) -> (r: Option<i64>)
    ensures
        r == expiry_after(now, TOKEN_TTL_SECONDS),
{
    now.checked_add(TOKEN_TTL_SECONDS)
}

} // verus!
