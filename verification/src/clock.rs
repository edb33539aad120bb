//! Absolute expiry timestamps.
//!
//! Flows receive an `expires_in` (seconds from now) from the backend and store
//! an absolute expiry. Times are Unix timestamps in seconds; reading the
//! machine clock is the one unverified step and is isolated in `now_unix`.

use vstd::prelude::*;

verus! {

/// The absolute expiry for a credential obtained at `now` that the backend
/// said lives another `expires_in` seconds.
pub open spec fn expires_at_spec(now: i64, expires_in: i64) -> int {
    now + expires_in
}

/// Compute the absolute expiry timestamp for a flow completion.
pub fn expires_at_from(now: i64, expires_in: i64) -> (r: i64)
    requires
        i64::MIN <= now + expires_in <= i64::MAX,
    ensures
        r == expires_at_spec(now, expires_in),
{
    now + expires_in
}

/// A completion's expiry is exactly completion-time-plus-`expires_in`, and
/// lies strictly in the future whenever the backend granted any lifetime at
/// all.
pub proof fn lemma_expiry_strictly_future(now: i64, expires_in: i64)
    requires
        0 < expires_in,
    ensures
        expires_at_spec(now, expires_in) == now + expires_in,
        expires_at_spec(now, expires_in) > now,
{
}

/// Relies on chrono's `Local::now` and `timestamp`: the machine clock as Unix
/// seconds. Nothing can be promised of a clock reading.
#[verifier::external_body]
pub(crate) fn now_unix() -> i64 {
    chrono::Local::now().timestamp()
}

} // verus!
