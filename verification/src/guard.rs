//! Timing-attack guard: every credential-check path waits a uniformly
//! random bounded time before answering, so an early-return branch
//! (no stored hash, unknown account) is not distinguishable by
//! latency from a full verification. The guard decides the length of
//! the wait; the asynchronous caller performs it.

use rand::RngExt;
use vstd::prelude::*;

verus! {

/// Relies on rand's `rng()` and `RngExt::random_range`: a uniformly
/// random number of milliseconds within the guard's fixed bounds.
/// Nothing more is promised of a random value.
#[verifier::external_body]
pub fn timing_guard_delay_millis() -> (r: u64)
    ensures
        1 <= r <= 50,
{
    rand::rng().random_range(1..=50)
}

} // verus!
