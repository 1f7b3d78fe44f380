//! The core's single source of randomness.
//!
//! Combat decisions that the rules leave to chance (fire-rate
//! throttling, aim jitter, target picks) draw through this wrapper.
//! Nothing is promised about which value comes back beyond its range,
//! and every function that consumes a draw is verified for every value
//! in that range.

use rand::Rng;
use vstd::prelude::*;

verus! {

/// Relies on rand's `Rng::gen_range` over a half-open integer range:
/// it returns a value inside the range and panics only on an empty
/// one, which the precondition rules out.
#[verifier::external_body]
pub(crate) fn sample_range(lo: i64, hi: i64) -> (r: i64)
    requires
        lo < hi,
    ensures
        lo <= r < hi,
{
    rand::thread_rng().gen_range(lo..hi)
}

} // verus!
