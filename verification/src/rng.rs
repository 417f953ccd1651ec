//! The single gateway to the host's random source.

use vstd::prelude::*;
use rand::RngExt;

verus! {

/// Relies on rand's `RngExt::random_range` over the thread-local generator:
/// a draw from a nonempty inclusive integer range lies within that range
/// (an empty range would panic, which `lo <= hi` rules out). Nothing more is
/// assumed of the draw: every caller's contract holds for every outcome.
#[verifier::external_body]
pub(crate) fn rand_i64(lo: i64, hi: i64) -> (r: i64)
    requires
        lo <= hi,
    ensures
        lo <= r <= hi,
{
    rand::rng().random_range(lo..=hi)
}

} // verus!
