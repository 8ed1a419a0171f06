//! The one source of randomness the core uses: a uniform draw from a
//! half-open range, taken from the thread-local generator.

use vstd::prelude::*;

verus! {

/// Relies on rand::thread_rng and rand::Rng::gen_range: a value drawn from
/// the half-open range `[lo, hi)`. `gen_range` panics on an empty range,
/// which the precondition rules out; nothing is promised about which value
/// comes back, so callers must hold for every value in the range.
#[verifier::external_body]
pub(crate) fn random_in_range(lo: u64, hi: u64) -> (r: u64)
    requires
        lo < hi,
    ensures
        lo <= r < hi,
{
    rand::Rng::gen_range(&mut rand::thread_rng(), lo..hi)
}

} // verus!
