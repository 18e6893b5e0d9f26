//! The one randomness primitive the engine draws on.

use vstd::prelude::*;
use rand::Rng;

verus! {

/// Relies on `rand::thread_rng` and `rand::Rng::gen_range` over `lo..hi`:
/// the draw is uniform over the half-open range and panics only when the
/// range is empty, which the precondition rules out. Nothing more is claimed
/// of the outcome.
#[verifier::external_body]
pub(crate) fn rand_i32_range(lo: i32, hi: i32) -> (r: i32)
    requires
        lo < hi,
    ensures
        lo <= r < hi,
{
    rand::thread_rng().gen_range(lo..hi)
}

} // verus!
