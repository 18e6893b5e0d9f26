//! Saturating `i32` arithmetic with an exact mathematical description.
//!
//! Counters of the economy grow without bound over a long session; every sum
//! or product that could leave the machine range is clamped to it, and each
//! contract states the clamped value exactly through `sat32`.

use vstd::prelude::*;

verus! {

/// `x` clamped to the `i32` range.
pub open spec fn sat32(x: int) -> int {
    if x > i32::MAX {
        i32::MAX as int
    } else if x < i32::MIN {
        i32::MIN as int
    } else {
        x
    }
}

/// Addition clamped to the `i32` range.
pub fn sat_add_i32(a: i32, b: i32) -> (r: i32)
    ensures
        r as int == sat32(a + b),
{
    let s: i64 = a as i64 + b as i64;
    if s > i32::MAX as i64 {
        i32::MAX
    } else if s < i32::MIN as i64 {
        i32::MIN
    } else {
        s as i32
    }
}

} // verus!
