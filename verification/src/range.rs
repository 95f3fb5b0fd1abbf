//! The integer structure of the range kernel.
//!
//! The range kernel sums the squares of every integer in a half-open
//! interval, accumulating strictly left to right. Which integers take part,
//! and in which order, is decided here; squaring and accumulating them is
//! the caller's floating-point work.

use vstd::prelude::*;
use crate::payload::RangePayload;

verus! {

/// The integers of the half-open interval `[r.start, r.end)`, in ascending
/// order: the exact operands of the range kernel, each to be squared and
/// added in this order. `end <= start` yields the empty interval.
pub fn range_indices(r: &RangePayload) -> (out: Vec<u32>)
    ensures
        r.end <= r.start ==> out@.len() == 0,
        r.start < r.end ==> out@.len() == r.end - r.start,
        forall|j: int| 0 <= j < out@.len() ==> out@[j] == r.start + j,
{
    let mut out: Vec<u32> = Vec::new();
    let mut i: u32 = r.start;
    if r.end <= r.start {
        return out;
    }
    while i < r.end
        invariant
            r.start <= i <= r.end,
            out@.len() == i - r.start,
            forall|j: int| 0 <= j < out@.len() ==> out@[j] == r.start + j,
        decreases r.end - i,
    {
        out.push(i);
        i += 1;
    }
    out
}

} // verus!
