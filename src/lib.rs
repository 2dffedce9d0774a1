//! Health evaluation for a blockchain node: JSON-RPC result decoding,
//! aggregation of reference heights, and the verdict that follows from them.
use vstd::prelude::*;

pub mod aggregate;
pub mod probe;
pub mod rpc;
pub mod verdict;

verus! {

/// The distance between two block heights.
pub open spec fn height_gap(a: int, b: int) -> int {
    if a >= b {
        a - b
    } else {
        b - a
    }
}

/// The absolute difference between two block heights.
pub fn block_delta(a: u64, b: u64) -> (r: u64)
    ensures
        r as int == height_gap(a as int, b as int),
{
    if a > b {
        a - b
    } else {
        b - a
    }
}

/// The distance between two heights does not depend on their order, and is
/// the absolute value of their difference.
pub proof fn lemma_delta_symmetric(a: u64, b: u64)
    ensures
        height_gap(a as int, b as int) == height_gap(b as int, a as int),
        height_gap(a as int, b as int) == if a >= b { a - b } else { b - a },
{
}

} // verus!
