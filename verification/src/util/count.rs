//! Counters that stop at their largest value.

use vstd::prelude::*;

verus! {

/// One more, but never past `u64::MAX`.
pub open spec fn bumped(count: u64) -> u64 {
    if count < u64::MAX {
        (count + 1) as u64
    } else {
        u64::MAX
    }
}

/// The sum, but never past `u64::MAX`.
pub open spec fn capped_sum(count: u64, more: usize) -> u64 {
    if count + more <= u64::MAX {
        (count + more) as u64
    } else {
        u64::MAX
    }
}

/// One more, but never past `u64::MAX`.
pub fn bump(count: u64) -> (r: u64)
    ensures
        r == bumped(count),
{
    if count < u64::MAX {
        count + 1
    } else {
        count
    }
}

/// The sum, but never past `u64::MAX`.
pub fn add_capped(count: u64, more: usize) -> (r: u64)
    ensures
        r == capped_sum(count, more),
{
    if more as u64 > u64::MAX - count {
        u64::MAX
    } else {
        count + more as u64
    }
}

} // verus!
