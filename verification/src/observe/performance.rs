//! Counts of cache use and of work done.

use vstd::prelude::*;
use crate::observe::error::ObservabilityResult;
use crate::util::count::{bump, bumped};
use crate::types::u256::U256;

verus! {

/// Counts of cache use.
#[derive(Debug, Clone, Copy, PartialEq, Eq)]
pub struct CacheStats {
    /// Lookups that found an entry.
    pub hits: u64,
    /// Lookups that found none.
    pub misses: u64,
    /// Entries put in.
    pub inserts: u64,
    /// Entries pushed out.
    pub evictions: u64,
}

impl Default for CacheStats {
    fn default() -> (r: CacheStats)
        ensures
            r == (CacheStats { hits: 0, misses: 0, inserts: 0, evictions: 0 }),
    {
        CacheStats::new()
    }
}

impl CacheStats {
    /// Counts at zero.
    pub fn new() -> (r: CacheStats)
        ensures
            r == (CacheStats { hits: 0, misses: 0, inserts: 0, evictions: 0 }),
    {
        CacheStats { hits: 0, misses: 0, inserts: 0, evictions: 0 }
    }

    /// Counts a lookup: a hit where an entry was found, else a miss.
    pub fn record_lookup(&mut self, found: bool)
        ensures
            found ==> *final(self) == (CacheStats { hits: bumped(old(self).hits), ..*old(self) }),
            !found ==> *final(self) == (CacheStats {
                misses: bumped(old(self).misses),
                ..*old(self)
            }),
    {
        if found {
            self.hits = bump(self.hits);
        } else {
            self.misses = bump(self.misses);
        }
    }

    /// Counts an entry put in.
    pub fn record_insert(&mut self)
        ensures
            *final(self) == (CacheStats { inserts: bumped(old(self).inserts), ..*old(self) }),
    {
        self.inserts = bump(self.inserts);
    }

    /// The share of lookups that found an entry, in hundredths of a percent;
    /// zero before any lookup.
    pub fn hit_rate_basis_points(&self) -> (r: u64)
        ensures
            self.hits + self.misses == 0 ==> r == 0,
            self.hits + self.misses > 0 ==> r == (self.hits as int * 10000) / (self.hits
                + self.misses),
    {
        let total: u128 = self.hits as u128 + self.misses as u128;
        if total == 0 {
            0
        } else {
            let scaled: u128 = self.hits as u128 * 10000;
            let rate: u128 = scaled / total;
            assert(rate <= 10000) by (nonlinear_arith)
                requires
                    rate == scaled / total,
                    scaled <= total * 10000,
                    total > 0,
            ;
            rate as u64
        }
    }
}

/// The value of a height for a gauge: the number itself where it fits in 64
/// bits; else the gauge is left alone.
pub fn gauge_height(height: U256) -> (r: Option<u64>)
    ensures
        height@ <= u64::MAX ==> r == Some(height@ as u64),
        height@ > u64::MAX ==> r is None,
{
    height.to_u64()
}

/// The number of outcomes that are a success.
pub open spec fn success_count(results: Seq<ObservabilityResult<()>>) -> nat
    decreases results.len(),
{
    if results.len() == 0 {
        0
    } else {
        success_count(results.drop_last()) + if results.last() is Ok {
            1nat
        } else {
            0nat
        }
    }
}

/// The number of outcomes that are a success.
pub fn count_successes(results: &Vec<ObservabilityResult<()>>) -> (r: usize)
    ensures
        r == success_count(results@),
{
    let mut count: usize = 0;
    let mut i: usize = 0;
    while i < results.len()
        invariant
            i <= results@.len(),
            count <= i,
            count == success_count(results@.take(i as int)),
        decreases results@.len() - i,
    {
        proof {
            assert(results@.take(i + 1).drop_last() =~= results@.take(i as int));
            assert(results@.take(i + 1).last() == results@[i as int]);
        }
        if results[i].is_ok() {
            count = count + 1;
        }
        i = i + 1;
    }
    assert(results@.take(results@.len() as int) =~= results@);
    count
}

} // verus!
