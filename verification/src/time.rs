//! Durations and the wall clock.

use vstd::prelude::*;
use std::time::{Duration, SystemTime};

verus! {

#[verifier::external_type_specification]
#[verifier::external_body]
pub struct ExSystemTime(SystemTime);

/// The whole seconds of a duration: what `Duration::as_secs` returns.
pub uninterp spec fn duration_secs(d: Duration) -> u64;

/// The fraction of a second of a duration, in nanoseconds: what
/// `Duration::subsec_nanos` would return.
pub uninterp spec fn duration_subsec_nanos(d: Duration) -> u32;

/// `Duration::from_secs` makes the duration of that many whole seconds.
pub assume_specification[ Duration::from_secs ](secs: u64) -> (d: Duration)
    ensures
        duration_secs(d) == secs,
        duration_subsec_nanos(d) == 0,
;

/// `Duration::as_secs` gives the whole seconds.
pub assume_specification[ Duration::as_secs ](d: &Duration) -> (secs: u64)
    ensures
        secs == duration_secs(*d),
;

/// `Duration`'s `clone` gives the same duration.
pub assume_specification[ <Duration as Clone>::clone ](d: &Duration) -> (r: Duration)
    ensures
        r == *d,
;

/// `SystemTime::now`: the wall clock, of which nothing is known beforehand.
#[verifier::external_body]
pub(crate) fn system_now() -> (t: SystemTime) {
    SystemTime::now()
}

/// `SystemTime::duration_since` the Unix epoch, none where the clock stands
/// before the epoch.
#[verifier::external_body]
pub(crate) fn since_unix_epoch(t: &SystemTime) -> (d: Option<Duration>) {
    t.duration_since(std::time::UNIX_EPOCH).ok()
}

/// The whole seconds of the time that has passed since the Unix epoch, zero
/// where no time has passed because the clock stands before the epoch.
pub fn whole_seconds(elapsed: Option<Duration>) -> (secs: u64)
    ensures
        secs == match elapsed {
            Some(d) => duration_secs(d),
            None => 0,
        },
{
    match elapsed {
        Some(d) => d.as_secs(),
        None => 0,
    }
}

/// Seconds since the Unix epoch by the wall clock, zero where the clock stands
/// before the epoch. What the clock shows is not known beforehand.
pub fn unix_now() -> (secs: u64) {
    let t = system_now();
    whole_seconds(since_unix_epoch(&t))
}

} // verus!
