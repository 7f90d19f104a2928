//! Helpers of the command line tools.

use vstd::prelude::*;
use vstd::arithmetic::power2::{lemma2_to64, pow2};
use vstd::string::*;
use std::time::Duration;
use crate::datastream::checkpoint::Checkpoint;
use crate::text::{concat3, decimal, u64_to_decimal};
use crate::time::{duration_secs, duration_subsec_nanos};
use crate::types::error::CdkError;

verus! {

/// Longest delay between two tries, in seconds.
pub const MAX_RETRY_DELAY_SECS: u64 = 60;

/// The attempt from which on the delay no longer grows.
pub const RETRY_SATURATION_ATTEMPT: u32 = 6;

/// The checkpoint that a command line names. `auto` and `latest` leave the
/// choice to the source; so far any other text does too.
pub fn parse_checkpoint(checkpoint_str: &str) -> (r: Result<Option<Checkpoint>, CdkError>)
    ensures
        r is Ok,
        r->Ok_0 is None,
{
    Ok(None)
}

/// Whether `s` begins with `prefix`.
pub fn starts_with(s: &str, prefix: &str) -> (r: bool)
    ensures
        r == prefix@.is_prefix_of(s@),
{
    let n: usize = prefix.unicode_len();
    let m: usize = s.unicode_len();
    if n > m {
        return false;
    }
    let mut i: usize = 0;
    while i < n
        invariant
            i <= n,
            n == prefix@.len(),
            m == s@.len(),
            n <= m,
            forall|j: int| 0 <= j < i ==> s@[j] == prefix@[j],
        decreases n - i,
    {
        if s.get_char(i) != prefix.get_char(i) {
            assert(s@.subrange(0, n as int)[i as int] != prefix@[i as int]);
            return false;
        }
        i = i + 1;
    }
    assert(s@.subrange(0, n as int) =~= prefix@);
    true
}

/// Whether a URL names one of the schemes that the tools can reach.
pub open spec fn url_format_ok(url: Seq<char>) -> bool {
    "http://"@.is_prefix_of(url) || "https://"@.is_prefix_of(url)
}

/// Checks that a URL begins with `http://` or `https://`.
pub fn validate_url(url: &str) -> (r: Result<(), CdkError>)
    ensures
        r is Ok <==> url_format_ok(url@),
        r is Err ==> (r matches Err(CdkError::ConfigError(text)) && text@ == "Invalid URL format: "@
            + url@),
{
    if starts_with(url, "http://") || starts_with(url, "https://") {
        Ok(())
    } else {
        let text = concat3("Invalid URL format: ", url, "");
        assert(text@ =~= "Invalid URL format: "@ + url@) by {
            reveal_strlit("");
        }
        Err(CdkError::ConfigError(text))
    }
}

/// The smaller of two numbers.
pub open spec fn min_nat(a: nat, b: nat) -> nat {
    if a <= b {
        a
    } else {
        b
    }
}

/// Seconds to wait before try number `attempt`: one second, doubled with each
/// attempt up to the sixth, and never more than sixty.
pub open spec fn retry_secs(attempt: nat) -> nat {
    min_nat(MAX_RETRY_DELAY_SECS as nat, pow2(min_nat(attempt, RETRY_SATURATION_ATTEMPT as nat)))
}

/// Seconds to wait before try number `attempt`.
pub fn retry_delay_secs(attempt: u32) -> (r: u64)
    ensures
        r == retry_secs(attempt as nat),
        1 <= r <= 60,
{
    proof {
        lemma2_to64();
    }
    let k: u32 = if attempt < RETRY_SATURATION_ATTEMPT {
        attempt
    } else {
        RETRY_SATURATION_ATTEMPT
    };
    let doubled: u64 = if k == 0 {
        1
    } else if k == 1 {
        2
    } else if k == 2 {
        4
    } else if k == 3 {
        8
    } else if k == 4 {
        16
    } else if k == 5 {
        32
    } else {
        64
    };
    if doubled < MAX_RETRY_DELAY_SECS {
        doubled
    } else {
        MAX_RETRY_DELAY_SECS
    }
}

/// The delay before try number `attempt`, with exponential backoff.
pub fn retry_delay(attempt: u32) -> (r: Duration)
    ensures
        duration_secs(r) == retry_secs(attempt as nat),
        duration_subsec_nanos(r) == 0,
{
    Duration::from_secs(retry_delay_secs(attempt))
}

/// The delay grows up to the sixth attempt and stays at sixty seconds from there.
pub proof fn lemma_retry_secs(attempt: nat)
    ensures
        retry_secs(0) == 1,
        retry_secs(1) == 2,
        retry_secs(5) == 32,
        attempt >= 6 ==> retry_secs(attempt) == 60,
        retry_secs(10) == 60,
        retry_secs(attempt) <= retry_secs(attempt + 1),
{
    lemma2_to64();
}

/// A number of seconds, written in hours, minutes and seconds; the larger
/// units are left out while they are zero.
pub open spec fn format_secs(seconds: nat) -> Seq<char> {
    let minutes = seconds / 60;
    let hours = minutes / 60;
    if hours > 0 {
        decimal(hours) + "h "@ + decimal(minutes % 60) + "m "@ + decimal(seconds % 60) + "s"@
    } else if minutes > 0 {
        decimal(minutes) + "m "@ + decimal(seconds % 60) + "s"@
    } else {
        decimal(seconds) + "s"@
    }
}

/// A duration for a human reader: its whole seconds in hours, minutes and seconds.
pub fn format_duration(duration: Duration) -> (r: String)
    ensures
        r@ == format_secs(duration_secs(duration) as nat),
{
    let seconds: u64 = duration.as_secs();
    let minutes: u64 = seconds / 60;
    let hours: u64 = minutes / 60;
    let s = u64_to_decimal(seconds % 60);
    if hours > 0 {
        let h = u64_to_decimal(hours);
        let m = u64_to_decimal(minutes % 60);
        let mut out = concat3(h.as_str(), "h ", m.as_str());
        out.append("m ");
        out.append(s.as_str());
        out.append("s");
        out
    } else if minutes > 0 {
        let m = u64_to_decimal(minutes);
        let mut out = concat3(m.as_str(), "m ", s.as_str());
        out.append("s");
        out
    } else {
        let mut out = u64_to_decimal(seconds);
        out.append("s");
        out
    }
}

} // verus!
