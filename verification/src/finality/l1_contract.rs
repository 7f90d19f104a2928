//! The bridge contract on L1: its events, the finality tags made of them, and
//! when the oracle polls.

use vstd::prelude::*;
use vstd::string::*;
use std::time::Duration;
use crate::finality::error::{FinalityError, FinalityResult};
use crate::time::duration_secs;
use crate::types::bytes::{all_zero, Address, FixedBytes};
use crate::types::finality::{FinalityStatus, FinalityTag};
use crate::types::u256::U256;

verus! {

/// The bridge contract.
#[derive(Debug, Clone, Copy, PartialEq, Eq)]
pub struct CdkBridgeContract {
    /// Address of the contract.
    pub address: Address,
}

/// The event that a batch was finalized.
#[derive(Debug, Clone, Copy, PartialEq, Eq)]
pub struct BatchFinalized {
    pub batch_id: U256,
    pub l1_block_number: U256,
    pub timestamp: U256,
}

/// The event that a batch was rolled back.
#[derive(Debug, Clone, Copy, PartialEq, Eq)]
pub struct BatchRolledBack {
    pub batch_id: U256,
    pub l1_block_number: U256,
    pub timestamp: U256,
}

/// Whether `tag` is the tag of an event with the given fields and status: the
/// batch and the L1 block of the event, its time, no block hash and no
/// transaction hash.
pub open spec fn tag_of(
    tag: FinalityTag,
    batch_id: U256,
    l1_block_number: U256,
    timestamp: U256,
    status: FinalityStatus,
) -> bool {
    &&& tag.batch_id == batch_id
    &&& tag.l1_block == l1_block_number
    &&& tag.l1_block_hash@.len() == 32
    &&& all_zero(tag.l1_block_hash@)
    &&& tag.status == status
    &&& tag.timestamp == timestamp@
    &&& tag.tx_hash is None
}

/// Whether the time of every event fits in 64 bits.
pub open spec fn times_fit(finalized: Seq<BatchFinalized>, rolled_back: Seq<BatchRolledBack>) -> bool {
    &&& forall|i: int| 0 <= i < finalized.len() ==> (#[trigger] finalized[i]).timestamp@ <= u64::MAX
    &&& forall|i: int|
        0 <= i < rolled_back.len() ==> (#[trigger] rolled_back[i]).timestamp@ <= u64::MAX
}

/// Whether `tags` are the tags of the events: those of the finalizations
/// first, then those of the rollbacks, each group in the order of its events.
pub open spec fn tags_of(
    tags: Seq<FinalityTag>,
    finalized: Seq<BatchFinalized>,
    rolled_back: Seq<BatchRolledBack>,
) -> bool {
    &&& tags.len() == finalized.len() + rolled_back.len()
    &&& forall|i: int|
        0 <= i < finalized.len() ==> tag_of(
            #[trigger] tags[i],
            finalized[i].batch_id,
            finalized[i].l1_block_number,
            finalized[i].timestamp,
            FinalityStatus::Finalized,
        )
    &&& forall|i: int|
        0 <= i < rolled_back.len() ==> tag_of(
            #[trigger] tags[finalized.len() + i],
            rolled_back[i].batch_id,
            rolled_back[i].l1_block_number,
            rolled_back[i].timestamp,
            FinalityStatus::RolledBack,
        )
}

/// The tag of one event, or `None` where its time does not fit in 64 bits.
pub fn tag_from_event(
    batch_id: U256,
    l1_block_number: U256,
    timestamp: U256,
    status: FinalityStatus,
) -> (r: Option<FinalityTag>)
    ensures
        timestamp@ <= u64::MAX ==> r is Some && tag_of(
            r->0,
            batch_id,
            l1_block_number,
            timestamp,
            status,
        ),
        timestamp@ > u64::MAX ==> r is None,
{
    match timestamp.to_u64() {
        Some(t) => Some(
            FinalityTag::new(batch_id, l1_block_number, FixedBytes::zero(), status, t, None),
        ),
        None => None,
    }
}

/// The finality tags of the events of one poll: finalizations first, then
/// rollbacks, each in the order given. `InvalidFinalityData` exactly when the
/// time of an event does not fit in 64 bits.
#[verifier::loop_isolation(false)]
pub fn tags_from_events(finalized: &Vec<BatchFinalized>, rolled_back: &Vec<BatchRolledBack>) -> (r:
    FinalityResult<Vec<FinalityTag>>)
    ensures
        times_fit(finalized@, rolled_back@) ==> r is Ok && tags_of(
            r->Ok_0@,
            finalized@,
            rolled_back@,
        ),
        !times_fit(finalized@, rolled_back@) ==> r matches Err(
            FinalityError::InvalidFinalityData(_),
        ),
{
    let mut tags: Vec<FinalityTag> = Vec::new();
    let mut i: usize = 0;
    while i < finalized.len()
        invariant
            i <= finalized@.len(),
            tags@.len() == i,
            forall|j: int| 0 <= j < i ==> (#[trigger] finalized@[j]).timestamp@ <= u64::MAX,
            forall|j: int|
                0 <= j < i ==> tag_of(
                    #[trigger] tags@[j],
                    finalized@[j].batch_id,
                    finalized@[j].l1_block_number,
                    finalized@[j].timestamp,
                    FinalityStatus::Finalized,
                ),
        decreases finalized@.len() - i,
    {
        let event = &finalized[i];
        match tag_from_event(
            event.batch_id,
            event.l1_block_number,
            event.timestamp,
            FinalityStatus::Finalized,
        ) {
            Some(tag) => {
                tags.push(tag);
            },
            None => {
                assert(finalized@[i as int].timestamp@ > u64::MAX);
                return Err(
                    FinalityError::InvalidFinalityData(
                        String::from_str("Event timestamp does not fit in 64 bits"),
                    ),
                );
            },
        }
        i = i + 1;
    }
    let ghost first = tags@;
    assert forall|j: int| 0 <= j < first.len() implies tag_of(
        #[trigger] first[j],
        finalized@[j].batch_id,
        finalized@[j].l1_block_number,
        finalized@[j].timestamp,
        FinalityStatus::Finalized,
    ) by {
        assert(first[j] == tags@[j]);
    }
    let mut k: usize = 0;
    while k < rolled_back.len()
        invariant
            k <= rolled_back@.len(),
            first.len() == finalized@.len(),
            tags@.len() == first.len() + k,
            forall|j: int| 0 <= j < first.len() ==> tags@[j] == first[j],
            forall|j: int| 0 <= j < k ==> (#[trigger] rolled_back@[j]).timestamp@ <= u64::MAX,
            forall|j: int|
                0 <= j < k ==> tag_of(
                    #[trigger] tags@[first.len() + j],
                    rolled_back@[j].batch_id,
                    rolled_back@[j].l1_block_number,
                    rolled_back@[j].timestamp,
                    FinalityStatus::RolledBack,
                ),
        decreases rolled_back@.len() - k,
    {
        let event = &rolled_back[k];
        match tag_from_event(
            event.batch_id,
            event.l1_block_number,
            event.timestamp,
            FinalityStatus::RolledBack,
        ) {
            Some(tag) => {
                tags.push(tag);
            },
            None => {
                assert(rolled_back@[k as int].timestamp@ > u64::MAX);
                return Err(
                    FinalityError::InvalidFinalityData(
                        String::from_str("Event timestamp does not fit in 64 bits"),
                    ),
                );
            },
        }
        k = k + 1;
    }
    assert forall|j: int| 0 <= j < finalized@.len() implies tag_of(
        #[trigger] tags@[j],
        finalized@[j].batch_id,
        finalized@[j].l1_block_number,
        finalized@[j].timestamp,
        FinalityStatus::Finalized,
    ) by {
        assert(tags@[j] == first[j]);
    }
    Ok(tags)
}

/// What the oracle does when asked to poll.
#[derive(Debug, Clone, Copy, PartialEq, Eq)]
pub enum PollPlan {
    /// The last poll is too recent: hand back nothing.
    Wait,
    /// L1 has no block after the last one polled: hand back nothing, but the
    /// poll counts.
    Idle,
    /// Ask the bridge contract for the events of the blocks from `from_block`
    /// to `to_block`, both included.
    Query { from_block: u64, to_block: u64 },
}

/// The finality oracle's polling state: how often it polls, when it polled
/// last, and up to which L1 block.
#[derive(Debug, Clone)]
pub struct RealFinalityOracle {
    /// Time between two polls.
    pub polling_interval: Duration,
    /// When the last poll was made, in seconds since the Unix epoch; none
    /// before the first poll.
    pub last_poll: Option<u64>,
    /// The last L1 block whose events were asked for.
    pub last_poll_block: u64,
}

/// Whether a poll at `now` comes too soon after the last one.
pub open spec fn too_soon(last_poll: Option<u64>, interval_secs: u64, now: u64) -> bool {
    last_poll matches Some(last) && now >= last && now - last < interval_secs
}

/// What the oracle does when asked to poll at `now`, with L1 at block `head`:
/// nothing where the interval has not passed since the last poll; else it asks
/// for the events of the blocks after the last one polled, up to the head.
pub open spec fn poll_plan(
    last_poll: Option<u64>,
    last_poll_block: u64,
    interval_secs: u64,
    now: u64,
    head: u64,
) -> PollPlan {
    if too_soon(last_poll, interval_secs, now) {
        PollPlan::Wait
    } else if head <= last_poll_block {
        PollPlan::Idle
    } else {
        PollPlan::Query { from_block: (last_poll_block + 1) as u64, to_block: head }
    }
}

impl RealFinalityOracle {
    /// An oracle that has not polled yet and starts after `start_block`.
    pub fn new(polling_interval: Duration, start_block: u64) -> (r: RealFinalityOracle)
        ensures
            r.polling_interval == polling_interval,
            r.last_poll is None,
            r.last_poll_block == start_block,
    {
        RealFinalityOracle { polling_interval, last_poll: None, last_poll_block: start_block }
    }

    /// Whether it is time to poll: the interval has passed since the last poll.
    pub fn should_poll(&self, now: u64) -> (r: bool)
        ensures
            r == !too_soon(self.last_poll, duration_secs(self.polling_interval), now),
    {
        match self.last_poll {
            Some(last) => {
                if now >= last {
                    now - last >= self.polling_interval.as_secs()
                } else {
                    true
                }
            },
            None => true,
        }
    }

    /// What to do when asked to poll at `now`, with L1 at block `head`.
    pub fn plan(&self, now: u64, head: u64) -> (r: PollPlan)
        ensures
            r == poll_plan(
                self.last_poll,
                self.last_poll_block,
                duration_secs(self.polling_interval),
                now,
                head,
            ),
    {
        if !self.should_poll(now) {
            PollPlan::Wait
        } else if head <= self.last_poll_block {
            PollPlan::Idle
        } else {
            PollPlan::Query { from_block: self.last_poll_block + 1, to_block: head }
        }
    }

    /// Ends a poll that was made at `now` with L1 at block `head`: the tags of
    /// the events are handed back, finalizations first, and the oracle
    /// remembers the time and the block. Where an event is not well formed
    /// the oracle remembers nothing, so that the blocks are asked for again.
    pub fn complete_poll(
        &mut self,
        now: u64,
        head: u64,
        finalized: &Vec<BatchFinalized>,
        rolled_back: &Vec<BatchRolledBack>,
    ) -> (r: FinalityResult<Vec<FinalityTag>>)
        ensures
            final(self).polling_interval == old(self).polling_interval,
            times_fit(finalized@, rolled_back@) ==> {
                &&& r is Ok
                &&& tags_of(r->Ok_0@, finalized@, rolled_back@)
                &&& final(self).last_poll == Some(now)
                &&& final(self).last_poll_block == if head > old(self).last_poll_block {
                    head
                } else {
                    old(self).last_poll_block
                }
            },
            !times_fit(finalized@, rolled_back@) ==> {
                &&& r matches Err(FinalityError::InvalidFinalityData(_))
                &&& final(self).last_poll == old(self).last_poll
                &&& final(self).last_poll_block == old(self).last_poll_block
            },
    {
        let tags = match tags_from_events(finalized, rolled_back) {
            Ok(t) => t,
            Err(e) => {
                return Err(e);
            },
        };
        self.last_poll = Some(now);
        if head > self.last_poll_block {
            self.last_poll_block = head;
        }
        Ok(tags)
    }

    /// Sets the time between two polls.
    pub fn set_polling_interval(&mut self, interval: Duration)
        ensures
            final(self).polling_interval == interval,
            final(self).last_poll == old(self).last_poll,
            final(self).last_poll_block == old(self).last_poll_block,
    {
        self.polling_interval = interval;
    }

    /// The time between two polls.
    pub fn get_polling_interval(&self) -> (r: Duration)
        ensures
            r == self.polling_interval,
    {
        self.polling_interval
    }
}

} // verus!
