//! The rollback manager: a state machine per batch that confirms rollbacks
//! seen on L1 and says when the engine has to unwind.
//!
//! A batch is first unknown to the manager. A rollback event makes it pending
//! and counts as its first confirmation; each further observation adds one.
//! With enough confirmations the rollback is executed, which is final. A
//! finalization event makes the batch finalized, which is final too, and
//! removes a pending rollback. Events for a batch in a final state are ignored.

use vstd::prelude::*;
use vstd::string::*;
use std::collections::{HashMap, HashSet};
use std::time::Duration;
use crate::finality::error::{FinalityError, FinalityResult};
use crate::finality::oracle::{FinalityEventType, FinalityUpdate};
use crate::ingest::assembler::BatchMapping;
use crate::text::{concat4, decimal, u256_to_decimal, u64_to_decimal, with_number};
use crate::time::{duration_secs, duration_subsec_nanos, unix_now};
use crate::types::bytes::FixedBytes;
use crate::util::keys::keys_of;

verus! {

broadcast use vstd::std_specs::hash::group_hash_axioms;

/// Confirmations that a rollback needs, unless configured otherwise.
pub const DEFAULT_REQUIRED_CONFIRMATIONS: u64 = 12;

/// Largest number of blocks that one rollback may unwind, unless configured otherwise.
pub const DEFAULT_MAX_ROLLBACK_DEPTH: u64 = 1000;

/// Seconds after which a pending rollback is dropped, unless configured otherwise.
pub const DEFAULT_ROLLBACK_TIMEOUT_SECS: u64 = 3600;

/// The record of a rollback that was executed.
#[derive(Debug, Clone, PartialEq)]
pub struct RollbackRecord {
    /// The batch that was rolled back.
    pub batch_id: u64,
    /// Digest recorded with the rollback event.
    pub batch_hash: FixedBytes<32>,
    /// L1 block number of the rollback event.
    pub l1_block_number: u64,
    /// The transaction that caused the rollback, where known.
    pub tx_hash: Option<FixedBytes<32>>,
    /// When the rollback was detected.
    pub timestamp: u64,
    /// Why the batch was rolled back.
    pub reason: String,
    /// The L2 blocks that the rollback unwinds, in rising order.
    pub affected_blocks: Vec<u64>,
}

/// A rollback that waits for its confirmations.
#[derive(Debug, Clone, Copy, PartialEq)]
pub struct PendingRollback {
    /// The batch to roll back.
    pub batch_id: u64,
    /// Digest recorded with the rollback event.
    pub batch_hash: FixedBytes<32>,
    /// L1 block number of the rollback event.
    pub l1_block_number: u64,
    /// The transaction that caused the rollback, where known.
    pub tx_hash: Option<FixedBytes<32>>,
    /// When the rollback was detected.
    pub timestamp: u64,
    /// Confirmations counted so far.
    pub confirmations: u64,
    /// Confirmations needed.
    pub required_confirmations: u64,
}

/// How the rollback manager is configured.
#[derive(Debug, Clone)]
pub struct RollbackConfig {
    /// Confirmations needed before a rollback is executed.
    pub required_confirmations: u64,
    /// Largest number of blocks that one rollback may unwind.
    pub max_rollback_depth: u64,
    /// Age after which a pending rollback is dropped.
    pub rollback_timeout: Duration,
    /// Whether a confirmed rollback is executed without an operator.
    pub auto_execute: bool,
    /// Whether rollbacks are validated.
    pub validate_rollbacks: bool,
}

impl Default for RollbackConfig {
    fn default() -> (r: RollbackConfig)
        ensures
            r.required_confirmations == DEFAULT_REQUIRED_CONFIRMATIONS,
            r.max_rollback_depth == DEFAULT_MAX_ROLLBACK_DEPTH,
            duration_secs(r.rollback_timeout) == DEFAULT_ROLLBACK_TIMEOUT_SECS,
            duration_subsec_nanos(r.rollback_timeout) == 0,
            r.auto_execute,
            r.validate_rollbacks,
    {
        RollbackConfig {
            required_confirmations: DEFAULT_REQUIRED_CONFIRMATIONS,
            max_rollback_depth: DEFAULT_MAX_ROLLBACK_DEPTH,
            rollback_timeout: Duration::from_secs(DEFAULT_ROLLBACK_TIMEOUT_SECS),
            auto_execute: true,
            validate_rollbacks: true,
        }
    }
}

/// What the manager asks the orchestrator to do.
#[derive(Debug, Clone, Copy, PartialEq, Eq, Structural)]
pub enum RollbackAction {
    /// Unwind the engine and the index for this batch.
    ExecuteRollback(u64),
    /// The rollback of this batch still waits.
    PendingRollback(u64),
    /// This batch was finalized.
    Finalized(u64),
    /// The status of this batch changed.
    StatusChanged(u64),
}

/// What the orchestrator knows of the batch that an event speaks of.
#[derive(Debug, Clone, Copy, PartialEq)]
pub struct RollbackContext {
    /// The index record of the batch, if the batch was committed.
    pub mapping: Option<BatchMapping>,
    /// The head block of the engine.
    pub head_block: u64,
}

/// The state of the manager, as maps and sets.
pub struct ManagerState {
    /// Rollbacks that were executed, by batch.
    pub history: Map<u64, RollbackRecord>,
    /// Rollbacks that wait, by batch.
    pub pending: Map<u64, PendingRollback>,
    /// Batches that were finalized.
    pub finalized: Set<u64>,
}

/// What the manager decides on an event.
pub enum Verdict {
    /// The batch number does not fit in 64 bits.
    BadBatchId,
    /// The batch is in a final state, or not committed yet: nothing happens.
    Ignored,
    /// The rollback is counted and keeps waiting.
    Wait,
    /// The rollback has its confirmations but would unwind too many blocks.
    TooDeep,
    /// The rollback is executed.
    Execute,
    /// The batch becomes finalized.
    Finalize,
    /// The change of status is passed on.
    StatusChange,
}

/// The last block that a rollback of the batch unwinds: the head of the engine,
/// or the end of the batch where the head lies before it.
pub open spec fn last_affected(mapping: BatchMapping, head: u64) -> u64 {
    if head >= mapping.end_block {
        head
    } else {
        mapping.end_block
    }
}

/// The number of blocks that a rollback of the batch unwinds: all from the
/// first block of the batch on.
pub open spec fn affected_count(mapping: BatchMapping, head: u64) -> nat {
    if last_affected(mapping, head) >= mapping.start_block {
        (last_affected(mapping, head) - mapping.start_block + 1) as nat
    } else {
        0
    }
}

/// The blocks that a rollback of the batch unwinds, in rising order.
pub open spec fn affected_blocks(mapping: BatchMapping, head: u64) -> Seq<u64> {
    Seq::new(affected_count(mapping, head), |i: int| (mapping.start_block + i) as u64)
}

/// The entry of a rollback that was just seen, before it is counted.
pub open spec fn fresh_entry(update: FinalityUpdate, batch: u64, required: u64) -> PendingRollback {
    PendingRollback {
        batch_id: batch,
        batch_hash: update.tag.l1_block_hash,
        l1_block_number: update.l1_block_number,
        tx_hash: update.tx_hash,
        timestamp: update.detected_at,
        confirmations: 0,
        required_confirmations: required,
    }
}

/// The entry with one more confirmation; the count stops at `u64::MAX`.
pub open spec fn bumped(entry: PendingRollback) -> PendingRollback {
    PendingRollback {
        confirmations: if entry.confirmations < u64::MAX {
            (entry.confirmations + 1) as u64
        } else {
            u64::MAX
        },
        ..entry
    }
}

/// The entry of a batch after a rollback event for it was counted.
pub open spec fn counted_entry(
    pending: Map<u64, PendingRollback>,
    update: FinalityUpdate,
    batch: u64,
    required: u64,
) -> PendingRollback {
    bumped(
        if pending.contains_key(batch) {
            pending[batch]
        } else {
            fresh_entry(update, batch, required)
        },
    )
}

/// What is decided for an entry that was just counted.
pub open spec fn verdict_counted(
    config: RollbackConfig,
    entry: PendingRollback,
    context: RollbackContext,
) -> Verdict {
    if entry.confirmations >= entry.required_confirmations && config.auto_execute
        && context.mapping is Some {
        if affected_count(context.mapping->0, context.head_block) > config.max_rollback_depth {
            Verdict::TooDeep
        } else {
            Verdict::Execute
        }
    } else {
        Verdict::Wait
    }
}

/// Whether the batch is in a final state: its rollback was executed, or it
/// was finalized.
pub open spec fn settled(state: ManagerState, batch: u64) -> bool {
    state.history.contains_key(batch) || state.finalized.contains(batch)
}

/// Whether the rollback of `batch` comes due with its next confirmation:
/// rollbacks are executed without an operator, and the count then reaches what
/// is required. A rollback that was not seen yet has one confirmation then.
pub open spec fn due_next(
    config: RollbackConfig,
    pending: Map<u64, PendingRollback>,
    batch: u64,
) -> bool {
    config.auto_execute && if pending.contains_key(batch) {
        bumped(pending[batch]).confirmations >= pending[batch].required_confirmations
    } else {
        1 >= config.required_confirmations
    }
}

/// Whether the decision on an event depends on what the index and the engine
/// know of the batch: a rollback that comes due with this event, and a
/// finalization, of a batch that is not in a final state yet. Every other
/// event is decided by the manager alone.
pub open spec fn needs_context(config: RollbackConfig, pre: ManagerState, update: FinalityUpdate) -> bool {
    &&& update.tag.batch_id@ <= u64::MAX
    &&& match update.event_type {
        FinalityEventType::StatusChanged => false,
        FinalityEventType::RolledBack => !settled(pre, update.tag.batch_id@ as u64) && due_next(
            config,
            pre.pending,
            update.tag.batch_id@ as u64,
        ),
        FinalityEventType::Finalized => !settled(pre, update.tag.batch_id@ as u64),
    }
}

/// What the manager decides on an event, given its state and what the
/// orchestrator knows of the batch.
pub open spec fn verdict(
    config: RollbackConfig,
    pre: ManagerState,
    update: FinalityUpdate,
    context: RollbackContext,
) -> Verdict {
    if update.tag.batch_id@ > u64::MAX {
        Verdict::BadBatchId
    } else {
        let batch = update.tag.batch_id@ as u64;
        match update.event_type {
            FinalityEventType::StatusChanged => Verdict::StatusChange,
            FinalityEventType::RolledBack => {
                if pre.history.contains_key(batch) || pre.finalized.contains(batch) {
                    Verdict::Ignored
                } else {
                    verdict_counted(
                        config,
                        counted_entry(pre.pending, update, batch, config.required_confirmations),
                        context,
                    )
                }
            },
            FinalityEventType::Finalized => {
                if pre.history.contains_key(batch) || pre.finalized.contains(batch)
                    || context.mapping is None {
                    Verdict::Ignored
                } else {
                    Verdict::Finalize
                }
            },
        }
    }
}

/// Whether `record` is the record of executing the rollback `entry` of `batch`
/// with the index record `mapping`, with the engine's head at `head`.
pub open spec fn record_of(
    record: RollbackRecord,
    batch: u64,
    entry: PendingRollback,
    mapping: BatchMapping,
    head: u64,
) -> bool {
    &&& record.batch_id == batch
    &&& record.batch_hash == entry.batch_hash
    &&& record.l1_block_number == entry.l1_block_number
    &&& record.tx_hash == entry.tx_hash
    &&& record.timestamp == entry.timestamp
    &&& record.reason@ == "L1 finality rollback"@
    &&& record.affected_blocks@ == affected_blocks(mapping, head)
}

/// The text that refuses a rollback which would unwind too many blocks.
pub open spec fn too_deep_message(batch: u64, max_depth: u64) -> Seq<char> {
    "Rollback of batch "@ + decimal(batch as nat) + " exceeds the maximum depth of "@ + decimal(
        max_depth as nat,
    )
}

/// The text that refuses a batch number which does not fit in 64 bits.
pub open spec fn bad_batch_id_message(batch_id: nat) -> Seq<char> {
    "Batch ID does not fit in 64 bits: "@ + decimal(batch_id)
}

/// Whether the manager, in state `pre` and decided on `which`, may end in state
/// `post` with the result `result`, for a counted entry `entry` of batch `batch`.
pub open spec fn step_relation(
    config: RollbackConfig,
    pre: ManagerState,
    post: ManagerState,
    update: FinalityUpdate,
    context: RollbackContext,
    result: FinalityResult<Vec<RollbackAction>>,
) -> bool {
    let batch = update.tag.batch_id@ as u64;
    let entry = counted_entry(pre.pending, update, batch, config.required_confirmations);
    match verdict(config, pre, update, context) {
        Verdict::BadBatchId => {
            &&& post == pre
            &&& result matches Err(FinalityError::InvalidFinalityData(text))
            &&& text@ == bad_batch_id_message(update.tag.batch_id@)
        },
        Verdict::Ignored => {
            &&& post == pre
            &&& result matches Ok(actions)
            &&& actions@ == Seq::<RollbackAction>::empty()
        },
        Verdict::StatusChange => {
            &&& post == pre
            &&& result matches Ok(actions)
            &&& actions@ == seq![RollbackAction::StatusChanged(batch)]
        },
        Verdict::Wait => {
            &&& post.history == pre.history
            &&& post.finalized == pre.finalized
            &&& post.pending == pre.pending.insert(batch, entry)
            &&& result matches Ok(actions)
            &&& actions@ == seq![RollbackAction::PendingRollback(batch)]
        },
        Verdict::TooDeep => {
            &&& post.history == pre.history
            &&& post.finalized == pre.finalized
            &&& post.pending == pre.pending.insert(batch, entry)
            &&& result matches Err(FinalityError::RollbackError(text))
            &&& text@ == too_deep_message(batch, config.max_rollback_depth)
        },
        Verdict::Execute => {
            &&& post.finalized == pre.finalized
            &&& post.pending == pre.pending.remove(batch)
            &&& post.history.dom() == pre.history.dom().insert(batch)
            &&& forall|k: u64| k != batch && pre.history.contains_key(k) ==> post.history[k]
                == #[trigger] pre.history[k]
            &&& record_of(post.history[batch], batch, entry, context.mapping->0, context.head_block)
            &&& result matches Ok(actions)
            &&& actions@ == seq![RollbackAction::ExecuteRollback(batch)]
        },
        Verdict::Finalize => {
            &&& post.history == pre.history
            &&& post.finalized == pre.finalized.insert(batch)
            &&& post.pending == pre.pending.remove(batch)
            &&& result matches Ok(actions)
            &&& actions@ == seq![RollbackAction::Finalized(batch)]
        },
    }
}

/// Whether the manager, in state `pre`, may end in state `post` with the result
/// `result` after it counted one confirmation for the rollback `entry` of `batch`.
pub open spec fn counted_relation(
    config: RollbackConfig,
    pre: ManagerState,
    post: ManagerState,
    batch: u64,
    entry: PendingRollback,
    context: RollbackContext,
    result: FinalityResult<Vec<RollbackAction>>,
) -> bool {
    &&& post.finalized == pre.finalized
    &&& match verdict_counted(config, bumped(entry), context) {
        Verdict::TooDeep => {
            &&& post.history == pre.history
            &&& post.pending == pre.pending.insert(batch, bumped(entry))
            &&& result matches Err(FinalityError::RollbackError(text))
            &&& text@ == too_deep_message(batch, config.max_rollback_depth)
        },
        Verdict::Execute => {
            &&& post.pending == pre.pending.remove(batch)
            &&& post.history.dom() == pre.history.dom().insert(batch)
            &&& forall|k: u64| k != batch && pre.history.contains_key(k) ==> post.history[k]
                == #[trigger] pre.history[k]
            &&& record_of(
                post.history[batch],
                batch,
                bumped(entry),
                context.mapping->0,
                context.head_block,
            )
            &&& result matches Ok(actions)
            &&& actions@ == seq![RollbackAction::ExecuteRollback(batch)]
        },
        _ => {
            &&& post.history == pre.history
            &&& post.pending == pre.pending.insert(batch, bumped(entry))
            &&& result matches Ok(actions)
            &&& actions@ == seq![RollbackAction::PendingRollback(batch)]
        },
    }
}

/// Whether a later L1 block confirms the pending rollback of `batch`: the
/// rollback waits, was not executed, and the block lies after its event.
pub open spec fn confirms(pre: ManagerState, batch: u64, l1_block: u64) -> bool {
    &&& pre.pending.contains_key(batch)
    &&& !pre.history.contains_key(batch)
    &&& !pre.finalized.contains(batch)
    &&& l1_block > pre.pending[batch].l1_block_number
}

/// The pending rollbacks that are dropped at `cutoff`: those detected at or
/// before it.
pub open spec fn expired(pending: Map<u64, PendingRollback>, cutoff: u64) -> Set<u64> {
    Set::new(|k: u64| pending.contains_key(k) && pending[k].timestamp <= cutoff)
}

/// The latest time of detection that has timed out at `now`.
pub open spec fn timeout_cutoff(now: u64, timeout_secs: u64) -> u64 {
    if now >= timeout_secs {
        (now - timeout_secs) as u64
    } else {
        0
    }
}

/// Whether no batch is in two states at once.
pub open spec fn states_apart(state: ManagerState) -> bool {
    &&& forall|k: u64| state.pending.contains_key(k) ==> !state.history.contains_key(k)
    &&& forall|k: u64| state.pending.contains_key(k) ==> !state.finalized.contains(k)
    &&& forall|k: u64| state.history.contains_key(k) ==> !state.finalized.contains(k)
}

/// Where the decision on an event does not depend on what the index and the
/// engine know, the manager does the same whatever it is told of them.
pub proof fn lemma_context_not_needed(
    config: RollbackConfig,
    pre: ManagerState,
    post: ManagerState,
    update: FinalityUpdate,
    told: RollbackContext,
    other: RollbackContext,
    result: FinalityResult<Vec<RollbackAction>>,
)
    requires
        !needs_context(config, pre, update),
        step_relation(config, pre, post, update, told, result),
    ensures
        step_relation(config, pre, post, update, other, result),
        update.tag.batch_id@ <= u64::MAX ==> result is Ok,
        update.tag.batch_id@ > u64::MAX ==> result is Err,
        result matches Ok(actions) ==> actions@.len() == 0 || actions@ == seq![
            RollbackAction::PendingRollback(update.tag.batch_id@ as u64),
        ] || actions@ == seq![RollbackAction::StatusChanged(update.tag.batch_id@ as u64)],
{
}

/// Where the rollback of a batch does not come due with its next
/// confirmation, counting that confirmation keeps the rollback waiting,
/// whatever the index and the engine know of the batch.
pub proof fn lemma_count_not_due(
    config: RollbackConfig,
    pre: ManagerState,
    post: ManagerState,
    batch: u64,
    told: RollbackContext,
    other: RollbackContext,
    result: FinalityResult<Vec<RollbackAction>>,
)
    requires
        pre.pending.contains_key(batch),
        !due_next(config, pre.pending, batch),
        counted_relation(config, pre, post, batch, pre.pending[batch], told, result),
    ensures
        counted_relation(config, pre, post, batch, pre.pending[batch], other, result),
        result matches Ok(actions) && actions@ == seq![RollbackAction::PendingRollback(batch)],
{
}

/// A batch that was finalized stays so: a later rollback event for it changes
/// nothing and asks for nothing.
pub proof fn lemma_finalized_ignores_rollback(
    config: RollbackConfig,
    pre: ManagerState,
    post: ManagerState,
    update: FinalityUpdate,
    context: RollbackContext,
    result: FinalityResult<Vec<RollbackAction>>,
)
    requires
        update.event_type == FinalityEventType::RolledBack,
        update.tag.batch_id@ <= u64::MAX,
        pre.finalized.contains(update.tag.batch_id@ as u64),
        step_relation(config, pre, post, update, context, result),
    ensures
        post == pre,
        result matches Ok(actions) && actions@.len() == 0,
{
}

/// A rollback that was executed stays so: any later rollback or finalization
/// event for the batch changes nothing and asks for nothing.
pub proof fn lemma_executed_ignores_events(
    config: RollbackConfig,
    pre: ManagerState,
    post: ManagerState,
    update: FinalityUpdate,
    context: RollbackContext,
    result: FinalityResult<Vec<RollbackAction>>,
)
    requires
        update.event_type != FinalityEventType::StatusChanged,
        update.tag.batch_id@ <= u64::MAX,
        pre.history.contains_key(update.tag.batch_id@ as u64),
        step_relation(config, pre, post, update, context, result),
    ensures
        post == pre,
        result matches Ok(actions) && actions@.len() == 0,
{
}

/// No event takes a batch out of a final state: what was finalized stays
/// finalized, what was executed stays executed with the same record.
pub proof fn lemma_final_states_stay(
    config: RollbackConfig,
    pre: ManagerState,
    post: ManagerState,
    update: FinalityUpdate,
    context: RollbackContext,
    result: FinalityResult<Vec<RollbackAction>>,
)
    requires
        step_relation(config, pre, post, update, context, result),
    ensures
        pre.finalized.subset_of(post.finalized),
        forall|k: u64| #[trigger]
            pre.history.contains_key(k) ==> post.history.contains_key(k) && post.history[k]
                == pre.history[k],
{
}

/// No event puts a batch in two states at once.
pub proof fn lemma_states_stay_apart(
    config: RollbackConfig,
    pre: ManagerState,
    post: ManagerState,
    update: FinalityUpdate,
    context: RollbackContext,
    result: FinalityResult<Vec<RollbackAction>>,
)
    requires
        states_apart(pre),
        step_relation(config, pre, post, update, context, result),
    ensures
        states_apart(post),
{
}

/// A rollback that would unwind more blocks than allowed is refused: with its
/// confirmations reached it yields an error, no action, and no executed rollback.
pub proof fn lemma_too_deep_is_refused(
    config: RollbackConfig,
    pre: ManagerState,
    post: ManagerState,
    update: FinalityUpdate,
    context: RollbackContext,
    result: FinalityResult<Vec<RollbackAction>>,
)
    requires
        update.event_type == FinalityEventType::RolledBack,
        update.tag.batch_id@ <= u64::MAX,
        context.mapping is Some,
        affected_count(context.mapping->0, context.head_block) > config.max_rollback_depth,
        step_relation(config, pre, post, update, context, result),
    ensures
        result is Err ==> result matches Err(FinalityError::RollbackError(_)),
        result matches Ok(actions) ==> !actions@.contains(
            RollbackAction::ExecuteRollback(update.tag.batch_id@ as u64),
        ),
        post.history == pre.history,
{
    let batch = update.tag.batch_id@ as u64;
    match result {
        Ok(actions) => {
            if actions@.contains(RollbackAction::ExecuteRollback(batch)) {
                let i = choose|i: int| 0 <= i < actions@.len() && actions@[i]
                    == RollbackAction::ExecuteRollback(batch);
                assert(actions@[i] == RollbackAction::ExecuteRollback(batch));
            }
        },
        Err(_) => {},
    }
}

/// A finalization event for a batch whose rollback waits removes the pending
/// rollback and asks for no unwind.
pub proof fn lemma_finalization_supersedes_rollback(
    config: RollbackConfig,
    pre: ManagerState,
    post: ManagerState,
    update: FinalityUpdate,
    context: RollbackContext,
    result: FinalityResult<Vec<RollbackAction>>,
)
    requires
        update.event_type == FinalityEventType::Finalized,
        update.tag.batch_id@ <= u64::MAX,
        pre.pending.contains_key(update.tag.batch_id@ as u64),
        !pre.history.contains_key(update.tag.batch_id@ as u64),
        !pre.finalized.contains(update.tag.batch_id@ as u64),
        context.mapping is Some,
        step_relation(config, pre, post, update, context, result),
    ensures
        !post.pending.contains_key(update.tag.batch_id@ as u64),
        post.finalized.contains(update.tag.batch_id@ as u64),
        post.history == pre.history,
        result matches Ok(actions) && actions@ == seq![
            RollbackAction::Finalized(update.tag.batch_id@ as u64),
        ],
{
}

/// Tracks rollbacks by batch.
#[derive(Debug)]
pub struct RollbackManager {
    /// Rollbacks that were executed.
    rollback_history: HashMap<u64, RollbackRecord>,
    /// Rollbacks that wait for confirmations.
    pending_rollbacks: HashMap<u64, PendingRollback>,
    /// Batches that were finalized.
    finalized_batches: HashSet<u64>,
    /// Configuration.
    config: RollbackConfig,
}

impl RollbackManager {
    /// The state of the manager.
    pub closed spec fn state(&self) -> ManagerState {
        ManagerState {
            history: self.rollback_history@,
            pending: self.pending_rollbacks@,
            finalized: self.finalized_batches@,
        }
    }

    /// The configuration of the manager.
    pub closed spec fn config(&self) -> RollbackConfig {
        self.config
    }

    /// A manager that has seen no event.
    pub fn new(config: RollbackConfig) -> (r: RollbackManager)
        ensures
            r.config() == config,
            r.state().history == Map::<u64, RollbackRecord>::empty(),
            r.state().pending == Map::<u64, PendingRollback>::empty(),
            r.state().finalized == Set::<u64>::empty(),
            states_apart(r.state()),
    {
        RollbackManager {
            rollback_history: HashMap::new(),
            pending_rollbacks: HashMap::new(),
            finalized_batches: HashSet::new(),
            config,
        }
    }

    /// Takes one finality event and says what the orchestrator has to do.
    ///
    /// `context` holds what the index and the engine know of the batch that
    /// the event speaks of.
    pub fn process_finality_update(&mut self, update: FinalityUpdate, context: RollbackContext) -> (r:
        FinalityResult<Vec<RollbackAction>>)
        ensures
            final(self).config() == old(self).config(),
            step_relation(old(self).config(), old(self).state(), final(self).state(), update, context, r),
            states_apart(old(self).state()) ==> states_apart(final(self).state()),
    {
        let batch: u64 = match update.tag.batch_id.to_u64() {
            Some(b) => b,
            None => {
                let n = u256_to_decimal(update.tag.batch_id);
                let mut text = String::from_str("Batch ID does not fit in 64 bits: ");
                text.append(n.as_str());
                return Err(FinalityError::InvalidFinalityData(text));
            },
        };
        match update.event_type {
            FinalityEventType::RolledBack => self.handle_rollback(update, batch, context),
            FinalityEventType::Finalized => self.handle_finalization(update, batch, context),
            FinalityEventType::StatusChanged => self.handle_status_change(update, batch),
        }
    }

    /// Takes a rollback event for `batch`.
    fn handle_rollback(&mut self, update: FinalityUpdate, batch: u64, context: RollbackContext) -> (r:
        FinalityResult<Vec<RollbackAction>>)
        requires
            update.tag.batch_id@ == batch,
            update.event_type == FinalityEventType::RolledBack,
        ensures
            final(self).config() == old(self).config(),
            step_relation(old(self).config(), old(self).state(), final(self).state(), update, context, r),
    {
        if self.rollback_history.contains_key(&batch) || self.finalized_batches.contains(&batch) {
            return Ok(Vec::new());
        }
        let entry: PendingRollback = match self.pending_rollbacks.get(&batch) {
            Some(e) => *e,
            None => PendingRollback {
                batch_id: batch,
                batch_hash: update.tag.l1_block_hash,
                l1_block_number: update.l1_block_number,
                tx_hash: update.tx_hash,
                timestamp: update.detected_at,
                confirmations: 0,
                required_confirmations: self.config.required_confirmations,
            },
        };
        self.count_confirmation(batch, entry, context)
    }

    /// Counts one confirmation for `entry`, the rollback of `batch`, and executes
    /// the rollback where it has enough of them.
    fn count_confirmation(&mut self, batch: u64, entry: PendingRollback, context: RollbackContext) -> (r:
        FinalityResult<Vec<RollbackAction>>)
        requires
            !old(self).state().history.contains_key(batch),
        ensures
            final(self).config() == old(self).config(),
            final(self).state().finalized == old(self).state().finalized,
            match verdict_counted(old(self).config(), bumped(entry), context) {
                Verdict::TooDeep => {
                    &&& final(self).state().history == old(self).state().history
                    &&& final(self).state().pending == old(self).state().pending.insert(
                        batch,
                        bumped(entry),
                    )
                    &&& r matches Err(FinalityError::RollbackError(text))
                    &&& text@ == too_deep_message(batch, old(self).config().max_rollback_depth)
                },
                Verdict::Execute => {
                    &&& final(self).state().pending == old(self).state().pending.remove(batch)
                    &&& final(self).state().history.dom() == old(self).state().history.dom().insert(
                        batch,
                    )
                    &&& forall|k: u64|
                        k != batch && old(self).state().history.contains_key(k)
                            ==> final(self).state().history[k]
                            == #[trigger] old(self).state().history[k]
                    &&& record_of(
                        final(self).state().history[batch],
                        batch,
                        bumped(entry),
                        context.mapping->0,
                        context.head_block,
                    )
                    &&& r matches Ok(actions)
                    &&& actions@ == seq![RollbackAction::ExecuteRollback(batch)]
                },
                _ => {
                    &&& final(self).state().history == old(self).state().history
                    &&& final(self).state().pending == old(self).state().pending.insert(
                        batch,
                        bumped(entry),
                    )
                    &&& r matches Ok(actions)
                    &&& actions@ == seq![RollbackAction::PendingRollback(batch)]
                },
            },
    {
        let counted = Self::check_rollback_confirmations(entry);
        let enough: bool = counted.confirmations >= counted.required_confirmations;
        if enough && self.config.auto_execute {
            match context.mapping {
                Some(mapping) => {
                    return self.execute_rollback(batch, counted, mapping, context.head_block);
                },
                None => {},
            }
        }
        self.pending_rollbacks.insert(batch, counted);
        let mut actions: Vec<RollbackAction> = Vec::new();
        actions.push(RollbackAction::PendingRollback(batch));
        Ok(actions)
    }

    /// The entry with one more confirmation.
    fn check_rollback_confirmations(entry: PendingRollback) -> (r: PendingRollback)
        ensures
            r == bumped(entry),
    {
        let mut out = entry;
        if out.confirmations < u64::MAX {
            out.confirmations = out.confirmations + 1;
        }
        out
    }

    /// Executes the confirmed rollback `entry` of `batch`, unless it would
    /// unwind more blocks than allowed.
    fn execute_rollback(
        &mut self,
        batch: u64,
        entry: PendingRollback,
        mapping: BatchMapping,
        head: u64,
    ) -> (r: FinalityResult<Vec<RollbackAction>>)
        requires
            !old(self).state().history.contains_key(batch),
        ensures
            final(self).config() == old(self).config(),
            final(self).state().finalized == old(self).state().finalized,
            affected_count(mapping, head) > old(self).config().max_rollback_depth ==> {
                &&& final(self).state().history == old(self).state().history
                &&& final(self).state().pending == old(self).state().pending.insert(batch, entry)
                &&& r matches Err(FinalityError::RollbackError(text))
                &&& text@ == too_deep_message(batch, old(self).config().max_rollback_depth)
            },
            affected_count(mapping, head) <= old(self).config().max_rollback_depth ==> {
                &&& final(self).state().pending == old(self).state().pending.remove(batch)
                &&& final(self).state().history.dom() == old(self).state().history.dom().insert(
                    batch,
                )
                &&& forall|k: u64|
                    k != batch && old(self).state().history.contains_key(k)
                        ==> final(self).state().history[k]
                        == #[trigger] old(self).state().history[k]
                &&& record_of(final(self).state().history[batch], batch, entry, mapping, head)
                &&& r matches Ok(actions)
                &&& actions@ == seq![RollbackAction::ExecuteRollback(batch)]
            },
    {
        match Self::calculate_affected_blocks(mapping, head, self.config.max_rollback_depth) {
            None => {
                self.pending_rollbacks.insert(batch, entry);
                let b = u64_to_decimal(batch);
                let m = u64_to_decimal(self.config.max_rollback_depth);
                let text = concat4(
                    "Rollback of batch ",
                    b.as_str(),
                    " exceeds the maximum depth of ",
                    m.as_str(),
                );
                Err(FinalityError::RollbackError(text))
            },
            Some(blocks) => {
                self.pending_rollbacks.remove(&batch);
                let record = RollbackRecord {
                    batch_id: batch,
                    batch_hash: entry.batch_hash,
                    l1_block_number: entry.l1_block_number,
                    tx_hash: entry.tx_hash,
                    timestamp: entry.timestamp,
                    reason: String::from_str("L1 finality rollback"),
                    affected_blocks: blocks,
                };
                self.rollback_history.insert(batch, record);
                let mut actions: Vec<RollbackAction> = Vec::new();
                actions.push(RollbackAction::ExecuteRollback(batch));
                proof {
                    assert(self.state().history.dom() =~= old(self).state().history.dom().insert(
                        batch,
                    ));
                    assert(actions@ =~= seq![RollbackAction::ExecuteRollback(batch)]);
                }
                Ok(actions)
            },
        }
    }

    /// The blocks that a rollback of the batch unwinds, or `None` where they
    /// are more than `max_depth`.
    pub fn calculate_affected_blocks(mapping: BatchMapping, head: u64, max_depth: u64) -> (r: Option<
        Vec<u64>,
    >)
        ensures
            affected_count(mapping, head) > max_depth ==> r is None,
            affected_count(mapping, head) <= max_depth ==> r is Some && r->0@ == affected_blocks(
                mapping,
                head,
            ),
    {
        let last: u64 = if head >= mapping.end_block {
            head
        } else {
            mapping.end_block
        };
        if last < mapping.start_block {
            let out: Vec<u64> = Vec::new();
            assert(out@ =~= affected_blocks(mapping, head));
            return Some(out);
        }
        let span: u64 = last - mapping.start_block;
        if span >= max_depth {
            return None;
        }
        let mut out: Vec<u64> = Vec::new();
        let mut offset: u64 = 0;
        while offset <= span
            invariant
                span == last - mapping.start_block,
                last >= mapping.start_block,
                span < u64::MAX,
                offset <= span + 1,
                out@.len() == offset,
                forall|i: int| 0 <= i < offset ==> out@[i] == (mapping.start_block + i) as u64,
            decreases span + 1 - offset,
        {
            out.push(mapping.start_block + offset);
            offset = offset + 1;
        }
        assert(out@ =~= affected_blocks(mapping, head));
        Some(out)
    }

    /// Takes a finalization event for `batch`.
    fn handle_finalization(&mut self, update: FinalityUpdate, batch: u64, context: RollbackContext) -> (r:
        FinalityResult<Vec<RollbackAction>>)
        requires
            update.tag.batch_id@ == batch,
            update.event_type == FinalityEventType::Finalized,
        ensures
            final(self).config() == old(self).config(),
            step_relation(old(self).config(), old(self).state(), final(self).state(), update, context, r),
    {
        if self.rollback_history.contains_key(&batch) || self.finalized_batches.contains(&batch) {
            return Ok(Vec::new());
        }
        if context.mapping.is_none() {
            return Ok(Vec::new());
        }
        self.pending_rollbacks.remove(&batch);
        self.finalized_batches.insert(batch);
        let mut actions: Vec<RollbackAction> = Vec::new();
        actions.push(RollbackAction::Finalized(batch));
        Ok(actions)
    }

    /// Takes a change of status for `batch`.
    fn handle_status_change(&mut self, update: FinalityUpdate, batch: u64) -> (r: FinalityResult<
        Vec<RollbackAction>,
    >)
        requires
            update.tag.batch_id@ == batch,
            update.event_type == FinalityEventType::StatusChanged,
        ensures
            final(self).config() == old(self).config(),
            final(self).state() == old(self).state(),
            r matches Ok(actions) && actions@ == seq![RollbackAction::StatusChanged(batch)],
    {
        let mut actions: Vec<RollbackAction> = Vec::new();
        actions.push(RollbackAction::StatusChanged(batch));
        Ok(actions)
    }

    /// The rollbacks that were executed, by batch.
    pub fn get_rollback_history(&self) -> (r: &HashMap<u64, RollbackRecord>)
        ensures
            r@ == self.state().history,
    {
        &self.rollback_history
    }

    /// The rollbacks that wait for confirmations, by batch.
    pub fn get_pending_rollbacks(&self) -> (r: &HashMap<u64, PendingRollback>)
        ensures
            r@ == self.state().pending,
    {
        &self.pending_rollbacks
    }

    /// Whether the rollback of the batch was executed.
    pub fn is_batch_rolled_back(&self, batch_id: u64) -> (r: bool)
        ensures
            r == self.state().history.contains_key(batch_id),
    {
        self.rollback_history.contains_key(&batch_id)
    }

    /// Whether the batch was finalized.
    pub fn is_batch_finalized(&self, batch_id: u64) -> (r: bool)
        ensures
            r == self.state().finalized.contains(batch_id),
    {
        self.finalized_batches.contains(&batch_id)
    }

    /// Whether the batch is in a final state: rolled back or finalized.
    pub fn is_settled(&self, batch_id: u64) -> (r: bool)
        ensures
            r == settled(self.state(), batch_id),
    {
        self.rollback_history.contains_key(&batch_id) || self.finalized_batches.contains(&batch_id)
    }

    /// Whether an L1 block confirms the pending rollback of the batch: the
    /// rollback waits and the block lies after its event.
    pub fn awaits_confirmation(&self, batch_id: u64, l1_block: u64) -> (r: bool)
        ensures
            r == confirms(self.state(), batch_id, l1_block),
    {
        if self.is_settled(batch_id) {
            return false;
        }
        match self.pending_rollbacks.get(&batch_id) {
            Some(entry) => l1_block > entry.l1_block_number,
            None => false,
        }
    }

    /// Whether the rollback of the batch comes due with its next confirmation.
    pub fn due_with_next(&self, batch_id: u64) -> (r: bool)
        ensures
            r == due_next(self.config(), self.state().pending, batch_id),
    {
        if !self.config.auto_execute {
            return false;
        }
        match self.pending_rollbacks.get(&batch_id) {
            Some(entry) => {
                let counted = Self::check_rollback_confirmations(*entry);
                counted.confirmations >= entry.required_confirmations
            },
            None => 1 >= self.config.required_confirmations,
        }
    }

    /// Whether the decision on an event depends on what the index and the
    /// engine know of the batch.
    pub fn decision_needs_context(&self, update: &FinalityUpdate) -> (r: bool)
        ensures
            r == needs_context(self.config(), self.state(), *update),
    {
        match update.tag.batch_id.to_u64() {
            None => false,
            Some(batch) => match update.event_type {
                FinalityEventType::StatusChanged => false,
                FinalityEventType::RolledBack => !self.is_settled(batch) && self.due_with_next(
                    batch,
                ),
                FinalityEventType::Finalized => !self.is_settled(batch),
            },
        }
    }

    /// The record of the executed rollback of the batch, if there is one.
    pub fn get_rollback_record(&self, batch_id: u64) -> (r: Option<&RollbackRecord>)
        ensures
            r == if self.state().history.contains_key(batch_id) {
                Some(&self.state().history[batch_id])
            } else {
                None
            },
    {
        self.rollback_history.get(&batch_id)
    }
    /// Takes note that L1 has reached `l1_block`: where the rollback of
    /// `batch_id` waits and the block lies after its event, this counts as one
    /// more confirmation. Else nothing happens.
    pub fn observe_l1_block(&mut self, batch_id: u64, l1_block: u64, context: RollbackContext) -> (r:
        FinalityResult<Vec<RollbackAction>>)
        ensures
            final(self).config() == old(self).config(),
            confirms(old(self).state(), batch_id, l1_block) ==> counted_relation(
                old(self).config(),
                old(self).state(),
                final(self).state(),
                batch_id,
                old(self).state().pending[batch_id],
                context,
                r,
            ),
            !confirms(old(self).state(), batch_id, l1_block) ==> final(self).state()
                == old(self).state() && (r matches Ok(actions) && actions@.len() == 0),
            states_apart(old(self).state()) ==> states_apart(final(self).state()),
    {
        if self.rollback_history.contains_key(&batch_id) || self.finalized_batches.contains(
            &batch_id,
        ) {
            return Ok(Vec::new());
        }
        let entry: PendingRollback = match self.pending_rollbacks.get(&batch_id) {
            Some(e) => *e,
            None => {
                return Ok(Vec::new());
            },
        };
        if l1_block <= entry.l1_block_number {
            return Ok(Vec::new());
        }
        self.count_confirmation(batch_id, entry, context)
    }

    /// Drops the pending rollbacks that were detected at or before `cutoff`,
    /// and says which batches they were for.
    pub fn expire_pending(&mut self, cutoff: u64) -> (dropped: Vec<u64>)
        ensures
            final(self).config() == old(self).config(),
            final(self).state().history == old(self).state().history,
            final(self).state().finalized == old(self).state().finalized,
            final(self).state().pending == old(self).state().pending.remove_keys(
                expired(old(self).state().pending, cutoff),
            ),
            dropped@.no_duplicates(),
            dropped@.to_set() == expired(old(self).state().pending, cutoff),
            states_apart(old(self).state()) ==> states_apart(final(self).state()),
    {
        let keys: Vec<u64> = keys_of(&self.pending_rollbacks);
        let ghost before = self.pending_rollbacks@;
        let mut dropped: Vec<u64> = Vec::new();
        let mut i: usize = 0;
        while i < keys.len()
            invariant
                i <= keys@.len(),
                keys@.no_duplicates(),
                forall|k: u64| keys@.contains(k) <==> before.contains_key(k),
                self.config == old(self).config,
                self.rollback_history == old(self).rollback_history,
                self.finalized_batches == old(self).finalized_batches,
                before == old(self).pending_rollbacks@,
                dropped@.no_duplicates(),
                forall|k: u64|
                    dropped@.contains(k) <==> (exists|j: int|
                        0 <= j < i && keys@[j] == k && before[k].timestamp <= cutoff),
                self.pending_rollbacks@ == before.remove_keys(dropped@.to_set()),
            decreases keys@.len() - i,
        {
            let k: u64 = keys[i];
            assert(keys@.contains(k));
            let stale: bool = match self.pending_rollbacks.get(&k) {
                Some(e) => e.timestamp <= cutoff,
                None => false,
            };
            assert(!dropped@.contains(k)) by {
                if dropped@.contains(k) {
                    let j = choose|j: int| 0 <= j < i && keys@[j] == k;
                    assert(keys@[j] == keys@[i as int]);
                }
            }
            assert(self.pending_rollbacks@.contains_key(k));
            assert(self.pending_rollbacks@[k] == before[k]);
            if stale {
                self.pending_rollbacks.remove(&k);
                let ghost prior = dropped@;
                dropped.push(k);
                proof {
                    assert(dropped@ == prior.push(k));
                    assert forall|x: u64| dropped@.contains(x) <==> (prior.contains(x) || x
                        == k) by {
                        if dropped@.contains(x) {
                            let p = choose|p: int| 0 <= p < dropped@.len() && dropped@[p] == x;
                            if p < prior.len() {
                                assert(prior[p] == x);
                            }
                        }
                        if prior.contains(x) {
                            let p = choose|p: int| 0 <= p < prior.len() && prior[p] == x;
                            assert(dropped@[p] == x);
                        }
                        if x == k {
                            assert(dropped@[prior.len() as int] == k);
                        }
                    }
                    assert(dropped@.to_set() =~= prior.to_set().insert(k));
                    assert(self.pending_rollbacks@ =~= before.remove_keys(dropped@.to_set()));
                    assert forall|x: u64| dropped@.contains(x) <==> (exists|j: int|
                        0 <= j < i + 1 && keys@[j] == x && before[x].timestamp <= cutoff) by {
                        if dropped@.contains(x) {
                            if x == k {
                                assert(keys@[i as int] == x);
                            } else {
                                assert(prior.contains(x));
                            }
                        }
                        if exists|j: int|
                            0 <= j < i + 1 && keys@[j] == x && before[x].timestamp <= cutoff {
                            let j = choose|j: int|
                                0 <= j < i + 1 && keys@[j] == x && before[x].timestamp <= cutoff;
                            if j < i {
                                assert(prior.contains(x));
                                assert(dropped@[prior.len() as int] == k);
                                let p = choose|p: int| 0 <= p < prior.len() && prior[p] == x;
                                assert(dropped@[p] == x);
                            } else {
                                assert(x == k);
                                assert(dropped@[prior.len() as int] == k);
                            }
                        }
                    }
                }
            } else {
                proof {
                    assert forall|x: u64| dropped@.contains(x) <==> (exists|j: int|
                        0 <= j < i + 1 && keys@[j] == x && before[x].timestamp <= cutoff) by {
                        if exists|j: int|
                            0 <= j < i + 1 && keys@[j] == x && before[x].timestamp <= cutoff {
                            let j = choose|j: int|
                                0 <= j < i + 1 && keys@[j] == x && before[x].timestamp <= cutoff;
                            if j == i {
                                assert(x == k);
                            }
                        }
                    }
                }
            }
            i = i + 1;
        }
        proof {
            assert(dropped@.to_set() =~= expired(before, cutoff)) by {
                assert forall|x: u64| dropped@.to_set().contains(x) <==> expired(
                    before,
                    cutoff,
                ).contains(x) by {
                    if expired(before, cutoff).contains(x) {
                        assert(keys@.contains(x));
                        let j = choose|j: int| 0 <= j < keys@.len() && keys@[j] == x;
                        assert(0 <= j < i && keys@[j] == x && before[x].timestamp <= cutoff);
                    }
                }
            }
        }
        dropped
    }

    /// Drops the pending rollbacks that have waited for the configured timeout
    /// or longer at `now`, and says which batches they were for.
    pub fn collect_timed_out(&mut self, now: u64) -> (dropped: Vec<u64>)
        ensures
            final(self).config() == old(self).config(),
            final(self).state().history == old(self).state().history,
            final(self).state().finalized == old(self).state().finalized,
            final(self).state().pending == old(self).state().pending.remove_keys(
                expired(
                    old(self).state().pending,
                    timeout_cutoff(now, duration_secs(old(self).config().rollback_timeout)),
                ),
            ),
            dropped@.no_duplicates(),
            dropped@.to_set() == expired(
                old(self).state().pending,
                timeout_cutoff(now, duration_secs(old(self).config().rollback_timeout)),
            ),
    {
        let cutoff: u64 = now.saturating_sub(self.config.rollback_timeout.as_secs());
        self.expire_pending(cutoff)
    }

    /// Drops the pending rollbacks that are older than `max_age` by the wall
    /// clock. Executed rollbacks and finalized batches are kept: their state is
    /// final.
    pub fn cleanup_old_records(&mut self, max_age: Duration)
        ensures
            final(self).config() == old(self).config(),
            final(self).state().history == old(self).state().history,
            final(self).state().finalized == old(self).state().finalized,
            exists|cutoff: u64| final(self).state().pending
                == old(self).state().pending.remove_keys(
                expired(old(self).state().pending, cutoff),
            ),
    {
        let now: u64 = unix_now();
        let cutoff: u64 = now.saturating_sub(max_age.as_secs());
        let _ = self.expire_pending(cutoff);
    }
}

} // verus!
