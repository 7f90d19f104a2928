//! The finality pipeline: hand the oracle's tags to the rollback manager and
//! carry out what it asks for on the engine, the index and the checkpoint.

use vstd::prelude::*;
use crate::datastream::checkpoint::{Checkpoint, CheckpointStorage};
use crate::datastream::error::DatastreamError;
use crate::engine::block_import::{BlockImporter, ChainState};
use crate::engine::error::EngineFacadeError;
use crate::engine::finality::{final_after, FinalityManager};
use crate::finality::error::FinalityError;
use crate::finality::oracle::{FinalityEventType, FinalityUpdate};
use crate::finality::rollback::{
    bad_batch_id_message, confirms, counted_relation, due_next, lemma_context_not_needed,
    lemma_count_not_due, needs_context, step_relation, RollbackAction, RollbackConfig,
    RollbackContext, RollbackManager,
};
use crate::ingest::assembler::BatchMapping;
use crate::ingest::error::IngestError;
use crate::ingest::mapping::{IndexState, MappingStorage};
use crate::pipeline::ingest::IngestPipeline;
use crate::util::count::{bump, bumped};
use crate::types::bytes::FixedBytes;
use crate::types::finality::{FinalityStatus, FinalityTag};
use crate::types::u256::U256;

verus! {

/// How carrying out a finality action failed.
#[derive(Debug, Clone, PartialEq, Eq)]
pub enum FinalityFailure {
    /// The rollback manager refused the event. Nothing else was touched.
    Manager(FinalityError),
    /// The index holds no record of the batch. Nothing was changed.
    MissingMapping(u64),
    /// The batch begins at block zero, below which nothing can be unwound.
    /// Nothing was changed.
    GenesisRollback(u64),
    /// The engine failed.
    Engine(EngineFacadeError),
    /// The index failed.
    Index(IngestError),
    /// The checkpoint store failed.
    Checkpoint(DatastreamError),
}

/// Counts of what the finality pipeline did.
#[derive(Debug, Clone, Copy, PartialEq, Eq)]
pub struct FinalityStats {
    /// Rollbacks executed.
    pub rollback_count: u64,
    /// Batches finalized.
    pub finalized_count: u64,
    /// Ticks on which a rollback was still pending.
    pub pending_count: u64,
    /// Changes of status passed on.
    pub status_changes: u64,
}

/// The counts after an action was carried out.
pub open spec fn counted(before: FinalityStats, action: RollbackAction) -> FinalityStats {
    match action {
        RollbackAction::ExecuteRollback(_) => FinalityStats {
            rollback_count: bumped(before.rollback_count),
            ..before
        },
        RollbackAction::Finalized(_) => FinalityStats {
            finalized_count: bumped(before.finalized_count),
            ..before
        },
        RollbackAction::PendingRollback(_) => FinalityStats {
            pending_count: bumped(before.pending_count),
            ..before
        },
        RollbackAction::StatusChanged(_) => FinalityStats {
            status_changes: bumped(before.status_changes),
            ..before
        },
    }
}

/// The kind of event that a tag stands for: its status, with a pending status
/// taken as a mere change.
pub open spec fn event_type_of(status: FinalityStatus) -> FinalityEventType {
    match status {
        FinalityStatus::Finalized => FinalityEventType::Finalized,
        FinalityStatus::RolledBack => FinalityEventType::RolledBack,
        FinalityStatus::Pending => FinalityEventType::StatusChanged,
    }
}

/// The event that a tag stands for, detected at `now`. An L1 block number
/// beyond 64 bits is taken as `u64::MAX`.
pub open spec fn update_of(tag: FinalityTag, now: u64) -> FinalityUpdate {
    FinalityUpdate {
        tag,
        event_type: event_type_of(tag.status),
        l1_block_number: if tag.l1_block@ <= u64::MAX {
            tag.l1_block@ as u64
        } else {
            u64::MAX
        },
        tx_hash: tag.tx_hash,
        detected_at: now,
    }
}

/// What the index and the engine know of the batch of a tag.
pub open spec fn context_of(index: IndexState, chain: ChainState, tag: FinalityTag) -> RollbackContext {
    RollbackContext {
        mapping: if tag.batch_id@ <= u64::MAX {
            index.batch(tag.batch_id@ as u64)
        } else {
            None
        },
        head_block: chain.head,
    }
}

/// Whether `stored` is the checkpoint after the rollback of `batch_id`: it
/// names the highest batch below that still has a record, and there is none
/// where no batch is left.
pub open spec fn rewound(stored: Option<Checkpoint>, index_before: IndexState, batch_id: u64, now: u64) -> bool {
    match index_before.highest_batch_below(batch_id) {
        Some(survivor) => {
            &&& stored matches Some(checkpoint)
            &&& checkpoint.last_batch_id@ == survivor
            &&& checkpoint.last_batch_hash == index_before.batches[survivor].batch_hash
            &&& checkpoint.last_l1_block@ == 0
            &&& checkpoint.timestamp == now
            &&& checkpoint.metadata@ == Map::<Seq<char>, Seq<char>>::empty()
        },
        None => stored is None,
    }
}

/// What the rollback of `batch_id` leaves: the chain unwound to the block
/// before the batch, the index without the blocks from the batch on and
/// without the batches from this one on, and the checkpoint at the highest
/// batch that is left.
pub open spec fn rollback_applied(
    index_before: IndexState,
    index_after: IndexState,
    chain_before: ChainState,
    chain_after: ChainState,
    stored_after: Option<Checkpoint>,
    batch_id: u64,
    now: u64,
) -> bool {
    let record = index_before.batches[batch_id];
    &&& index_before.batches.contains_key(batch_id)
    &&& record.start_block > 0
    &&& chain_after == chain_before.unwound_to((record.start_block - 1) as u64)
    &&& index_after == index_before.without_blocks_from(
        record.start_block,
    ).without_batches_from(batch_id)
    &&& rewound(stored_after, index_before, batch_id, now)
}

/// The finality pipeline.
pub struct FinalityPipeline {
    /// The rollback manager.
    pub manager: RollbackManager,
    /// Counts of what was done.
    pub stats: FinalityStats,
}

impl FinalityPipeline {
    /// A pipeline with a fresh rollback manager and all counts at zero.
    pub fn new(config: RollbackConfig) -> (r: FinalityPipeline)
        ensures
            r.manager.config() == config,
            r.manager.state().history
                == Map::<u64, crate::finality::rollback::RollbackRecord>::empty(),
            r.manager.state().pending == Map::<
                u64,
                crate::finality::rollback::PendingRollback,
            >::empty(),
            r.manager.state().finalized == Set::<u64>::empty(),
            r.stats == (FinalityStats {
                rollback_count: 0,
                finalized_count: 0,
                pending_count: 0,
                status_changes: 0,
            }),
    {
        FinalityPipeline {
            manager: RollbackManager::new(config),
            stats: FinalityStats {
                rollback_count: 0,
                finalized_count: 0,
                pending_count: 0,
                status_changes: 0,
            },
        }
    }

    /// The event that a tag stands for, detected at `now`.
    pub fn make_update(tag: &FinalityTag, now: u64) -> (r: FinalityUpdate)
        ensures
            r == update_of(*tag, now),
    {
        let event_type = match tag.status {
            FinalityStatus::Finalized => FinalityEventType::Finalized,
            FinalityStatus::RolledBack => FinalityEventType::RolledBack,
            FinalityStatus::Pending => FinalityEventType::StatusChanged,
        };
        let l1_block_number: u64 = match tag.l1_block.to_u64() {
            Some(n) => n,
            None => u64::MAX,
        };
        FinalityUpdate { tag: *tag, event_type, l1_block_number, tx_hash: tag.tx_hash, detected_at: now }
    }

    /// Executes the rollback of a batch on the engine, the index and the checkpoint.
    pub fn execute_rollback<
        S: MappingStorage,
        C: CheckpointStorage,
        B: BlockImporter,
        F: FinalityManager,
    >(state: &mut IngestPipeline<S, C, B, F>, batch_id: u64, now: u64) -> (r: Result<
        (),
        FinalityFailure,
    >)
        ensures
            final(state).validator == old(state).validator,
            final(state).assembler == old(state).assembler,
            final(state).epoch_id == old(state).epoch_id,
            final(state).stats == old(state).stats,
            final(state).engine.final_block() == old(state).engine.final_block(),
            r is Ok ==> rollback_applied(
                old(state).index.index(),
                final(state).index.index(),
                old(state).engine.chain(),
                final(state).engine.chain(),
                final(state).checkpoints.stored(),
                batch_id,
                now,
            ),
            old(state).index.index().sound() && r is Ok ==> final(state).index.index().sound(),
            r matches Err(FinalityFailure::MissingMapping(b)) ==> b == batch_id
                && final(state).same_state(old(state))
                && !old(state).index.index().batches.contains_key(batch_id),
            r matches Err(FinalityFailure::GenesisRollback(b)) ==> b == batch_id
                && final(state).same_state(old(state))
                && old(state).index.index().batches.contains_key(batch_id)
                && old(state).index.index().batches[batch_id].start_block == 0,
            r matches Err(FinalityFailure::Manager(_)) ==> false,
            !old(state).index.index().batches.contains_key(batch_id) ==> (r matches Err(e) && (e
                is MissingMapping || e is Index)),
            old(state).index.index().batches.contains_key(batch_id) && old(
                state,
            ).index.index().batches[batch_id].start_block == 0 ==> (r matches Err(e) && (e
                is GenesisRollback || e is Index)),
    {
        proof {
            if old(state).index.index().sound() && old(state).index.index().batches.contains_key(
                batch_id,
            ) {
                crate::ingest::mapping::lemma_prune_keeps_sound(old(state).index.index(), batch_id);
            }
        }
        // read all that is needed before anything is changed
        let record: BatchMapping = match state.index.load_batch_mapping(batch_id) {
            Ok(Some(m)) => m,
            Ok(None) => {
                return Err(FinalityFailure::MissingMapping(batch_id));
            },
            Err(e) => {
                return Err(FinalityFailure::Index(e));
            },
        };
        if record.start_block == 0 {
            return Err(FinalityFailure::GenesisRollback(batch_id));
        }
        let survivor: Option<u64> = match state.index.highest_batch_below(batch_id) {
            Ok(s) => s,
            Err(e) => {
                return Err(FinalityFailure::Index(e));
            },
        };
        let survivor_hash: Option<FixedBytes<32>> = match survivor {
            Some(k) => match state.index.load_batch_mapping(k) {
                Ok(Some(m)) => Some(m.batch_hash),
                Ok(None) => {
                    assert(false);
                    None
                },
                Err(e) => {
                    return Err(FinalityFailure::Index(e));
                },
            },
            None => None,
        };
        // unwind the engine to the block before the batch
        let target = U256::from_u64(record.start_block - 1);
        match state.engine.rollback_to(target) {
            Ok(_) => {},
            Err(e) => {
                return Err(FinalityFailure::Engine(e));
            },
        }
        // prune the index
        match state.index.prune_blocks_from(record.start_block) {
            Ok(()) => {},
            Err(e) => {
                return Err(FinalityFailure::Index(e));
            },
        }
        match state.index.prune_batches_from(batch_id) {
            Ok(()) => {},
            Err(e) => {
                return Err(FinalityFailure::Index(e));
            },
        }
        // rewind the checkpoint to the highest batch that is left
        match (survivor, survivor_hash) {
            (Some(k), Some(hash)) => {
                let checkpoint = Checkpoint::new(U256::from_u64(k), hash, U256::zero(), now);
                match state.checkpoints.save_checkpoint(checkpoint) {
                    Ok(()) => {},
                    Err(e) => {
                        return Err(FinalityFailure::Checkpoint(e));
                    },
                }
            },
            _ => {
                match state.checkpoints.delete_checkpoint() {
                    Ok(()) => {},
                    Err(e) => {
                        return Err(FinalityFailure::Checkpoint(e));
                    },
                }
            },
        }
        Ok(())
    }

    /// Marks the last block of a batch final at the engine.
    pub fn finalize_batch<
        S: MappingStorage,
        C: CheckpointStorage,
        B: BlockImporter,
        F: FinalityManager,
    >(state: &mut IngestPipeline<S, C, B, F>, batch_id: u64) -> (r: Result<(), FinalityFailure>)
        ensures
            final(state).validator == old(state).validator,
            final(state).assembler == old(state).assembler,
            final(state).epoch_id == old(state).epoch_id,
            final(state).stats == old(state).stats,
            final(state).index.index() == old(state).index.index(),
            final(state).engine.chain() == old(state).engine.chain(),
            final(state).checkpoints.stored() == old(state).checkpoints.stored(),
            r is Ok ==> old(state).index.index().batches.contains_key(batch_id)
                && final(state).engine.final_block() == final_after(
                old(state).engine.final_block(),
                old(state).index.index().batches[batch_id].end_block as nat,
            ),
            r is Err ==> final(state).engine.final_block() == old(state).engine.final_block(),
            r matches Err(FinalityFailure::MissingMapping(b)) ==> b == batch_id
                && !old(state).index.index().batches.contains_key(batch_id),
            r matches Err(FinalityFailure::Manager(_)) ==> false,
            !old(state).index.index().batches.contains_key(batch_id) ==> (r matches Err(e) && (e
                is MissingMapping || e is Index)),
            r is Err ==> r->Err_0 is MissingMapping || r->Err_0 is Index || r->Err_0 is Engine,
    {
        let record: BatchMapping = match state.index.load_batch_mapping(batch_id) {
            Ok(Some(m)) => m,
            Ok(None) => {
                return Err(FinalityFailure::MissingMapping(batch_id));
            },
            Err(e) => {
                return Err(FinalityFailure::Index(e));
            },
        };
        match state.engine.mark_final(U256::from_u64(record.end_block)) {
            Ok(_) => Ok(()),
            Err(e) => Err(FinalityFailure::Engine(e)),
        }
    }

    /// Carries out one action of the rollback manager: a rollback is executed,
    /// a finalization marks the last block of the batch final, and the other
    /// actions change nothing.
    pub fn apply_action<
        S: MappingStorage,
        C: CheckpointStorage,
        B: BlockImporter,
        F: FinalityManager,
    >(action: RollbackAction, state: &mut IngestPipeline<S, C, B, F>, now: u64) -> (r: Result<
        (),
        FinalityFailure,
    >)
        ensures
            final(state).validator == old(state).validator,
            final(state).assembler == old(state).assembler,
            final(state).epoch_id == old(state).epoch_id,
            final(state).stats == old(state).stats,
            match action {
                RollbackAction::ExecuteRollback(batch_id) => {
                    &&& final(state).engine.final_block() == old(state).engine.final_block()
                    &&& r is Ok ==> rollback_applied(
                        old(state).index.index(),
                        final(state).index.index(),
                        old(state).engine.chain(),
                        final(state).engine.chain(),
                        final(state).checkpoints.stored(),
                        batch_id,
                        now,
                    )
                },
                RollbackAction::Finalized(batch_id) => {
                    &&& final(state).index.index() == old(state).index.index()
                    &&& final(state).engine.chain() == old(state).engine.chain()
                    &&& final(state).checkpoints.stored() == old(state).checkpoints.stored()
                    &&& r is Ok ==> old(state).index.index().batches.contains_key(batch_id)
                        && final(state).engine.final_block() == final_after(
                        old(state).engine.final_block(),
                        old(state).index.index().batches[batch_id].end_block as nat,
                    )
                    &&& r is Err ==> final(state).engine.final_block()
                        == old(state).engine.final_block()
                },
                _ => r is Ok && final(state).same_state(old(state)),
            },
            old(state).index.index().sound() && r is Ok ==> final(state).index.index().sound(),
            r matches Err(FinalityFailure::Manager(_)) ==> false,
    {
        match action {
            RollbackAction::ExecuteRollback(batch_id) => Self::execute_rollback(state, batch_id, now),
            RollbackAction::Finalized(batch_id) => Self::finalize_batch(state, batch_id),
            RollbackAction::PendingRollback(_) => Ok(()),
            RollbackAction::StatusChanged(_) => Ok(()),
        }
    }

    /// What the index and the engine know of a batch, for the rollback manager.
    pub fn load_context<S: MappingStorage, C: CheckpointStorage, B: BlockImporter, F: FinalityManager>(
        state: &IngestPipeline<S, C, B, F>,
        batch_id: u64,
    ) -> (r: Result<RollbackContext, FinalityFailure>)
        ensures
            r is Ok ==> r->Ok_0 == (RollbackContext {
                mapping: state.index.index().batch(batch_id),
                head_block: state.engine.chain().head,
            }),
            r is Err ==> r->Err_0 is Index || r->Err_0 is Engine,
    {
        let mapping: Option<BatchMapping> = match state.index.load_batch_mapping(batch_id) {
            Ok(m) => m,
            Err(e) => {
                return Err(FinalityFailure::Index(e));
            },
        };
        let head_block: u64 = match state.engine.get_head_block() {
            Ok(h) => match h.to_u64() {
                Some(n) => n,
                None => {
                    assert(false);
                    0
                },
            },
            Err(e) => {
                return Err(FinalityFailure::Engine(e));
            },
        };
        Ok(RollbackContext { mapping, head_block })
    }

    /// Takes one finality tag: the rollback manager decides on it, and what it
    /// asks for is carried out. The actions that were carried out are handed back.
    ///
    /// The index and the engine are asked only where the decision depends on
    /// them: for a rollback that comes due and for a finalization, of a batch
    /// that is not in a final state. Every other tag is taken without fail,
    /// but for a batch number beyond 64 bits, which is refused.
    pub fn process_tag<S: MappingStorage, C: CheckpointStorage, B: BlockImporter, F: FinalityManager>(
        &mut self,
        tag: &FinalityTag,
        state: &mut IngestPipeline<S, C, B, F>,
        now: u64,
    ) -> (r: Result<Vec<RollbackAction>, FinalityFailure>)
        ensures
            final(self).manager.config() == old(self).manager.config(),
            final(state).validator == old(state).validator,
            final(state).assembler == old(state).assembler,
            final(state).epoch_id == old(state).epoch_id,
            final(state).stats == old(state).stats,
            old(state).index.index().sound() && r is Ok ==> final(state).index.index().sound(),
            r matches Ok(actions) ==> final(self).stats == if actions@.len() == 1 {
                counted(old(self).stats, actions@[0])
            } else {
                old(self).stats
            },
            r is Err ==> final(self).stats == old(self).stats,
            r matches Ok(actions) ==> {
                &&& actions@.len() <= 1
                &&& step_relation(
                    old(self).manager.config(),
                    old(self).manager.state(),
                    final(self).manager.state(),
                    update_of(*tag, now),
                    context_of(old(state).index.index(), old(state).engine.chain(), *tag),
                    Ok(actions),
                )
                &&& actions@.len() == 0 ==> final(state).same_state(old(state))
                &&& actions@.len() == 1 ==> match actions@[0] {
                    RollbackAction::ExecuteRollback(batch_id) => {
                        &&& final(state).engine.final_block() == old(state).engine.final_block()
                        &&& rollback_applied(
                            old(state).index.index(),
                            final(state).index.index(),
                            old(state).engine.chain(),
                            final(state).engine.chain(),
                            final(state).checkpoints.stored(),
                            batch_id,
                            now,
                        )
                    },
                    RollbackAction::Finalized(batch_id) => {
                        &&& final(state).index.index() == old(state).index.index()
                        &&& final(state).engine.chain() == old(state).engine.chain()
                        &&& final(state).checkpoints.stored() == old(state).checkpoints.stored()
                        &&& old(state).index.index().batches.contains_key(batch_id)
                        &&& final(state).engine.final_block() == final_after(
                            old(state).engine.final_block(),
                            old(state).index.index().batches[batch_id].end_block as nat,
                        )
                    },
                    _ => final(state).same_state(old(state)),
                }
            },
            r matches Err(FinalityFailure::Manager(e)) ==> {
                &&& final(state).same_state(old(state))
                &&& step_relation(
                    old(self).manager.config(),
                    old(self).manager.state(),
                    final(self).manager.state(),
                    update_of(*tag, now),
                    context_of(old(state).index.index(), old(state).engine.chain(), *tag),
                    Err(e),
                )
            },
            tag.batch_id@ > u64::MAX ==> (r matches Err(
                FinalityFailure::Manager(FinalityError::InvalidFinalityData(text)),
            ) && text@ == bad_batch_id_message(tag.batch_id@)),
            tag.batch_id@ <= u64::MAX && !needs_context(
                old(self).manager.config(),
                old(self).manager.state(),
                update_of(*tag, now),
            ) ==> r is Ok,
            r is Err && !(r->Err_0 is Manager) ==> needs_context(
                old(self).manager.config(),
                old(self).manager.state(),
                update_of(*tag, now),
            ),
    {
        let update = Self::make_update(tag, now);
        let ghost known = context_of(old(state).index.index(), old(state).engine.chain(), *tag);
        // what the index and the engine know of the batch, where the decision
        // depends on it
        let needed: bool = self.manager.decision_needs_context(&update);
        let context: RollbackContext = if needed {
            let batch: u64 = match tag.batch_id.to_u64() {
                Some(b) => b,
                None => {
                    assert(false);
                    0
                },
            };
            match Self::load_context(state, batch) {
                Ok(c) => c,
                Err(e) => {
                    return Err(e);
                },
            }
        } else {
            RollbackContext { mapping: None, head_block: 0 }
        };
        let outcome = self.manager.process_finality_update(update, context);
        proof {
            if !needed {
                lemma_context_not_needed(
                    old(self).manager.config(),
                    old(self).manager.state(),
                    self.manager.state(),
                    update,
                    context,
                    known,
                    outcome,
                );
            } else {
                assert(context == known);
            }
        }
        let actions: Vec<RollbackAction> = match outcome {
            Ok(a) => a,
            Err(e) => {
                return Err(FinalityFailure::Manager(e));
            },
        };
        if actions.len() == 0 {
            return Ok(actions);
        }
        assert(actions@.len() == 1);
        let action: RollbackAction = actions[0];
        match Self::apply_action(action, state, now) {
            Ok(()) => {},
            Err(e) => {
                proof {
                    if e is Manager {
                        assert(false);
                    }
                }
                return Err(e);
            },
        }
        match action {
            RollbackAction::ExecuteRollback(_) => {
                self.stats.rollback_count = bump(self.stats.rollback_count);
            },
            RollbackAction::Finalized(_) => {
                self.stats.finalized_count = bump(self.stats.finalized_count);
            },
            RollbackAction::PendingRollback(_) => {
                self.stats.pending_count = bump(self.stats.pending_count);
            },
            RollbackAction::StatusChanged(_) => {
                self.stats.status_changes = bump(self.stats.status_changes);
            },
        }
        Ok(actions)
    }

    /// Takes note that L1 has reached `l1_block`, for the pending rollback of
    /// `batch_id`: a block after the rollback's event counts as one more
    /// confirmation, and a rollback that is confirmed by it is carried out.
    ///
    /// The index and the engine are asked only where the rollback comes due
    /// with this confirmation; in every other case the call succeeds.
    pub fn observe_l1_block<
        S: MappingStorage,
        C: CheckpointStorage,
        B: BlockImporter,
        F: FinalityManager,
    >(
        &mut self,
        batch_id: u64,
        l1_block: u64,
        state: &mut IngestPipeline<S, C, B, F>,
        now: u64,
    ) -> (r: Result<Vec<RollbackAction>, FinalityFailure>)
        ensures
            final(self).manager.config() == old(self).manager.config(),
            final(state).validator == old(state).validator,
            final(state).assembler == old(state).assembler,
            final(state).epoch_id == old(state).epoch_id,
            final(state).stats == old(state).stats,
            final(state).engine.final_block() == old(state).engine.final_block(),
            old(state).index.index().sound() && r is Ok ==> final(state).index.index().sound(),
            r matches Ok(actions) ==> final(self).stats == if actions@.len() == 1 {
                counted(old(self).stats, actions@[0])
            } else {
                old(self).stats
            },
            r is Err ==> final(self).stats == old(self).stats,
            r matches Ok(actions) ==> {
                &&& actions@.len() <= 1
                &&& confirms(old(self).manager.state(), batch_id, l1_block) ==> counted_relation(
                    old(self).manager.config(),
                    old(self).manager.state(),
                    final(self).manager.state(),
                    batch_id,
                    old(self).manager.state().pending[batch_id],
                    RollbackContext {
                        mapping: old(state).index.index().batch(batch_id),
                        head_block: old(state).engine.chain().head,
                    },
                    Ok(actions),
                )
                &&& !confirms(old(self).manager.state(), batch_id, l1_block) ==> actions@.len() == 0
                    && final(self).manager.state() == old(self).manager.state()
                &&& actions@.len() == 0 ==> final(state).same_state(old(state))
                &&& actions@.len() == 1 ==> match actions@[0] {
                    RollbackAction::ExecuteRollback(executed) => {
                        &&& executed == batch_id
                        &&& rollback_applied(
                            old(state).index.index(),
                            final(state).index.index(),
                            old(state).engine.chain(),
                            final(state).engine.chain(),
                            final(state).checkpoints.stored(),
                            batch_id,
                            now,
                        )
                    },
                    _ => final(state).same_state(old(state)),
                }
            },
            r matches Err(FinalityFailure::Manager(e)) ==> {
                &&& final(state).same_state(old(state))
                &&& confirms(old(self).manager.state(), batch_id, l1_block)
                &&& counted_relation(
                    old(self).manager.config(),
                    old(self).manager.state(),
                    final(self).manager.state(),
                    batch_id,
                    old(self).manager.state().pending[batch_id],
                    RollbackContext {
                        mapping: old(state).index.index().batch(batch_id),
                        head_block: old(state).engine.chain().head,
                    },
                    Err(e),
                )
            },
            !(confirms(old(self).manager.state(), batch_id, l1_block) && due_next(
                old(self).manager.config(),
                old(self).manager.state().pending,
                batch_id,
            )) ==> r is Ok,
            confirms(old(self).manager.state(), batch_id, l1_block) && !due_next(
                old(self).manager.config(),
                old(self).manager.state().pending,
                batch_id,
            ) ==> (r matches Ok(actions) && actions@ == seq![
                RollbackAction::PendingRollback(batch_id),
            ]),
    {
        // a block that confirms nothing changes nothing
        if !self.manager.awaits_confirmation(batch_id, l1_block) {
            return Ok(Vec::new());
        }
        let ghost known = RollbackContext {
            mapping: old(state).index.index().batch(batch_id),
            head_block: old(state).engine.chain().head,
        };
        // what the index and the engine know of the batch, where the rollback
        // comes due
        let due: bool = self.manager.due_with_next(batch_id);
        let context: RollbackContext = if due {
            match Self::load_context(state, batch_id) {
                Ok(c) => c,
                Err(e) => {
                    return Err(e);
                },
            }
        } else {
            RollbackContext { mapping: None, head_block: 0 }
        };
        let outcome = self.manager.observe_l1_block(batch_id, l1_block, context);
        proof {
            if !due {
                lemma_count_not_due(
                    old(self).manager.config(),
                    old(self).manager.state(),
                    self.manager.state(),
                    batch_id,
                    context,
                    known,
                    outcome,
                );
            } else {
                assert(context == known);
            }
        }
        let actions: Vec<RollbackAction> = match outcome {
            Ok(a) => a,
            Err(e) => {
                return Err(FinalityFailure::Manager(e));
            },
        };
        if actions.len() == 0 {
            return Ok(actions);
        }
        assert(actions@.len() == 1);
        let action: RollbackAction = actions[0];
        match action {
            RollbackAction::ExecuteRollback(executed) => {
                match Self::execute_rollback(state, executed, now) {
                    Ok(()) => {},
                    Err(e) => {
                        proof {
                            if e is Manager {
                                assert(false);
                            }
                        }
                        return Err(e);
                    },
                }
                self.stats.rollback_count = bump(self.stats.rollback_count);
            },
            _ => {
                self.stats.pending_count = bump(self.stats.pending_count);
            },
        }
        Ok(actions)
    }
}

/// After the rollback of a batch the checkpoint names the highest batch that
/// is left: a batch below the one rolled back, with a record in the index
/// that was pruned, and no batch with a record lies above it.
pub proof fn lemma_rewound_to_surviving_maximum(
    index_before: IndexState,
    index_after: IndexState,
    chain_before: ChainState,
    chain_after: ChainState,
    stored_after: Option<Checkpoint>,
    batch_id: u64,
    now: u64,
)
    requires
        rollback_applied(
            index_before,
            index_after,
            chain_before,
            chain_after,
            stored_after,
            batch_id,
            now,
        ),
    ensures
        stored_after matches Some(checkpoint) ==> {
            &&& checkpoint.last_batch_id@ < batch_id
            &&& index_after.batches.contains_key(checkpoint.last_batch_id@ as u64)
            &&& forall|k: u64| index_after.batches.contains_key(k)
                ==> k <= checkpoint.last_batch_id@
        },
        stored_after is None ==> index_before.highest_batch_below(batch_id) is None,
        !index_after.batches.contains_key(batch_id),
        forall|k: u64| index_after.blocks.contains_key(k)
            ==> k < index_before.batches[batch_id].start_block,
{
    match index_before.highest_batch_below(batch_id) {
        Some(survivor) => {
            assert(index_before.is_highest_batch_below(survivor, batch_id));
        },
        None => {},
    }
}

} // verus!
