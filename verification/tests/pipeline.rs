use cdk_pipeline::datastream::{Checkpoint, CheckpointStorage, MemoryCheckpointStorage};
use cdk_pipeline::engine::{DefaultBlockImporter, DefaultFinalityManager, EngineFacade, ImportResult};
use cdk_pipeline::finality::{RollbackAction, RollbackConfig};
use cdk_pipeline::ingest::{
    BatchAssembler, BatchMapping, BatchValidator, IngestError, MappingStorage, MemoryMappingStorage,
};
use cdk_pipeline::pipeline::{
    FinalityFailure, FinalityPipeline, IngestFailure, IngestOutcome, IngestPipeline,
};
use cdk_pipeline::types::{
    Batch, BatchId, BlockInBatch, FinalityStatus, FinalityTag, FixedBytes, ProofMetadata, U256,
};
use std::time::Duration;

type Pipeline = IngestPipeline<
    MemoryMappingStorage,
    MemoryCheckpointStorage,
    DefaultBlockImporter,
    DefaultFinalityManager,
>;

fn pipeline() -> Pipeline {
    IngestPipeline::new(
        BatchValidator::default(),
        BatchAssembler::default(),
        MemoryMappingStorage::new(),
        MemoryCheckpointStorage::new(),
        EngineFacade::default(),
    )
}

fn block(index: u32, number: u64) -> BlockInBatch {
    BlockInBatch::new(
        index,
        FixedBytes::from([number as u8; 32]),
        U256::from(number),
        if number == 1 { FixedBytes::zero() } else { FixedBytes::from([number as u8 - 1; 32]) },
        FixedBytes::from([3u8; 32]),
        FixedBytes::from([4u8; 32]),
        FixedBytes::from([5u8; 32]),
        1000 + number,
    )
}

/// Batch `number` with two blocks: `2 * number - 1` and `2 * number`.
fn batch(number: u64) -> Batch {
    Batch::new(
        BatchId::new(U256::from(number), FixedBytes::from([number as u8; 32])),
        U256::from(100 + number),
        FixedBytes::from([2u8; 32]),
        vec![block(0, 2 * number - 1), block(1, 2 * number)],
        ProofMetadata::default(),
        1234567890,
    )
}

fn tag(batch: u64, status: FinalityStatus, l1_block: u64) -> FinalityTag {
    FinalityTag::new(U256::from(batch), U256::from(l1_block), FixedBytes::zero(), status, 5000, None)
}

fn ingested(upto: u64) -> Pipeline {
    let mut p = pipeline();
    for n in 1..=upto {
        assert!(matches!(p.process_batch(&batch(n), 100 * n), Ok(IngestOutcome::Committed(_))));
    }
    p
}

fn last_batch_id(p: &Pipeline) -> Option<U256> {
    p.checkpoints.load_checkpoint().unwrap().map(|c| c.last_batch_id)
}

fn finality(required: u64) -> FinalityPipeline {
    FinalityPipeline::new(RollbackConfig {
        required_confirmations: required,
        max_rollback_depth: 1000,
        rollback_timeout: Duration::from_secs(3600),
        auto_execute: true,
        validate_rollbacks: true,
    })
}

#[test]
fn happy_ingest() {
    let mut p = pipeline();
    for n in 1..=3u64 {
        let outcome = p.process_batch(&batch(n), 100 * n).unwrap();
        assert_eq!(
            outcome,
            IngestOutcome::Committed(ImportResult {
                blocks_imported: 2,
                highest_block: U256::from(2 * n),
                blocks_skipped: false
            })
        );
    }
    assert_eq!(p.engine.get_head_block(), Ok(U256::from(6)));
    for n in 1..=3u64 {
        assert_eq!(
            p.index.load_batch_mapping(n),
            Ok(Some(BatchMapping {
                batch_id: n,
                batch_hash: FixedBytes::from([n as u8; 32]),
                start_block: 2 * n - 1,
                end_block: 2 * n,
                block_count: 2,
                epoch_id: 0,
                timestamp: 100 * n,
            }))
        );
    }
    for number in 1..=6u64 {
        let m = p.index.load_block_mapping(number).unwrap().unwrap();
        assert_eq!(m.batch_id, (number + 1) / 2);
        assert_eq!(m.batch_index, ((number + 1) % 2) as u32);
        assert_eq!(m.block_hash, FixedBytes::from([number as u8; 32]));
    }
    assert_eq!(
        p.checkpoints.load_checkpoint(),
        Ok(Some(Checkpoint::new(
            U256::from(3),
            FixedBytes::from([3u8; 32]),
            U256::from(103),
            300
        )))
    );
    assert_eq!(p.stats.batches_committed, 3);
    assert_eq!(p.stats.blocks_imported, 6);
    assert_eq!(p.stats.error_count, 0);
}

#[test]
fn resume_after_restart() {
    let first = ingested(3);
    // a restart keeps what was persisted: the index, the chain, the checkpoint
    let mut p = IngestPipeline::new(
        BatchValidator::default(),
        BatchAssembler::default(),
        first.index,
        first.checkpoints,
        first.engine,
    );
    assert_eq!(last_batch_id(&p), Some(U256::from(3)));
    for n in 4..=5u64 {
        assert!(matches!(p.process_batch(&batch(n), 100 * n), Ok(IngestOutcome::Committed(_))));
    }
    assert_eq!(p.engine.get_head_block(), Ok(U256::from(10)));
    assert_eq!(last_batch_id(&p), Some(U256::from(5)));
}

#[test]
fn reingesting_a_batch_changes_nothing() {
    let mut p = ingested(3);
    let before_blocks = p.index.get_block_mappings_range(0, u64::MAX).unwrap();
    let before_batches = p.index.get_batch_mappings_range(0, u64::MAX).unwrap();
    let before_checkpoint = p.checkpoints.load_checkpoint().unwrap();
    for n in [3u64, 1, 2] {
        assert_eq!(p.process_batch(&batch(n), 9999), Ok(IngestOutcome::AlreadyIngested));
    }
    assert_eq!(p.index.get_block_mappings_range(0, u64::MAX).unwrap(), before_blocks);
    assert_eq!(p.index.get_batch_mappings_range(0, u64::MAX).unwrap(), before_batches);
    assert_eq!(p.checkpoints.load_checkpoint().unwrap(), before_checkpoint);
    assert_eq!(p.engine.get_head_block(), Ok(U256::from(6)));
    assert_eq!(p.stats.batches_committed, 3);
    assert_eq!(p.stats.batches_repeated, 3);
}

#[test]
fn a_batch_with_another_digest_is_a_conflict() {
    let mut p = ingested(2);
    let mut other = batch(2);
    other.id.hash = FixedBytes::from([99u8; 32]);
    assert_eq!(p.process_batch(&other, 500), Err(IngestFailure::Conflict(2)));
    assert_eq!(
        p.index.load_batch_mapping(2).unwrap().unwrap().batch_hash,
        FixedBytes::from([2u8; 32])
    );
    assert_eq!(last_batch_id(&p), Some(U256::from(2)));
    assert_eq!(p.stats.error_count, 1);
}

#[test]
fn an_invalid_batch_touches_nothing() {
    let mut p = ingested(1);
    let mut bad = batch(2);
    bad.blocks[1].state_root = FixedBytes::zero();
    assert_eq!(
        p.process_batch(&bad, 500),
        Err(IngestFailure::Invalid(IngestError::InvalidBatchData(
            "State root cannot be zero".to_string()
        )))
    );
    assert_eq!(p.engine.get_head_block(), Ok(U256::from(2)));
    assert_eq!(p.index.load_batch_mapping(2), Ok(None));
    assert_eq!(p.index.load_block_mapping(3), Ok(None));
    assert_eq!(last_batch_id(&p), Some(U256::from(1)));

    let mut zero = batch(2);
    zero.id.number = U256::zero();
    assert!(matches!(p.process_batch(&zero, 500), Err(IngestFailure::Invalid(_))));
}

#[test]
fn a_batch_below_the_checkpoint_is_stale() {
    let mut p = pipeline();
    p.checkpoints
        .save_checkpoint(Checkpoint::new(U256::from(5), FixedBytes::from([5u8; 32]), U256::from(1), 1))
        .unwrap();
    assert_eq!(p.process_batch(&batch(5), 500), Err(IngestFailure::Stale(5)));
    assert_eq!(p.process_batch(&batch(4), 500), Err(IngestFailure::Stale(4)));
    assert!(matches!(p.process_batch(&batch(6), 500), Ok(IngestOutcome::Committed(_))));
    assert_eq!(last_batch_id(&p), Some(U256::from(6)));
}

#[test]
fn an_empty_batch_is_recorded_after_the_head() {
    let mut p = ingested(2);
    let mut empty = batch(3);
    empty.blocks = vec![];
    assert_eq!(
        p.process_batch(&empty, 300),
        Ok(IngestOutcome::Committed(ImportResult {
            blocks_imported: 0,
            highest_block: U256::zero(),
            blocks_skipped: false
        }))
    );
    let record = p.index.load_batch_mapping(3).unwrap().unwrap();
    assert_eq!((record.start_block, record.end_block, record.block_count), (5, 4, 0));
    assert_eq!(p.engine.get_head_block(), Ok(U256::from(4)));
    assert_eq!(last_batch_id(&p), Some(U256::from(3)));
}

#[test]
fn a_batch_that_cannot_be_indexed_is_refused() {
    let mut p = pipeline();
    let mut wide = batch(1);
    wide.blocks[1].number = U256::from_limbs([0, 1, 0, 0]);
    assert!(matches!(
        p.process_batch(&wide, 1),
        Err(IngestFailure::Assembly(IngestError::BlockConversionError(_)))
    ));
    let mut spread = batch(1);
    spread.blocks[1].number = U256::from(u32::MAX as u64 + 1);
    assert!(matches!(
        p.process_batch(&spread, 1),
        Err(IngestFailure::Assembly(IngestError::MappingError(_)))
    ));
    assert_eq!(p.engine.get_head_block(), Ok(U256::zero()));
    assert_eq!(last_batch_id(&p), None);
}

#[test]
fn finalization_marks_the_end_of_the_batch_final() {
    let mut p = ingested(3);
    let mut f = finality(12);
    let actions = f.process_tag(&tag(2, FinalityStatus::Finalized, 100), &mut p, 6000).unwrap();
    assert_eq!(actions, vec![RollbackAction::Finalized(2)]);
    assert_eq!(p.engine.get_final_block(), Ok(U256::from(4)));
    assert_eq!(
        p.engine.get_final_block().unwrap(),
        U256::from(p.index.load_batch_mapping(2).unwrap().unwrap().end_block)
    );
    assert_eq!(p.engine.is_final(U256::from(4)), Ok(true));
    assert_eq!(p.engine.is_final(U256::from(5)), Ok(false));
    assert_eq!(p.engine.get_head_block(), Ok(U256::from(6)));
    assert_eq!(last_batch_id(&p), Some(U256::from(3)));
    assert_eq!(f.stats.finalized_count, 1);
}

#[test]
fn rollback_with_confirmations() {
    let mut p = ingested(3);
    let mut f = finality(3);
    let event = tag(3, FinalityStatus::RolledBack, 100);
    assert_eq!(f.process_tag(&event, &mut p, 6000), Ok(vec![RollbackAction::PendingRollback(3)]));
    assert_eq!(f.process_tag(&event, &mut p, 6001), Ok(vec![RollbackAction::PendingRollback(3)]));
    assert_eq!(p.engine.get_head_block(), Ok(U256::from(6)));
    assert!(p.index.load_batch_mapping(3).unwrap().is_some());

    assert_eq!(f.process_tag(&event, &mut p, 6002), Ok(vec![RollbackAction::ExecuteRollback(3)]));
    assert_eq!(p.engine.get_head_block(), Ok(U256::from(4)));
    assert_eq!(p.index.load_batch_mapping(3), Ok(None));
    assert_eq!(p.index.load_block_mapping(5), Ok(None));
    assert_eq!(p.index.load_block_mapping(6), Ok(None));
    assert!(p.index.load_block_mapping(4).unwrap().is_some());
    assert!(p.index.load_batch_mapping(2).unwrap().is_some());
    assert_eq!(
        p.checkpoints.load_checkpoint(),
        Ok(Some(Checkpoint::new(U256::from(2), FixedBytes::from([2u8; 32]), U256::zero(), 6002)))
    );
    assert!(f.manager.is_batch_rolled_back(3));
    assert_eq!(f.manager.get_rollback_record(3).unwrap().affected_blocks, vec![5, 6]);
    assert_eq!(f.stats.rollback_count, 1);
    assert_eq!(f.stats.pending_count, 2);

    // the batch can be ingested again after the rollback
    let mut again = batch(3);
    again.id.hash = FixedBytes::from([33u8; 32]);
    assert!(matches!(p.process_batch(&again, 7000), Ok(IngestOutcome::Committed(_))));
    assert_eq!(p.engine.get_head_block(), Ok(U256::from(6)));
    assert_eq!(last_batch_id(&p), Some(U256::from(3)));
}

#[test]
fn rollback_of_an_early_batch_takes_the_later_ones_along() {
    let mut p = ingested(4);
    let mut f = finality(1);
    assert_eq!(
        f.process_tag(&tag(2, FinalityStatus::RolledBack, 100), &mut p, 6000),
        Ok(vec![RollbackAction::ExecuteRollback(2)])
    );
    assert_eq!(p.engine.get_head_block(), Ok(U256::from(2)));
    assert_eq!(p.index.batch_count(), 1);
    assert_eq!(p.index.block_count(), 2);
    assert_eq!(last_batch_id(&p), Some(U256::from(1)));
    assert_eq!(f.manager.get_rollback_record(2).unwrap().affected_blocks, vec![3, 4, 5, 6, 7, 8]);
}

#[test]
fn rollback_of_the_first_batch_clears_the_checkpoint() {
    let mut p = ingested(2);
    let mut f = finality(1);
    assert_eq!(
        f.process_tag(&tag(1, FinalityStatus::RolledBack, 100), &mut p, 6000),
        Ok(vec![RollbackAction::ExecuteRollback(1)])
    );
    assert_eq!(p.engine.get_head_block(), Ok(U256::zero()));
    assert_eq!(p.index.batch_count(), 0);
    assert_eq!(p.index.block_count(), 0);
    assert_eq!(p.checkpoints.load_checkpoint(), Ok(None));
}

#[test]
fn finalization_supersedes_rollback() {
    let mut p = ingested(3);
    let mut f = finality(3);
    assert_eq!(
        f.process_tag(&tag(3, FinalityStatus::RolledBack, 100), &mut p, 6000),
        Ok(vec![RollbackAction::PendingRollback(3)])
    );
    assert_eq!(f.manager.get_pending_rollbacks().get(&3).unwrap().confirmations, 1);
    assert_eq!(
        f.process_tag(&tag(3, FinalityStatus::Finalized, 101), &mut p, 6001),
        Ok(vec![RollbackAction::Finalized(3)])
    );
    assert!(f.manager.get_pending_rollbacks().is_empty());
    assert!(!f.manager.is_batch_rolled_back(3));
    // no unwind: the chain, the index and the checkpoint are as they were
    assert_eq!(p.engine.get_head_block(), Ok(U256::from(6)));
    assert!(p.index.load_batch_mapping(3).unwrap().is_some());
    assert_eq!(last_batch_id(&p), Some(U256::from(3)));
    assert_eq!(p.engine.get_final_block(), Ok(U256::from(6)));
    // and a rollback that comes later is ignored
    assert_eq!(f.process_tag(&tag(3, FinalityStatus::RolledBack, 102), &mut p, 6002), Ok(vec![]));
    assert_eq!(p.engine.get_head_block(), Ok(U256::from(6)));
}

#[test]
fn pending_tags_change_nothing() {
    let mut p = ingested(2);
    let mut f = finality(3);
    assert_eq!(
        f.process_tag(&tag(2, FinalityStatus::Pending, 100), &mut p, 6000),
        Ok(vec![RollbackAction::StatusChanged(2)])
    );
    assert_eq!(p.engine.get_head_block(), Ok(U256::from(4)));
    assert_eq!(p.engine.get_final_block(), Ok(U256::zero()));
    assert_eq!(f.stats.status_changes, 1);
}

#[test]
fn actions_on_a_batch_without_a_record_fail() {
    let mut p = ingested(1);
    assert_eq!(
        FinalityPipeline::apply_action(RollbackAction::ExecuteRollback(9), &mut p, 1),
        Err(FinalityFailure::MissingMapping(9))
    );
    assert_eq!(
        FinalityPipeline::apply_action(RollbackAction::Finalized(9), &mut p, 1),
        Err(FinalityFailure::MissingMapping(9))
    );
    assert_eq!(FinalityPipeline::apply_action(RollbackAction::PendingRollback(9), &mut p, 1), Ok(()));
    assert_eq!(FinalityPipeline::apply_action(RollbackAction::StatusChanged(9), &mut p, 1), Ok(()));
    assert_eq!(p.engine.get_head_block(), Ok(U256::from(2)));
    assert_eq!(last_batch_id(&p), Some(U256::from(1)));
}

#[test]
fn a_batch_from_block_zero_cannot_be_rolled_back() {
    let mut p = pipeline();
    p.index
        .save_batch_mapping(BatchMapping {
            batch_id: 1,
            batch_hash: FixedBytes::from([1u8; 32]),
            start_block: 0,
            end_block: 1,
            block_count: 2,
            epoch_id: 0,
            timestamp: 1,
        })
        .unwrap();
    assert_eq!(
        FinalityPipeline::execute_rollback(&mut p, 1, 5),
        Err(FinalityFailure::GenesisRollback(1))
    );
    assert!(p.index.load_batch_mapping(1).unwrap().is_some());
}

#[test]
fn a_later_l1_block_confirms_and_executes_a_rollback() {
    let mut p = ingested(3);
    let mut f = finality(2);
    assert_eq!(
        f.process_tag(&tag(3, FinalityStatus::RolledBack, 100), &mut p, 6000),
        Ok(vec![RollbackAction::PendingRollback(3)])
    );
    assert_eq!(f.observe_l1_block(3, 100, &mut p, 6001), Ok(vec![]));
    assert_eq!(f.observe_l1_block(2, 101, &mut p, 6001), Ok(vec![]));
    assert_eq!(p.engine.get_head_block(), Ok(U256::from(6)));
    assert_eq!(
        f.observe_l1_block(3, 101, &mut p, 6002),
        Ok(vec![RollbackAction::ExecuteRollback(3)])
    );
    assert_eq!(p.engine.get_head_block(), Ok(U256::from(4)));
    assert_eq!(p.index.load_batch_mapping(3), Ok(None));
    assert_eq!(last_batch_id(&p), Some(U256::from(2)));
    assert_eq!(f.stats.rollback_count, 1);
}

fn every_block_resolves(p: &Pipeline) {
    for block in p.index.get_block_mappings_range(0, u64::MAX).unwrap() {
        let batch = p.index.load_batch_mapping(block.batch_id).unwrap().unwrap();
        assert_eq!(batch.batch_id, block.batch_id);
        assert!(batch.start_block <= block.block_number && block.block_number <= batch.end_block);
    }
}

#[test]
fn every_block_record_names_a_batch_that_holds_it() {
    let mut p = ingested(4);
    assert_eq!(p.index.block_count(), 8);
    every_block_resolves(&p);
    let mut f = finality(1);
    f.process_tag(&tag(3, FinalityStatus::RolledBack, 100), &mut p, 6000).unwrap();
    assert_eq!(p.index.block_count(), 4);
    every_block_resolves(&p);
    assert!(matches!(p.process_batch(&batch(3), 7000), Ok(IngestOutcome::Committed(_))));
    assert_eq!(p.index.block_count(), 6);
    every_block_resolves(&p);
}

#[test]
fn a_batch_that_does_not_follow_the_index_is_out_of_order() {
    // a batch with a higher number has a record already
    let mut p = pipeline();
    assert!(matches!(p.process_batch(&batch(2), 200), Ok(IngestOutcome::Committed(_))));
    p.checkpoints.delete_checkpoint().unwrap();
    assert_eq!(p.process_batch(&batch(1), 100), Err(IngestFailure::OutOfOrder(1)));
    assert_eq!(p.index.load_batch_mapping(1), Ok(None));
    assert_eq!(p.index.batch_count(), 1);
    assert_eq!(p.index.block_count(), 2);

    // the blocks of the batch begin within the batch before
    let mut p = ingested(2);
    let mut overlapping = batch(3);
    overlapping.blocks[0].number = U256::from(4);
    assert_eq!(p.process_batch(&overlapping, 300), Err(IngestFailure::OutOfOrder(3)));
    assert_eq!(p.engine.get_head_block(), Ok(U256::from(4)));
    assert_eq!(last_batch_id(&p), Some(U256::from(2)));
    assert_eq!(p.stats.error_count, 1);
    // a gap between the batches is in order
    let mut later = batch(3);
    later.blocks[0].number = U256::from(10);
    later.blocks[1].number = U256::from(20);
    assert!(matches!(p.process_batch(&later, 300), Ok(IngestOutcome::Committed(_))));
    let record = p.index.load_batch_mapping(3).unwrap().unwrap();
    assert_eq!((record.start_block, record.end_block, record.block_count), (10, 20, 11));
    every_block_resolves(&p);
}
