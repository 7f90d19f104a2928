use cdk_pipeline::finality::{
    FinalityError, FinalityEventType, FinalityUpdate, PendingRollback, RollbackAction,
    RollbackConfig, RollbackContext, RollbackManager, RollbackRecord,
};
use cdk_pipeline::ingest::mapping::batch_mapping_at;
use cdk_pipeline::ingest::BatchMapping;
use cdk_pipeline::types::{FinalityStatus, FinalityTag, FixedBytes, U256};
use std::time::Duration;

fn config(required: u64, depth: u64, auto: bool) -> RollbackConfig {
    RollbackConfig {
        required_confirmations: required,
        max_rollback_depth: depth,
        rollback_timeout: Duration::from_secs(3600),
        auto_execute: auto,
        validate_rollbacks: true,
    }
}

fn update(batch: u64, event_type: FinalityEventType, l1_block: u64, detected_at: u64) -> FinalityUpdate {
    let status = match event_type {
        FinalityEventType::Finalized => FinalityStatus::Finalized,
        FinalityEventType::RolledBack => FinalityStatus::RolledBack,
        FinalityEventType::StatusChanged => FinalityStatus::Pending,
    };
    FinalityUpdate {
        tag: FinalityTag::new(
            U256::from(batch),
            U256::from(l1_block),
            FixedBytes::from([batch as u8; 32]),
            status,
            detected_at,
            None,
        ),
        event_type,
        l1_block_number: l1_block,
        tx_hash: Some(FixedBytes::from([9u8; 32])),
        detected_at,
    }
}

fn mapping(id: u64, start: u64, end: u64) -> BatchMapping {
    batch_mapping_at(id, FixedBytes::from([id as u8; 32]), start, end, 0, 1)
}

fn context(mapping: Option<BatchMapping>, head: u64) -> RollbackContext {
    RollbackContext { mapping, head_block: head }
}

#[test]
fn test_rollback_manager_creation() {
    let config = RollbackConfig::default();
    let manager = RollbackManager::new(config);

    assert_eq!(manager.get_rollback_history().len(), 0);
    assert_eq!(manager.get_pending_rollbacks().len(), 0);
}

#[test]
fn test_rollback_config_default() {
    let config = RollbackConfig::default();
    assert_eq!(config.required_confirmations, 12);
    assert_eq!(config.max_rollback_depth, 1000);
    assert!(config.auto_execute);
    assert!(config.validate_rollbacks);
}

#[test]
fn test_rollback_record_creation() {
    let record = RollbackRecord {
        batch_id: 1,
        batch_hash: FixedBytes::from([1u8; 32]),
        l1_block_number: 1000,
        tx_hash: Some(FixedBytes::from([2u8; 32])),
        timestamp: 1234567890,
        reason: "Test rollback".to_string(),
        affected_blocks: vec![100, 101, 102],
    };

    assert_eq!(record.batch_id, 1);
    assert_eq!(record.affected_blocks.len(), 3);
}

#[test]
fn rollback_config_default_timeout_is_an_hour() {
    assert_eq!(RollbackConfig::default().rollback_timeout, Duration::from_secs(3600));
}

#[test]
fn rollback_executes_after_the_required_confirmations() {
    let mut manager = RollbackManager::new(config(3, 1000, true));
    let ctx = context(Some(mapping(3, 5, 6)), 8);
    let event = update(3, FinalityEventType::RolledBack, 50, 1000);

    assert_eq!(
        manager.process_finality_update(event, ctx),
        Ok(vec![RollbackAction::PendingRollback(3)])
    );
    assert_eq!(
        manager.get_pending_rollbacks().get(&3),
        Some(&PendingRollback {
            batch_id: 3,
            batch_hash: FixedBytes::from([3u8; 32]),
            l1_block_number: 50,
            tx_hash: Some(FixedBytes::from([9u8; 32])),
            timestamp: 1000,
            confirmations: 1,
            required_confirmations: 3,
        })
    );
    assert_eq!(
        manager.process_finality_update(event, ctx),
        Ok(vec![RollbackAction::PendingRollback(3)])
    );
    assert_eq!(manager.get_pending_rollbacks().get(&3).unwrap().confirmations, 2);
    assert!(!manager.is_batch_rolled_back(3));

    assert_eq!(
        manager.process_finality_update(event, ctx),
        Ok(vec![RollbackAction::ExecuteRollback(3)])
    );
    assert!(manager.is_batch_rolled_back(3));
    assert!(manager.get_pending_rollbacks().is_empty());
    assert_eq!(
        manager.get_rollback_record(3),
        Some(&RollbackRecord {
            batch_id: 3,
            batch_hash: FixedBytes::from([3u8; 32]),
            l1_block_number: 50,
            tx_hash: Some(FixedBytes::from([9u8; 32])),
            timestamp: 1000,
            reason: "L1 finality rollback".to_string(),
            affected_blocks: vec![5, 6, 7, 8],
        })
    );
    assert_eq!(manager.get_rollback_record(4), None);
}

#[test]
fn executed_rollback_ignores_further_events() {
    let mut manager = RollbackManager::new(config(1, 1000, true));
    let ctx = context(Some(mapping(3, 5, 6)), 6);
    assert_eq!(
        manager.process_finality_update(update(3, FinalityEventType::RolledBack, 50, 1000), ctx),
        Ok(vec![RollbackAction::ExecuteRollback(3)])
    );
    let record = manager.get_rollback_record(3).cloned();
    assert_eq!(
        manager.process_finality_update(update(3, FinalityEventType::RolledBack, 51, 2000), ctx),
        Ok(vec![])
    );
    assert_eq!(
        manager.process_finality_update(update(3, FinalityEventType::Finalized, 52, 3000), ctx),
        Ok(vec![])
    );
    assert_eq!(manager.get_rollback_record(3).cloned(), record);
    assert!(manager.get_pending_rollbacks().is_empty());
    assert!(!manager.is_batch_finalized(3));
}

#[test]
fn finalized_batch_ignores_a_later_rollback() {
    let mut manager = RollbackManager::new(config(1, 1000, true));
    let ctx = context(Some(mapping(2, 3, 4)), 6);
    assert_eq!(
        manager.process_finality_update(update(2, FinalityEventType::Finalized, 100, 1000), ctx),
        Ok(vec![RollbackAction::Finalized(2)])
    );
    assert!(manager.is_batch_finalized(2));
    assert_eq!(
        manager.process_finality_update(update(2, FinalityEventType::RolledBack, 101, 2000), ctx),
        Ok(vec![])
    );
    assert!(manager.get_pending_rollbacks().is_empty());
    assert!(manager.get_rollback_history().is_empty());
    assert!(!manager.is_batch_rolled_back(2));
    // a finalization that comes again is ignored too
    assert_eq!(
        manager.process_finality_update(update(2, FinalityEventType::Finalized, 100, 1000), ctx),
        Ok(vec![])
    );
}

#[test]
fn finalization_supersedes_a_pending_rollback() {
    let mut manager = RollbackManager::new(config(3, 1000, true));
    let ctx = context(Some(mapping(3, 5, 6)), 6);
    manager
        .process_finality_update(update(3, FinalityEventType::RolledBack, 50, 1000), ctx)
        .unwrap();
    assert_eq!(manager.get_pending_rollbacks().get(&3).unwrap().confirmations, 1);
    assert_eq!(
        manager.process_finality_update(update(3, FinalityEventType::Finalized, 51, 2000), ctx),
        Ok(vec![RollbackAction::Finalized(3)])
    );
    assert!(manager.get_pending_rollbacks().is_empty());
    assert!(manager.get_rollback_history().is_empty());
    assert!(manager.is_batch_finalized(3));
}

#[test]
fn rollback_deeper_than_allowed_is_refused() {
    let mut manager = RollbackManager::new(config(1, 3, true));
    // blocks 5..=8 would go: four blocks, one more than allowed
    let deep = context(Some(mapping(3, 5, 6)), 8);
    assert_eq!(
        manager.process_finality_update(update(3, FinalityEventType::RolledBack, 50, 1000), deep),
        Err(FinalityError::RollbackError(
            "Rollback of batch 3 exceeds the maximum depth of 3".to_string()
        ))
    );
    assert!(!manager.is_batch_rolled_back(3));
    assert_eq!(manager.get_pending_rollbacks().get(&3).unwrap().confirmations, 1);
    // exactly as deep as allowed goes through
    let level = context(Some(mapping(3, 5, 6)), 7);
    assert_eq!(
        manager.process_finality_update(update(3, FinalityEventType::RolledBack, 50, 1000), level),
        Ok(vec![RollbackAction::ExecuteRollback(3)])
    );
    assert_eq!(manager.get_rollback_record(3).unwrap().affected_blocks, vec![5, 6, 7]);
}

#[test]
fn rollback_waits_while_the_batch_is_not_committed() {
    let mut manager = RollbackManager::new(config(1, 1000, true));
    let absent = context(None, 8);
    let event = update(3, FinalityEventType::RolledBack, 50, 1000);
    assert_eq!(
        manager.process_finality_update(event, absent),
        Ok(vec![RollbackAction::PendingRollback(3)])
    );
    assert_eq!(
        manager.process_finality_update(event, absent),
        Ok(vec![RollbackAction::PendingRollback(3)])
    );
    assert_eq!(manager.get_pending_rollbacks().get(&3).unwrap().confirmations, 2);
    // a finalization of a batch that is not committed is put off as well
    assert_eq!(
        manager.process_finality_update(update(4, FinalityEventType::Finalized, 50, 1000), absent),
        Ok(vec![])
    );
    assert!(!manager.is_batch_finalized(4));
    assert_eq!(
        manager.process_finality_update(event, context(Some(mapping(3, 5, 6)), 8)),
        Ok(vec![RollbackAction::ExecuteRollback(3)])
    );
}

#[test]
fn without_auto_execute_the_rollback_stays_pending() {
    let mut manager = RollbackManager::new(config(1, 1000, false));
    let ctx = context(Some(mapping(3, 5, 6)), 8);
    let event = update(3, FinalityEventType::RolledBack, 50, 1000);
    for expected in 1u64..=4 {
        assert_eq!(
            manager.process_finality_update(event, ctx),
            Ok(vec![RollbackAction::PendingRollback(3)])
        );
        assert_eq!(manager.get_pending_rollbacks().get(&3).unwrap().confirmations, expected);
    }
    assert!(manager.get_rollback_history().is_empty());
}

#[test]
fn status_changes_are_passed_on() {
    let mut manager = RollbackManager::new(RollbackConfig::default());
    assert_eq!(
        manager.process_finality_update(
            update(8, FinalityEventType::StatusChanged, 50, 1000),
            context(None, 0)
        ),
        Ok(vec![RollbackAction::StatusChanged(8)])
    );
    assert!(manager.get_pending_rollbacks().is_empty());
}

#[test]
fn batch_number_beyond_64_bits_is_refused() {
    let mut manager = RollbackManager::new(RollbackConfig::default());
    let mut event = update(8, FinalityEventType::RolledBack, 50, 1000);
    event.tag.batch_id = U256::from_limbs([0, 1, 0, 0]);
    assert_eq!(
        manager.process_finality_update(event, context(None, 0)),
        Err(FinalityError::InvalidFinalityData(
            "Batch ID does not fit in 64 bits: 18446744073709551616".to_string()
        ))
    );
}

#[test]
fn later_l1_blocks_confirm_a_pending_rollback() {
    let mut manager = RollbackManager::new(config(3, 1000, true));
    let ctx = context(Some(mapping(3, 5, 6)), 6);
    manager
        .process_finality_update(update(3, FinalityEventType::RolledBack, 50, 1000), ctx)
        .unwrap();
    // the block of the event itself does not count, nor does an unknown batch
    assert_eq!(manager.observe_l1_block(3, 50, ctx), Ok(vec![]));
    assert_eq!(manager.observe_l1_block(4, 60, ctx), Ok(vec![]));
    assert_eq!(manager.get_pending_rollbacks().get(&3).unwrap().confirmations, 1);
    assert_eq!(manager.observe_l1_block(3, 51, ctx), Ok(vec![RollbackAction::PendingRollback(3)]));
    assert_eq!(manager.observe_l1_block(3, 52, ctx), Ok(vec![RollbackAction::ExecuteRollback(3)]));
    assert_eq!(manager.observe_l1_block(3, 53, ctx), Ok(vec![]));
}

#[test]
fn affected_blocks_run_from_the_batch_to_the_head() {
    let m = mapping(3, 5, 6);
    assert_eq!(RollbackManager::calculate_affected_blocks(m, 9, 1000), Some(vec![5, 6, 7, 8, 9]));
    // a head before the end of the batch: the batch itself
    assert_eq!(RollbackManager::calculate_affected_blocks(m, 2, 1000), Some(vec![5, 6]));
    assert_eq!(RollbackManager::calculate_affected_blocks(m, 9, 5), Some(vec![5, 6, 7, 8, 9]));
    assert_eq!(RollbackManager::calculate_affected_blocks(m, 9, 4), None);
    assert_eq!(RollbackManager::calculate_affected_blocks(m, u64::MAX, 1000), None);
    // an empty batch at the head affects nothing
    let empty = BatchMapping { start_block: 7, end_block: 6, block_count: 0, ..m };
    assert_eq!(RollbackManager::calculate_affected_blocks(empty, 6, 0), Some(vec![]));
}

#[test]
fn pending_rollbacks_expire_and_final_states_stay() {
    let mut manager = RollbackManager::new(config(5, 1000, true));
    let ctx = context(Some(mapping(1, 1, 2)), 2);
    manager.process_finality_update(update(1, FinalityEventType::RolledBack, 50, 100), ctx).unwrap();
    manager.process_finality_update(update(2, FinalityEventType::RolledBack, 50, 200), ctx).unwrap();
    manager.process_finality_update(update(3, FinalityEventType::RolledBack, 50, 300), ctx).unwrap();
    manager.process_finality_update(update(4, FinalityEventType::Finalized, 50, 50), ctx).unwrap();

    let mut dropped = manager.expire_pending(200);
    dropped.sort();
    assert_eq!(dropped, vec![1, 2]);
    assert_eq!(manager.get_pending_rollbacks().len(), 1);
    assert!(manager.get_pending_rollbacks().contains_key(&3));
    assert!(manager.is_batch_finalized(4));
    assert_eq!(manager.expire_pending(200), Vec::<u64>::new());

    // by the wall clock, an entry of long ago with no allowance is dropped
    manager.cleanup_old_records(Duration::from_secs(0));
    assert!(manager.get_pending_rollbacks().is_empty());
    assert!(manager.is_batch_finalized(4));
    // and an entry of the far future is kept
    manager
        .process_finality_update(update(5, FinalityEventType::RolledBack, 50, u64::MAX), ctx)
        .unwrap();
    manager.cleanup_old_records(Duration::from_secs(10));
    assert_eq!(manager.get_pending_rollbacks().len(), 1);
}

#[test]
fn pending_rollbacks_time_out_after_the_configured_hour() {
    let mut manager = RollbackManager::new(config(5, 1000, true));
    let ctx = context(Some(mapping(1, 1, 2)), 2);
    manager.process_finality_update(update(1, FinalityEventType::RolledBack, 50, 1000), ctx).unwrap();
    manager.process_finality_update(update(2, FinalityEventType::RolledBack, 50, 1001), ctx).unwrap();
    assert_eq!(manager.collect_timed_out(4599), Vec::<u64>::new());
    assert_eq!(manager.collect_timed_out(4600), vec![1]);
    assert_eq!(manager.collect_timed_out(100), Vec::<u64>::new());
    assert_eq!(manager.collect_timed_out(u64::MAX), vec![2]);
    assert!(manager.get_pending_rollbacks().is_empty());
}

#[test]
fn the_manager_says_when_it_needs_the_context() {
    let mut manager = RollbackManager::new(config(2, 1000, true));
    let rolled = update(3, FinalityEventType::RolledBack, 50, 1000);
    let finalized = update(3, FinalityEventType::Finalized, 50, 1000);
    let changed = update(3, FinalityEventType::StatusChanged, 50, 1000);

    // nothing is known of batch 3: one sighting is not enough of two
    assert!(!manager.is_settled(3));
    assert!(!manager.awaits_confirmation(3, 51));
    assert!(!manager.due_with_next(3));
    assert!(!manager.decision_needs_context(&rolled));
    assert!(manager.decision_needs_context(&finalized));
    assert!(!manager.decision_needs_context(&changed));

    // after one sighting the next brings the rollback due
    let ctx = context(Some(mapping(3, 5, 6)), 8);
    assert_eq!(
        manager.process_finality_update(rolled.clone(), ctx.clone()),
        Ok(vec![RollbackAction::PendingRollback(3)])
    );
    assert!(!manager.is_settled(3));
    assert!(!manager.awaits_confirmation(3, 50));
    assert!(manager.awaits_confirmation(3, 51));
    assert!(manager.due_with_next(3));
    assert!(manager.decision_needs_context(&rolled));
    assert!(manager.decision_needs_context(&finalized));

    // once rolled back the batch is in a final state, and nothing is needed
    assert_eq!(
        manager.process_finality_update(rolled.clone(), ctx.clone()),
        Ok(vec![RollbackAction::ExecuteRollback(3)])
    );
    assert!(manager.is_settled(3));
    assert!(!manager.awaits_confirmation(3, 51));
    assert!(!manager.decision_needs_context(&rolled));
    assert!(!manager.decision_needs_context(&finalized));

    // a finalized batch is in a final state too
    let mut manager = RollbackManager::new(config(2, 1000, true));
    assert_eq!(
        manager.process_finality_update(finalized.clone(), ctx.clone()),
        Ok(vec![RollbackAction::Finalized(3)])
    );
    assert!(manager.is_settled(3));
    assert!(!manager.decision_needs_context(&finalized));
}

#[test]
fn a_single_confirmation_or_none_comes_due_at_once() {
    let rolled = update(3, FinalityEventType::RolledBack, 50, 1000);
    assert!(RollbackManager::new(config(1, 1000, true)).due_with_next(3));
    assert!(RollbackManager::new(config(0, 1000, true)).due_with_next(3));
    assert!(RollbackManager::new(config(1, 1000, true)).decision_needs_context(&rolled));
    // without automatic execution nothing ever comes due
    assert!(!RollbackManager::new(config(1, 1000, false)).due_with_next(3));
    assert!(!RollbackManager::new(config(1, 1000, false)).decision_needs_context(&rolled));
}

#[test]
fn an_event_beyond_64_bits_needs_no_context() {
    let manager = RollbackManager::new(config(1, 1000, true));
    let mut wide = update(3, FinalityEventType::Finalized, 50, 1000);
    wide.tag.batch_id = U256::from_limbs([0, 0, 1, 0]);
    assert!(!manager.decision_needs_context(&wide));
}
