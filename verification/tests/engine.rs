use cdk_pipeline::engine::{
    BatchInfo, BlockImporter, DefaultBlockImporter, DefaultFinalityManager, EngineFacade,
    EngineFacadeError, FinalityManager, FinalityResult, ForkChoice, ImportResult, ImportableBlock,
    RollbackResult,
};
use cdk_pipeline::types::{
    Batch, BatchId, BlockInBatch, Bytes, FinalityStatus, FinalityTag, FixedBytes, ProofMetadata,
    U256,
};

fn importable(number: u64) -> ImportableBlock {
    ImportableBlock::new(
        U256::from(number),
        FixedBytes::from([number as u8; 32]),
        FixedBytes::from([1u8; 32]),
        FixedBytes::from([2u8; 32]),
        FixedBytes::from([3u8; 32]),
        FixedBytes::from([4u8; 32]),
        1234567890,
        Bytes::new(),
        None,
    )
}

fn empty_batch() -> Batch {
    Batch::new(
        BatchId::new(U256::from(1), FixedBytes::from([1u8; 32])),
        U256::from(100),
        FixedBytes::from([2u8; 32]),
        vec![],
        ProofMetadata::default(),
        1,
    )
}

fn tag(number: u64, status: FinalityStatus) -> FinalityTag {
    FinalityTag::new(U256::from(number), U256::from(100), FixedBytes::from([1u8; 32]), status, 1, None)
}

#[test]
fn test_engine_facade_creation() {
    let facade = EngineFacade::default();
    let head = facade.get_head_block().unwrap();
    assert_eq!(head, U256::zero());
}

#[test]
fn test_block_import() {
    let mut facade = EngineFacade::default();
    let block = ImportableBlock::new(
        U256::from(1),
        FixedBytes::from([1u8; 32]),
        FixedBytes::from([0u8; 32]),
        FixedBytes::from([2u8; 32]),
        FixedBytes::from([3u8; 32]),
        FixedBytes::from([4u8; 32]),
        1234567890,
        Bytes::new(),
        None,
    );

    let result = facade.import_block(block);
    assert!(result.is_ok());
}

#[test]
fn import_moves_the_head_up_and_never_down() {
    let mut facade = EngineFacade::default();
    facade.import_block(importable(5)).unwrap();
    assert_eq!(facade.get_head_block(), Ok(U256::from(5)));
    facade.import_block(importable(3)).unwrap();
    assert_eq!(facade.get_head_block(), Ok(U256::from(5)));
    assert_eq!(facade.block_exists(U256::from(3)), Ok(true));
    assert_eq!(facade.block_exists(U256::from(4)), Ok(false));
    assert_eq!(facade.block_exists(U256::from_limbs([3, 1, 0, 0])), Ok(false));
    assert_eq!(facade.block_importer.block_hash(5), Some(FixedBytes::from([5u8; 32])));
    assert_eq!(facade.block_importer.block_hash(6), None);
}

#[test]
fn import_batch_reports_what_it_did() {
    let mut facade = EngineFacade::default();
    facade.import_block(importable(2)).unwrap();
    let result = facade
        .import_batch(&empty_batch(), vec![importable(1), importable(2), importable(3)])
        .unwrap();
    assert_eq!(
        result,
        ImportResult { blocks_imported: 2, highest_block: U256::from(3), blocks_skipped: true }
    );
    assert_eq!(facade.get_head_block(), Ok(U256::from(3)));

    let again = facade.import_batch(&empty_batch(), vec![importable(1), importable(3)]).unwrap();
    assert_eq!(
        again,
        ImportResult { blocks_imported: 0, highest_block: U256::from(3), blocks_skipped: true }
    );
    let fresh = facade.import_batch(&empty_batch(), vec![importable(9), importable(8)]).unwrap();
    assert_eq!(
        fresh,
        ImportResult { blocks_imported: 2, highest_block: U256::from(9), blocks_skipped: false }
    );
    let none = facade.import_batch(&empty_batch(), vec![]).unwrap();
    assert_eq!(
        none,
        ImportResult { blocks_imported: 0, highest_block: U256::zero(), blocks_skipped: false }
    );
}

#[test]
fn a_block_that_exists_keeps_its_hash() {
    let mut importer = DefaultBlockImporter::new();
    importer.import_block(importable(4)).unwrap();
    let mut other = importable(4);
    other.hash = FixedBytes::from([99u8; 32]);
    importer.import_block(other).unwrap();
    assert_eq!(importer.block_hash(4), Some(FixedBytes::from([4u8; 32])));
}

#[test]
fn block_numbers_beyond_64_bits_are_refused() {
    let mut facade = EngineFacade::default();
    let mut wide = importable(1);
    wide.number = U256::from_limbs([1, 1, 0, 0]);
    assert!(matches!(
        facade.import_block(wide.clone()),
        Err(EngineFacadeError::InvalidBlockData(_))
    ));
    // the blocks before the one refused stay imported
    assert!(facade.import_batch(&empty_batch(), vec![importable(1), wide, importable(2)]).is_err());
    assert_eq!(facade.block_exists(U256::from(1)), Ok(true));
    assert_eq!(facade.block_exists(U256::from(2)), Ok(false));
}

#[test]
fn rollback_removes_the_blocks_above() {
    let mut facade = EngineFacade::default();
    for n in 1..=6 {
        facade.import_block(importable(n)).unwrap();
    }
    assert_eq!(
        facade.rollback_to(U256::from(4)),
        Ok(RollbackResult { rollback_block: U256::from(4), blocks_rolled_back: 2 })
    );
    assert_eq!(facade.get_head_block(), Ok(U256::from(4)));
    assert_eq!(facade.block_exists(U256::from(4)), Ok(true));
    assert_eq!(facade.block_exists(U256::from(5)), Ok(false));
    // unwinding to the head or above it changes nothing
    assert_eq!(
        facade.rollback_to(U256::from(10)),
        Ok(RollbackResult { rollback_block: U256::from(10), blocks_rolled_back: 0 })
    );
    assert_eq!(facade.get_head_block(), Ok(U256::from(4)));
    assert_eq!(
        facade.rollback_to(U256::from_limbs([0, 0, 0, 1])).unwrap().blocks_rolled_back,
        0
    );
    assert_eq!(
        facade.rollback_to(U256::zero()),
        Ok(RollbackResult { rollback_block: U256::zero(), blocks_rolled_back: 4 })
    );
    assert_eq!(facade.get_head_block(), Ok(U256::zero()));
}

#[test]
fn finality_never_moves_back() {
    let mut manager = DefaultFinalityManager::new();
    assert_eq!(manager.get_final_block(), Ok(U256::zero()));
    assert_eq!(
        manager.mark_final(U256::from(7)),
        Ok(FinalityResult { final_block: U256::from(7), blocks_affected: 1 })
    );
    assert_eq!(manager.mark_final(U256::from(5)).unwrap().final_block, U256::from(5));
    assert_eq!(manager.get_final_block(), Ok(U256::from(7)));
    assert_eq!(manager.is_final(U256::from(7)), Ok(true));
    assert_eq!(manager.is_final(U256::from(8)), Ok(false));
    assert_eq!(manager.is_final(U256::zero()), Ok(true));
}

#[test]
fn finality_tags_are_dispatched_by_status() {
    let mut facade = EngineFacade::default();
    for n in 1..=6 {
        facade.import_block(importable(n)).unwrap();
    }
    assert_eq!(
        facade.process_finality_tag(&tag(3, FinalityStatus::Pending)),
        Ok(FinalityResult { final_block: U256::from(3), blocks_affected: 0 })
    );
    assert_eq!(facade.get_final_block(), Ok(U256::zero()));
    assert_eq!(
        facade.process_finality_tag(&tag(3, FinalityStatus::Finalized)),
        Ok(FinalityResult { final_block: U256::from(3), blocks_affected: 1 })
    );
    assert_eq!(facade.get_final_block(), Ok(U256::from(3)));
    assert_eq!(facade.is_final(U256::from(3)), Ok(true));
    assert_eq!(
        facade.process_finality_tag(&tag(4, FinalityStatus::RolledBack)),
        Ok(FinalityResult { final_block: U256::from(4), blocks_affected: 2 })
    );
    assert_eq!(facade.get_head_block(), Ok(U256::from(4)));
    assert_eq!(facade.get_final_block(), Ok(U256::from(3)));

    let mut manager = DefaultFinalityManager::default();
    assert_eq!(
        manager.process_finality_tag(&tag(4, FinalityStatus::RolledBack)),
        Ok(FinalityResult { final_block: U256::from(4), blocks_affected: 0 })
    );
    assert_eq!(manager.get_final_block(), Ok(U256::zero()));
}

#[test]
fn importable_block_from_batch_block() {
    let block = BlockInBatch::new(
        2,
        FixedBytes::from([1u8; 32]),
        U256::from(42),
        FixedBytes::from([2u8; 32]),
        FixedBytes::from([3u8; 32]),
        FixedBytes::from([4u8; 32]),
        FixedBytes::from([5u8; 32]),
        99,
    );
    let mut batch = empty_batch();
    batch.id.number = U256::from(7);
    let made = ImportableBlock::from_batch_block(&block, &batch, Bytes::from(vec![1, 2]));
    assert_eq!(
        made,
        ImportableBlock {
            number: U256::from(42),
            hash: block.hash,
            parent_hash: block.parent_hash,
            state_root: block.state_root,
            tx_root: block.tx_root,
            receipt_root: block.receipt_root,
            timestamp: 99,
            data: Bytes::from(vec![1, 2]),
            batch_info: Some(BatchInfo::new(
                U256::from(7),
                U256::from(100),
                FixedBytes::from([2u8; 32]),
                2
            )),
        }
    );
    let choice = ForkChoice::finalizing(block.hash);
    assert_eq!(choice.head_block_hash, block.hash);
    assert_eq!(choice.safe_block_hash, block.hash);
    assert_eq!(choice.finalized_block_hash, block.hash);
}

#[test]
fn fork_choice_names_the_hash_of_the_block_three_times() {
    let mut facade = EngineFacade::default();
    facade.import_block(importable(5)).unwrap();
    assert_eq!(
        facade.fork_choice_for(U256::from(5)),
        Ok(Some(ForkChoice::finalizing(FixedBytes::from([5u8; 32]))))
    );
    assert_eq!(facade.fork_choice_for(U256::from(6)), Ok(None));
    assert_eq!(facade.fork_choice_for(U256::from_limbs([5, 0, 1, 0])), Ok(None));
    assert_eq!(
        facade.block_importer.get_block_hash(U256::from(5)),
        Ok(Some(FixedBytes::from([5u8; 32])))
    );
}
