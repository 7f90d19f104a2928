use cdk_pipeline::ingest::{
    BatchFault, BatchValidator, BlockFault, BlockInputs, BlockInputsFault, IngestError,
    TransactionFault, TransactionInput,
};
use cdk_pipeline::types::{
    Batch, BatchId, BlockInBatch, Bytes, FixedBytes, ProofMetadata, U256,
};

fn proof_meta() -> ProofMetadata {
    ProofMetadata::new(
        Bytes::from(vec![1, 2, 3]),
        FixedBytes::from([3u8; 8]),
        FixedBytes::from([4u8; 32]),
        Bytes::from(vec![4, 5, 6]),
    )
}

fn good_block(index: u32, number: u64, timestamp: u64) -> BlockInBatch {
    BlockInBatch::new(
        index,
        FixedBytes::from([1u8; 32]),
        U256::from(number),
        FixedBytes::from([2u8; 32]),
        FixedBytes::from([3u8; 32]),
        FixedBytes::from([4u8; 32]),
        FixedBytes::from([5u8; 32]),
        timestamp,
    )
}

fn batch_of(number: u64, blocks: Vec<BlockInBatch>) -> Batch {
    Batch::new(
        BatchId::new(U256::from(number), FixedBytes::from([1u8; 32])),
        U256::from(100),
        FixedBytes::from([2u8; 32]),
        blocks,
        proof_meta(),
        1234567890,
    )
}

fn invalid(text: &str) -> Result<(), IngestError> {
    Err(IngestError::InvalidBatchData(text.to_string()))
}

#[test]
fn test_batch_validator_default() {
    let validator = BatchValidator::default();
    assert_eq!(validator.max_blocks_per_batch, 1000);
    assert_eq!(validator.max_batch_size_bytes, 10 * 1024 * 1024);
    assert!(validator.strict_mode);
}

#[test]
fn test_batch_validation() {
    let validator = BatchValidator::default();

    let batch_id = BatchId::new(U256::from(1), FixedBytes::from([1u8; 32]));
    let proof_meta = ProofMetadata::new(
        Bytes::from(vec![1, 2, 3]),
        FixedBytes::from([3u8; 8]),
        FixedBytes::from([4u8; 32]),
        Bytes::from(vec![4, 5, 6]),
    );

    let batch = Batch::new(
        batch_id,
        U256::from(100),
        FixedBytes::from([2u8; 32]),
        vec![],
        proof_meta,
        1234567890,
    );

    // Empty batch should be valid
    validator.validate_batch(&batch).unwrap();
}

#[test]
fn test_batch_validation_invalid_id() {
    let validator = BatchValidator::default();

    let batch_id = BatchId::new(U256::zero(), FixedBytes::from([1u8; 32]));
    let proof_meta = ProofMetadata::new(
        Bytes::from(vec![1, 2, 3]),
        FixedBytes::from([3u8; 8]),
        FixedBytes::from([4u8; 32]),
        Bytes::from(vec![4, 5, 6]),
    );

    let batch = Batch::new(
        batch_id,
        U256::from(100),
        FixedBytes::from([2u8; 32]),
        vec![],
        proof_meta,
        1234567890,
    );

    // Zero batch ID should be invalid
    let result = validator.validate_batch(&batch);
    assert!(result.is_err());
}

#[test]
fn test_block_inputs_validation() {
    let validator = BatchValidator::default();

    let block = BlockInputs {
        number: 100,
        hash: FixedBytes::from([1u8; 32]),
        parent_hash: FixedBytes::from([2u8; 32]),
        state_root: FixedBytes::from([3u8; 32]),
        receipts_root: FixedBytes::from([4u8; 32]),
        transactions_root: FixedBytes::from([5u8; 32]),
        timestamp: 1234567890,
        gas_limit: 30000000,
        gas_used: 15000000,
        base_fee_per_gas: Some(1000000000),
        extra_data: Bytes::new(),
        transactions: vec![],
    };

    validator.validate_block_inputs(&block).unwrap();
}

#[test]
fn test_block_inputs_validation_invalid_gas() {
    let validator = BatchValidator::default();

    let block = BlockInputs {
        number: 100,
        hash: FixedBytes::from([1u8; 32]),
        parent_hash: FixedBytes::from([2u8; 32]),
        state_root: FixedBytes::from([3u8; 32]),
        receipts_root: FixedBytes::from([4u8; 32]),
        transactions_root: FixedBytes::from([5u8; 32]),
        timestamp: 1234567890,
        gas_limit: 10000000,
        gas_used: 15000000, // More than limit
        base_fee_per_gas: Some(1000000000),
        extra_data: Bytes::new(),
        transactions: vec![],
    };

    let result = validator.validate_block_inputs(&block);
    assert!(result.is_err());
}

#[test]
fn test_block_inputs_creation() {
    let block = BlockInputs {
        number: 100,
        hash: FixedBytes::from([1u8; 32]),
        parent_hash: FixedBytes::from([2u8; 32]),
        state_root: FixedBytes::from([3u8; 32]),
        receipts_root: FixedBytes::from([4u8; 32]),
        transactions_root: FixedBytes::from([5u8; 32]),
        timestamp: 1234567890,
        gas_limit: 30000000,
        gas_used: 15000000,
        base_fee_per_gas: Some(1000000000),
        extra_data: Bytes::new(),
        transactions: vec![],
    };

    assert_eq!(block.number, 100);
    assert_eq!(block.gas_limit, 30000000);
}

#[test]
fn test_transaction_input_creation() {
    let tx = TransactionInput {
        hash: FixedBytes::from([1u8; 32]),
        tx_type: 2, // EIP-1559
        gas_limit: 21000,
        gas_price: None,
        max_fee_per_gas: Some(1000000000),
        max_priority_fee_per_gas: Some(100000000),
        nonce: 1,
        value: U256::from(1000000000000000000u64), // 1 ETH
        to: Some(FixedBytes::from([2u8; 20])),
        data: Bytes::new(),
        access_list: vec![],
    };

    assert_eq!(tx.tx_type, 2);
    assert_eq!(tx.gas_limit, 21000);
}

#[test]
fn zero_batch_number_is_rejected_first() {
    let validator = BatchValidator::default();
    let mut batch = batch_of(0, vec![]);
    batch.l1_origin = U256::zero();
    assert_eq!(validator.check_batch(&batch), Some(BatchFault::ZeroBatchId));
    assert_eq!(validator.validate_batch(&batch), invalid("Batch ID cannot be zero"));
    let mut batch = batch_of(1, vec![]);
    batch.l1_origin = U256::zero();
    assert_eq!(validator.validate_batch(&batch), invalid("L1 origin cannot be zero"));
}

#[test]
fn genesis_block_may_have_a_zero_parent() {
    let validator = BatchValidator::default();
    let mut first = good_block(0, 1, 10);
    first.parent_hash = FixedBytes::zero();
    assert_eq!(validator.validate_batch(&batch_of(1, vec![first])), Ok(()));
    let mut second = good_block(0, 2, 10);
    second.parent_hash = FixedBytes::zero();
    assert_eq!(
        validator.validate_batch(&batch_of(1, vec![second])),
        invalid("Non-genesis block must have non-zero parent hash")
    );
}

#[test]
fn block_count_limit_is_inclusive() {
    let validator = BatchValidator::default();
    let blocks: Vec<BlockInBatch> =
        (0..1000).map(|i| good_block(i as u32, i as u64 + 1, 10 + i as u64)).collect();
    assert_eq!(validator.validate_batch(&batch_of(1, blocks.clone())), Ok(()));
    let mut more = blocks;
    more.push(good_block(1000, 1001, 2000));
    assert_eq!(
        validator.validate_batch(&batch_of(1, more)),
        invalid("Too many blocks in batch: 1001 > 1000")
    );
}

#[test]
fn estimated_size_counts_header_proof_and_blocks() {
    let validator = BatchValidator::default();
    assert_eq!(validator.estimate_batch_size(&batch_of(1, vec![])), 72 + 3);
    let two = batch_of(1, vec![good_block(0, 1, 10), good_block(1, 2, 11)]);
    assert_eq!(validator.estimate_batch_size(&two), 72 + 3 + 2 * 176);

    // exactly at the limit is accepted, one byte more is not
    let exact = BatchValidator::new(1000, 72 + 3 + 2 * 176, true);
    assert_eq!(exact.validate_batch(&two), Ok(()));
    let tight = BatchValidator::new(1000, 72 + 3 + 2 * 176 - 1, true);
    assert_eq!(
        tight.validate_batch(&two),
        invalid("Batch too large: 427 bytes > 426 bytes")
    );
}

#[test]
fn each_block_rule_has_its_message() {
    let validator = BatchValidator::default();
    let check = |block: BlockInBatch, text: &str| {
        assert_eq!(validator.validate_block_in_batch(&block, 0), invalid(text));
        assert_eq!(validator.validate_batch(&batch_of(1, vec![block])), invalid(text));
    };
    let mut b = good_block(3, 5, 10);
    check(b, "Block batch index mismatch: expected 0, got 3");
    b = good_block(0, 0, 10);
    check(b, "Block number cannot be zero");
    b = good_block(0, 5, 10);
    b.hash = FixedBytes::zero();
    check(b, "Block hash cannot be zero");
    b = good_block(0, 5, 10);
    b.state_root = FixedBytes::zero();
    check(b, "State root cannot be zero");
    b = good_block(0, 5, 10);
    b.receipt_root = FixedBytes::zero();
    check(b, "Receipts root cannot be zero");
    b = good_block(0, 5, 10);
    b.tx_root = FixedBytes::zero();
    check(b, "Transactions root cannot be zero");
    b = good_block(0, 5, 0);
    check(b, "Block timestamp cannot be zero");
    assert_eq!(validator.validate_block_in_batch(&good_block(0, 5, 10), 0), Ok(()));
    assert_eq!(
        BatchValidator::check_block_in_batch(&good_block(1, 5, 10), 2),
        Some(BlockFault::IndexMismatch { expected: 2, got: 1 })
    );
}

#[test]
fn the_first_faulty_block_is_reported() {
    let validator = BatchValidator::default();
    let mut second = good_block(1, 6, 11);
    second.hash = FixedBytes::zero();
    let third = good_block(7, 7, 12);
    let batch = batch_of(1, vec![good_block(0, 5, 10), second, third]);
    assert_eq!(
        validator.check_batch(&batch),
        Some(BatchFault::Block { position: 1, fault: BlockFault::ZeroHash })
    );
}

#[test]
fn block_numbers_must_rise_in_either_mode() {
    let blocks = vec![good_block(0, 5, 10), good_block(1, 5, 11)];
    let strict = BatchValidator::new(1000, 10_000_000, true);
    let lax = BatchValidator::new(1000, 10_000_000, false);
    assert_eq!(
        strict.validate_batch(&batch_of(1, blocks.clone())),
        invalid("Block numbers not in order: 5 <= 5")
    );
    assert_eq!(
        lax.validate_batch(&batch_of(1, blocks.clone())),
        invalid("Block numbers not in order: 5 <= 5")
    );
    assert_eq!(
        strict.validate_block_ordering(&blocks),
        invalid("Block numbers not in order: 5 <= 5")
    );
}

#[test]
fn falling_timestamps_are_fatal_only_in_strict_mode() {
    let blocks = vec![good_block(0, 5, 20), good_block(1, 6, 19)];
    let strict = BatchValidator::new(1000, 10_000_000, true);
    let lax = BatchValidator::new(1000, 10_000_000, false);
    assert_eq!(
        strict.validate_batch(&batch_of(1, blocks.clone())),
        invalid("Block timestamps not in order: 19 < 20")
    );
    assert_eq!(lax.validate_batch(&batch_of(1, blocks.clone())), Ok(()));
    // equal timestamps are in order
    let level = vec![good_block(0, 5, 20), good_block(1, 6, 20)];
    assert_eq!(strict.validate_batch(&batch_of(1, level)), Ok(()));
    assert_eq!(
        BatchValidator::check_block_ordering(&blocks, true),
        Some(BatchFault::TimestampsOutOfOrder { timestamp: 19, previous: 20 })
    );
    assert_eq!(BatchValidator::check_block_ordering(&blocks, false), None);
    assert_eq!(BatchValidator::check_block_ordering(&vec![], true), None);
}

fn good_inputs() -> BlockInputs {
    BlockInputs {
        number: 100,
        hash: FixedBytes::from([1u8; 32]),
        parent_hash: FixedBytes::from([2u8; 32]),
        state_root: FixedBytes::from([3u8; 32]),
        receipts_root: FixedBytes::from([4u8; 32]),
        transactions_root: FixedBytes::from([5u8; 32]),
        timestamp: 1234567890,
        gas_limit: 30000000,
        gas_used: 15000000,
        base_fee_per_gas: None,
        extra_data: Bytes::new(),
        transactions: vec![],
    }
}

fn good_tx() -> TransactionInput {
    TransactionInput {
        hash: FixedBytes::from([1u8; 32]),
        tx_type: 2,
        gas_limit: 21000,
        gas_price: None,
        max_fee_per_gas: None,
        max_priority_fee_per_gas: None,
        nonce: 1,
        value: U256::from(5),
        to: None,
        data: Bytes::new(),
        access_list: vec![],
    }
}

#[test]
fn each_block_inputs_rule_has_its_message() {
    let validator = BatchValidator::default();
    let check = |block: BlockInputs, text: &str| {
        assert_eq!(
            validator.validate_block_inputs(&block),
            Err(IngestError::InvalidBlockData(text.to_string()))
        );
    };
    let mut b = good_inputs();
    b.number = 0;
    check(b, "Block number cannot be zero");
    b = good_inputs();
    b.hash = FixedBytes::zero();
    check(b, "Block hash cannot be zero");
    b = good_inputs();
    b.parent_hash = FixedBytes::zero();
    check(b, "Non-genesis block must have non-zero parent hash");
    b = good_inputs();
    b.parent_hash = FixedBytes::zero();
    b.number = 1;
    assert_eq!(validator.validate_block_inputs(&b), Ok(()));
    b = good_inputs();
    b.state_root = FixedBytes::zero();
    check(b, "State root cannot be zero");
    b = good_inputs();
    b.receipts_root = FixedBytes::zero();
    check(b, "Receipts root cannot be zero");
    b = good_inputs();
    b.transactions_root = FixedBytes::zero();
    check(b, "Transactions root cannot be zero");
    b = good_inputs();
    b.gas_limit = 0;
    b.gas_used = 0;
    check(b, "Gas limit cannot be zero");
    b = good_inputs();
    b.gas_used = 30000001;
    check(b, "Gas used 30000001 exceeds gas limit 30000000");
    b = good_inputs();
    b.gas_used = 30000000;
    assert_eq!(validator.validate_block_inputs(&b), Ok(()));
    b = good_inputs();
    b.timestamp = 0;
    check(b, "Block timestamp cannot be zero");
}

#[test]
fn transactions_are_checked_in_order() {
    let validator = BatchValidator::default();
    let mut no_hash = good_tx();
    no_hash.hash = FixedBytes::zero();
    let mut no_gas = good_tx();
    no_gas.gas_limit = 0;
    let mut no_nonce = good_tx();
    no_nonce.nonce = 0;
    assert_eq!(
        validator.validate_transaction_input(&no_hash),
        Err(IngestError::InvalidBlockData("Transaction hash cannot be zero".to_string()))
    );
    assert_eq!(
        validator.validate_transaction_input(&no_gas),
        Err(IngestError::InvalidBlockData("Transaction gas limit cannot be zero".to_string()))
    );
    assert_eq!(
        validator.validate_transaction_input(&no_nonce),
        Err(IngestError::InvalidBlockData(
            "Non-zero value transaction must have non-zero nonce".to_string()
        ))
    );
    let mut free = good_tx();
    free.nonce = 0;
    free.value = U256::zero();
    assert_eq!(validator.validate_transaction_input(&free), Ok(()));

    let mut block = good_inputs();
    block.transactions = vec![good_tx(), no_gas, no_hash];
    assert_eq!(
        BatchValidator::check_block_inputs(&block),
        Some(BlockInputsFault::Transaction(TransactionFault::ZeroGasLimit))
    );
    block.transactions = vec![good_tx(), free];
    assert_eq!(BatchValidator::check_block_inputs(&block), None);
}
