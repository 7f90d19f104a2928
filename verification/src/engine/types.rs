//! What goes into the engine and what comes back.

use vstd::prelude::*;
use crate::types::batch::{Batch, BlockInBatch};
use crate::types::bytes::{Bytes, FixedBytes};
use crate::types::u256::U256;

verus! {

/// The batch that a block belongs to.
#[derive(Debug, Clone, Copy, PartialEq, Eq)]
pub struct BatchInfo {
    /// Batch number.
    pub batch_id: U256,
    /// L1 block number at which the batch was submitted.
    pub l1_origin: U256,
    /// L1 block hash at which the batch was submitted.
    pub l1_origin_hash: FixedBytes<32>,
    /// Position of the block within the batch.
    pub batch_index: u32,
}

/// A block ready for import into the engine.
#[derive(Debug, Clone, PartialEq, Eq)]
pub struct ImportableBlock {
    /// Block number.
    pub number: U256,
    /// Block hash.
    pub hash: FixedBytes<32>,
    /// Hash of the parent block.
    pub parent_hash: FixedBytes<32>,
    /// State root.
    pub state_root: FixedBytes<32>,
    /// Transaction root.
    pub tx_root: FixedBytes<32>,
    /// Receipt root.
    pub receipt_root: FixedBytes<32>,
    /// Block timestamp.
    pub timestamp: u64,
    /// The encoded block.
    pub data: Bytes,
    /// The batch that the block belongs to, where known.
    pub batch_info: Option<BatchInfo>,
}

/// What an import of blocks did.
#[derive(Debug, Clone, Copy, PartialEq, Eq)]
pub struct ImportResult {
    /// Number of blocks that were imported.
    pub blocks_imported: usize,
    /// Highest block number among the blocks handed in.
    pub highest_block: U256,
    /// Whether a block was left out because the engine had it already.
    pub blocks_skipped: bool,
}

/// What marking a block final did.
#[derive(Debug, Clone, Copy, PartialEq, Eq)]
pub struct FinalityResult {
    /// The block that was marked final.
    pub final_block: U256,
    /// Number of blocks affected.
    pub blocks_affected: usize,
}

/// What unwinding the chain did.
#[derive(Debug, Clone, Copy, PartialEq, Eq)]
pub struct RollbackResult {
    /// The block that the chain was unwound to.
    pub rollback_block: U256,
    /// Number of blocks that were unwound.
    pub blocks_rolled_back: usize,
}

/// The three hashes of a fork-choice update.
#[derive(Debug, Clone, Copy, PartialEq, Eq)]
pub struct ForkChoice {
    /// Hash of the head block.
    pub head_block_hash: FixedBytes<32>,
    /// Hash of the safe block.
    pub safe_block_hash: FixedBytes<32>,
    /// Hash of the finalized block.
    pub finalized_block_hash: FixedBytes<32>,
}

impl ForkChoice {
    /// The fork choice that finalizes a block: head, safe and finalized are
    /// all that block.
    pub fn finalizing(block_hash: FixedBytes<32>) -> (r: ForkChoice)
        ensures
            r.head_block_hash == block_hash,
            r.safe_block_hash == block_hash,
            r.finalized_block_hash == block_hash,
    {
        ForkChoice {
            head_block_hash: block_hash,
            safe_block_hash: block_hash,
            finalized_block_hash: block_hash,
        }
    }
}

impl BatchInfo {
    /// Batch information with the given fields.
    pub fn new(batch_id: U256, l1_origin: U256, l1_origin_hash: FixedBytes<32>, batch_index: u32) -> (r:
        BatchInfo)
        ensures
            r == (BatchInfo { batch_id, l1_origin, l1_origin_hash, batch_index }),
    {
        BatchInfo { batch_id, l1_origin, l1_origin_hash, batch_index }
    }
}

impl ImportableBlock {
    /// A block with the given fields.
    pub fn new(
        number: U256,
        hash: FixedBytes<32>,
        parent_hash: FixedBytes<32>,
        state_root: FixedBytes<32>,
        tx_root: FixedBytes<32>,
        receipt_root: FixedBytes<32>,
        timestamp: u64,
        data: Bytes,
        batch_info: Option<BatchInfo>,
    ) -> (r: ImportableBlock)
        ensures
            r == (ImportableBlock {
                number,
                hash,
                parent_hash,
                state_root,
                tx_root,
                receipt_root,
                timestamp,
                data,
                batch_info,
            }),
    {
        ImportableBlock {
            number,
            hash,
            parent_hash,
            state_root,
            tx_root,
            receipt_root,
            timestamp,
            data,
            batch_info,
        }
    }

    /// The importable form of a block of a batch: the block's own fields, the
    /// encoded block, and the batch it came in.
    pub fn from_batch_block(block: &BlockInBatch, batch: &Batch, data: Bytes) -> (r: ImportableBlock)
        ensures
            r == (ImportableBlock {
                number: block.number,
                hash: block.hash,
                parent_hash: block.parent_hash,
                state_root: block.state_root,
                tx_root: block.tx_root,
                receipt_root: block.receipt_root,
                timestamp: block.timestamp,
                data,
                batch_info: Some(
                    BatchInfo {
                        batch_id: batch.id.number,
                        l1_origin: batch.l1_origin,
                        l1_origin_hash: batch.l1_origin_hash,
                        batch_index: block.batch_index,
                    },
                ),
            }),
    {
        let batch_info = BatchInfo {
            batch_id: batch.id.number,
            l1_origin: batch.l1_origin,
            l1_origin_hash: batch.l1_origin_hash,
            batch_index: block.batch_index,
        };
        ImportableBlock::new(
            block.number,
            block.hash,
            block.parent_hash,
            block.state_root,
            block.tx_root,
            block.receipt_root,
            block.timestamp,
            data,
            Some(batch_info),
        )
    }
}

} // verus!
