//! What the RPC queries take and give.

use vstd::prelude::*;
use crate::types::batch::{Batch, BatchId};
use crate::types::epoch::Epoch;
use crate::types::u256::U256;

verus! {

/// The query for a batch by its number.
#[derive(Debug, Clone, PartialEq, Eq)]
pub struct GetBatchByNumberRequest {
    /// Batch number, in hexadecimal.
    pub batch_number: String,
}

/// The query for the epoch of a block.
#[derive(Debug, Clone, PartialEq, Eq)]
pub struct GetEpochByBlockRequest {
    /// Block number, in hexadecimal.
    pub block_number: String,
}

/// What is known of a batch besides its contents.
#[derive(Debug, Clone, Copy, PartialEq, Eq)]
pub struct BatchMetadata {
    /// Number of blocks in the batch.
    pub block_count: u64,
    /// Number of transactions in the batch.
    pub transaction_count: u64,
    /// Size of the batch in bytes.
    pub size_bytes: u64,
    /// Time it took to process the batch, in milliseconds.
    pub processing_time_ms: u64,
}

/// What is known of an epoch besides its bounds.
#[derive(Debug, Clone, Copy, PartialEq, Eq)]
pub struct EpochMetadata {
    /// Number of batches in the epoch.
    pub batch_count: u64,
    /// Number of blocks in the epoch.
    pub block_count: u64,
    /// Length of the epoch in seconds.
    pub duration_seconds: u64,
    /// Average size of a batch in bytes.
    pub avg_batch_size_bytes: u64,
}

/// The answer to the query for the latest finality event.
#[derive(Debug, Clone, PartialEq, Eq)]
pub struct FinalizedBatchResponse {
    /// The batch.
    pub batch_id: BatchId,
    /// Its status, as a word.
    pub status: String,
    /// The L1 block of the event.
    pub l1_block: U256,
    /// The time of the event.
    pub timestamp: u64,
}

/// The answer to the query for a batch.
#[derive(Debug, Clone, PartialEq, Eq)]
pub struct BatchResponse {
    /// The batch.
    pub batch: Batch,
    /// What else is known of it.
    pub metadata: BatchMetadata,
}

/// The answer to the query for an epoch.
#[derive(Debug, Clone, Copy, PartialEq, Eq)]
pub struct EpochResponse {
    /// The epoch.
    pub epoch: Epoch,
    /// What else is known of it.
    pub metadata: EpochMetadata,
}

/// Counters that the metrics query reports.
#[derive(Debug, Clone, Copy, PartialEq, Eq)]
pub struct RpcCounters {
    /// Batches known.
    pub total_batches: u64,
    /// Epochs known.
    pub total_epochs: u64,
    /// Number of the latest batch.
    pub latest_batch: Option<U256>,
    /// Number of the latest epoch.
    pub latest_epoch: Option<U256>,
    /// Number of the latest finalized batch.
    pub latest_finalized_batch: Option<U256>,
    /// How many blocks L1 is ahead.
    pub l1_lag: Option<u64>,
    /// Reorganizations seen.
    pub reorg_count: u64,
}

} // verus!
