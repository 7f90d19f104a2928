//! Epochs: contiguous ranges of blocks and batches, used for indexing.

use vstd::prelude::*;
use crate::types::bytes::FixedBytes;
use crate::types::u256::{pow256, U256};

verus! {

/// What identifies an epoch: its sequence number and the digest of its metadata.
#[derive(Debug, Clone, Copy, PartialEq, Eq, Hash)]
pub struct EpochId {
    /// Sequential epoch number.
    pub number: U256,
    /// Digest of the epoch metadata.
    pub hash: FixedBytes<32>,
}

/// A contiguous range of the chain.
#[derive(Debug, Clone, Copy, PartialEq, Eq)]
pub struct Epoch {
    /// Number and digest of the epoch.
    pub id: EpochId,
    /// First block of the epoch.
    pub start_block: U256,
    /// Last block of the epoch.
    pub end_block: U256,
    /// First batch of the epoch.
    pub start_batch: U256,
    /// Last batch of the epoch.
    pub end_batch: U256,
    /// When the epoch began.
    pub start_timestamp: u64,
    /// When the epoch ended.
    pub end_timestamp: u64,
}

/// The number of items in the closed range `[start, end]`, taken as one where
/// `end` lies before `start`, and reduced modulo `2^256`.
pub open spec fn span_count(start: nat, end: nat) -> nat {
    (((if end >= start { end - start } else { 0 }) + 1) % (pow256() as int)) as nat
}

impl EpochId {
    /// The identifier with the given number and digest.
    pub fn new(number: U256, hash: FixedBytes<32>) -> (r: EpochId)
        ensures
            r.number == number,
            r.hash == hash,
    {
        EpochId { number, hash }
    }
}

impl Epoch {
    /// An epoch with the given fields.
    pub fn new(
        id: EpochId,
        start_block: U256,
        end_block: U256,
        start_batch: U256,
        end_batch: U256,
        start_timestamp: u64,
        end_timestamp: u64,
    ) -> (r: Epoch)
        ensures
            r == (Epoch {
                id,
                start_block,
                end_block,
                start_batch,
                end_batch,
                start_timestamp,
                end_timestamp,
            }),
    {
        Epoch { id, start_block, end_block, start_batch, end_batch, start_timestamp, end_timestamp }
    }

    /// The number of blocks in the epoch: `end_block - start_block + 1`.
    pub fn block_count(&self) -> (r: U256)
        ensures
            r@ == span_count(self.start_block@, self.end_block@),
            self.start_block@ <= self.end_block@ && self.end_block@ - self.start_block@ + 1
                < pow256() ==> r@ == self.end_block@ - self.start_block@ + 1,
    {
        let one = U256::one();
        self.end_block.saturating_sub(&self.start_block).wrapping_add(&one)
    }

    /// The number of batches in the epoch: `end_batch - start_batch + 1`.
    pub fn batch_count(&self) -> (r: U256)
        ensures
            r@ == span_count(self.start_batch@, self.end_batch@),
            self.start_batch@ <= self.end_batch@ && self.end_batch@ - self.start_batch@ + 1
                < pow256() ==> r@ == self.end_batch@ - self.start_batch@ + 1,
    {
        let one = U256::one();
        self.end_batch.saturating_sub(&self.start_batch).wrapping_add(&one)
    }

    /// The length of the epoch in seconds, zero where it ends before it begins.
    pub fn duration_seconds(&self) -> (r: u64)
        ensures
            r == if self.end_timestamp >= self.start_timestamp {
                self.end_timestamp - self.start_timestamp
            } else {
                0
            },
    {
        self.end_timestamp.saturating_sub(self.start_timestamp)
    }

    /// Whether the block lies within the epoch.
    pub fn contains_block(&self, block_number: U256) -> (r: bool)
        ensures
            r == (self.start_block@ <= block_number@ <= self.end_block@),
    {
        block_number.ge(&self.start_block) && block_number.le(&self.end_block)
    }

    /// Whether the batch lies within the epoch.
    pub fn contains_batch(&self, batch_number: U256) -> (r: bool)
        ensures
            r == (self.start_batch@ <= batch_number@ <= self.end_batch@),
    {
        batch_number.ge(&self.start_batch) && batch_number.le(&self.end_batch)
    }

    /// Whether the epoch holds no block.
    pub fn is_empty(&self) -> (r: bool)
        ensures
            r == (self.start_block@ > self.end_block@),
    {
        self.start_block.gt(&self.end_block)
    }
}

} // verus!
