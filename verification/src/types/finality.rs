//! Finality tags: what L1 says about a batch.

use vstd::prelude::*;
use crate::types::bytes::FixedBytes;
use crate::types::u256::U256;

verus! {

/// Finality status of a batch.
#[derive(Debug, Clone, Copy, PartialEq, Eq, Structural)]
pub enum FinalityStatus {
    /// No terminal event was seen yet.
    Pending,
    /// L1 finalized the batch.
    Finalized,
    /// L1 rolled the batch back.
    RolledBack,
}

/// The record of one finality event.
#[derive(Debug, Clone, Copy, PartialEq, Eq)]
pub struct FinalityTag {
    /// The batch the tag speaks of.
    pub batch_id: U256,
    /// L1 block number at which the status was determined.
    pub l1_block: U256,
    /// L1 block hash at which the status was determined.
    pub l1_block_hash: FixedBytes<32>,
    /// The status.
    pub status: FinalityStatus,
    /// When the status was determined.
    pub timestamp: u64,
    /// The transaction that caused the change, where known.
    pub tx_hash: Option<FixedBytes<32>>,
}

impl FinalityTag {
    /// A tag with the given fields.
    pub fn new(
        batch_id: U256,
        l1_block: U256,
        l1_block_hash: FixedBytes<32>,
        status: FinalityStatus,
        timestamp: u64,
        tx_hash: Option<FixedBytes<32>>,
    ) -> (r: FinalityTag)
        ensures
            r == (FinalityTag { batch_id, l1_block, l1_block_hash, status, timestamp, tx_hash }),
    {
        FinalityTag { batch_id, l1_block, l1_block_hash, status, timestamp, tx_hash }
    }

    /// Whether the batch is finalized.
    pub fn is_finalized(&self) -> (r: bool)
        ensures
            r == (self.status == FinalityStatus::Finalized),
    {
        matches!(self.status, FinalityStatus::Finalized)
    }

    /// Whether the batch was rolled back.
    pub fn is_rolled_back(&self) -> (r: bool)
        ensures
            r == (self.status == FinalityStatus::RolledBack),
    {
        matches!(self.status, FinalityStatus::RolledBack)
    }

    /// Whether the batch is still pending.
    pub fn is_pending(&self) -> (r: bool)
        ensures
            r == (self.status == FinalityStatus::Pending),
    {
        matches!(self.status, FinalityStatus::Pending)
    }
}

impl FinalityStatus {
    /// The status in lower case, words joined by an underscore.
    pub fn as_str(&self) -> (r: &'static str)
        ensures
            r@ == self.name(),
    {
        match self {
            FinalityStatus::Pending => "pending",
            FinalityStatus::Finalized => "finalized",
            FinalityStatus::RolledBack => "rolled_back",
        }
    }

    /// The text that `as_str` gives.
    pub open spec fn name(&self) -> Seq<char> {
        match self {
            FinalityStatus::Pending => "pending"@,
            FinalityStatus::Finalized => "finalized"@,
            FinalityStatus::RolledBack => "rolled_back"@,
        }
    }
}

} // verus!
