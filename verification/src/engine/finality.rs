//! Marking blocks final at the engine.

use vstd::prelude::*;
use crate::engine::error::EngineFacadeError;
use crate::engine::types::FinalityResult;
use crate::types::finality::{FinalityStatus, FinalityTag};
use crate::types::u256::U256;

verus! {

/// The final block after `number` was marked final: finality never moves back.
pub open spec fn final_after(before: nat, number: nat) -> nat {
    if number > before {
        number
    } else {
        before
    }
}

/// Where blocks are marked final.
pub trait FinalityManager {
    /// The number of the highest final block, zero before any was marked.
    spec fn final_block(&self) -> nat;

    /// Marks a block final, and with it every block before it. The result
    /// names the block, and counts it as the one block affected.
    fn mark_final(&mut self, block_number: U256) -> (r: Result<FinalityResult, EngineFacadeError>)
        ensures
            r is Ok ==> final(self).final_block() == final_after(
                old(self).final_block(),
                block_number@,
            ) && r->Ok_0 == (FinalityResult { final_block: block_number, blocks_affected: 1 }),
            r is Err ==> final(self).final_block() == old(self).final_block(),
    ;

    /// Acts on a finality tag: a finalized one marks its number final, any
    /// other changes nothing.
    fn process_finality_tag(&mut self, tag: &FinalityTag) -> (r: Result<
        FinalityResult,
        EngineFacadeError,
    >)
        ensures
            r is Ok && tag.status == FinalityStatus::Finalized ==> final(self).final_block()
                == final_after(old(self).final_block(), tag.batch_id@),
            tag.status != FinalityStatus::Finalized ==> final(self).final_block()
                == old(self).final_block(),
            r is Err ==> final(self).final_block() == old(self).final_block(),
            r is Ok ==> r->Ok_0 == (FinalityResult {
                final_block: tag.batch_id,
                blocks_affected: if tag.status == FinalityStatus::Finalized {
                    1usize
                } else {
                    0usize
                },
            }),
    ;

    /// The number of the highest final block.
    fn get_final_block(&self) -> (r: Result<U256, EngineFacadeError>)
        ensures
            r is Ok ==> r->Ok_0@ == self.final_block(),
    ;

    /// Whether the block is final: it lies at or below the highest final block.
    fn is_final(&self, block_number: U256) -> (r: Result<bool, EngineFacadeError>)
        ensures
            r is Ok ==> r->Ok_0 == (block_number@ <= self.final_block()),
    ;
}

/// Keeps the highest final block in memory.
#[derive(Debug)]
pub struct DefaultFinalityManager {
    final_block: U256,
}

impl DefaultFinalityManager {
    /// A manager for which no block is final yet.
    pub fn new() -> (r: DefaultFinalityManager)
        ensures
            r.final_block() == 0,
    {
        DefaultFinalityManager { final_block: U256::zero() }
    }
}

impl Default for DefaultFinalityManager {
    fn default() -> (r: DefaultFinalityManager)
        ensures
            r.final_block() == 0,
    {
        DefaultFinalityManager::new()
    }
}

impl FinalityManager for DefaultFinalityManager {
    closed spec fn final_block(&self) -> nat {
        self.final_block@
    }

    /// Marks a block final; this never fails, and reports one block affected.
    fn mark_final(&mut self, block_number: U256) -> (r: Result<FinalityResult, EngineFacadeError>)
        ensures
            r is Ok,
            r->Ok_0.blocks_affected == 1,
    {
        self.final_block = self.final_block.max(block_number);
        Ok(FinalityResult { final_block: block_number, blocks_affected: 1 })
    }

    /// Acts on a finality tag; this never fails.
    fn process_finality_tag(&mut self, tag: &FinalityTag) -> (r: Result<
        FinalityResult,
        EngineFacadeError,
    >)
        ensures
            r is Ok,
            r->Ok_0.blocks_affected == if tag.status == FinalityStatus::Finalized {
                1usize
            } else {
                0usize
            },
    {
        match tag.status {
            FinalityStatus::Finalized => self.mark_final(tag.batch_id),
            FinalityStatus::RolledBack => Ok(
                FinalityResult { final_block: tag.batch_id, blocks_affected: 0 },
            ),
            FinalityStatus::Pending => Ok(
                FinalityResult { final_block: tag.batch_id, blocks_affected: 0 },
            ),
        }
    }

    /// The number of the highest final block; this never fails.
    fn get_final_block(&self) -> (r: Result<U256, EngineFacadeError>)
        ensures
            r is Ok,
    {
        Ok(self.final_block)
    }

    /// Whether the block is final; this never fails.
    fn is_final(&self, block_number: U256) -> (r: Result<bool, EngineFacadeError>)
        ensures
            r is Ok,
    {
        Ok(block_number.le(&self.final_block))
    }
}

} // verus!
