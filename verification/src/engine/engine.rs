//! The engine facade: one place for imports, finality and unwinding.

use vstd::prelude::*;
use crate::engine::block_import::{
    highest_number, imported_count, numbers_fit, BlockImporter, ChainState, DefaultBlockImporter,
};
use crate::engine::error::EngineFacadeError;
use crate::engine::finality::{final_after, DefaultFinalityManager, FinalityManager};
use crate::engine::types::{
    FinalityResult, ForkChoice, ImportResult, ImportableBlock, RollbackResult,
};
use crate::types::batch::Batch;
use crate::types::finality::{FinalityStatus, FinalityTag};
use crate::types::u256::U256;
use crate::util::keys::keys_above;

verus! {

/// Unified access to the engine.
pub struct EngineFacade<B: BlockImporter, F: FinalityManager> {
    /// Where blocks go in.
    pub block_importer: B,
    /// Where blocks are marked final.
    pub finality_manager: F,
}

impl<B: BlockImporter, F: FinalityManager> EngineFacade<B, F> {
    /// A facade on the given parts.
    pub fn new(block_importer: B, finality_manager: F) -> (r: Self)
        ensures
            r.block_importer == block_importer,
            r.finality_manager == finality_manager,
    {
        EngineFacade { block_importer, finality_manager }
    }

    /// The chain as the engine holds it.
    pub open spec fn chain(&self) -> ChainState {
        self.block_importer.chain()
    }

    /// The number of the highest final block.
    pub open spec fn final_block(&self) -> nat {
        self.finality_manager.final_block()
    }

    /// Imports the blocks of a batch in order.
    pub fn import_batch(&mut self, batch: &Batch, blocks: Vec<ImportableBlock>) -> (r: Result<
        ImportResult,
        EngineFacadeError,
    >)
        ensures
            final(self).final_block() == old(self).final_block(),
            r is Ok ==> {
                &&& numbers_fit(blocks@)
                &&& final(self).chain() == old(self).chain().with_blocks(blocks@)
                &&& r->Ok_0.blocks_imported == imported_count(old(self).chain(), blocks@)
                &&& r->Ok_0.highest_block@ == highest_number(blocks@)
                &&& r->Ok_0.blocks_skipped == (imported_count(old(self).chain(), blocks@)
                    < blocks@.len())
            },
            r is Err ==> exists|n: int|
                0 <= n < blocks@.len() && final(self).chain() == old(self).chain().with_blocks(
                    #[trigger] blocks@.take(n),
                ),
    {
        self.block_importer.import_batch(batch, blocks)
    }

    /// Imports one block.
    pub fn import_block(&mut self, block: ImportableBlock) -> (r: Result<(), EngineFacadeError>)
        ensures
            final(self).final_block() == old(self).final_block(),
            r is Ok ==> block.number@ <= u64::MAX && final(self).chain()
                == old(self).chain().with_block(block.number@ as u64, block.hash),
            r is Err ==> final(self).chain() == old(self).chain(),
    {
        self.block_importer.import_block(block)
    }

    /// Marks a block final, and with it every block before it. The result
    /// names the block, and counts it as the one block affected.
    pub fn mark_final(&mut self, block_number: U256) -> (r: Result<FinalityResult, EngineFacadeError>)
        ensures
            final(self).chain() == old(self).chain(),
            r is Ok ==> final(self).final_block() == final_after(
                old(self).final_block(),
                block_number@,
            ) && r->Ok_0 == (FinalityResult { final_block: block_number, blocks_affected: 1 }),
            r is Err ==> final(self).final_block() == old(self).final_block(),
    {
        self.finality_manager.mark_final(block_number)
    }

    /// The fork choice that finalizes the block with this number: head, safe
    /// and finalized are all the hash of that block. `None` where the engine
    /// does not have the block.
    pub fn fork_choice_for(&self, block_number: U256) -> (r: Result<
        Option<ForkChoice>,
        EngineFacadeError,
    >)
        ensures
            r is Ok ==> match self.chain().hash_of(block_number@) {
                Some(hash) => r->Ok_0 == Some(
                    ForkChoice {
                        head_block_hash: hash,
                        safe_block_hash: hash,
                        finalized_block_hash: hash,
                    },
                ),
                None => r->Ok_0 is None,
            },
    {
        match self.block_importer.get_block_hash(block_number) {
            Ok(Some(hash)) => Ok(Some(ForkChoice::finalizing(hash))),
            Ok(None) => Ok(None),
            Err(e) => Err(e),
        }
    }

    /// Acts on a finality tag, taking the tag's number as a block number: a
    /// finalized tag marks it final, a rolled-back tag unwinds to it, a pending
    /// tag does nothing.
    pub fn process_finality_tag(&mut self, tag: &FinalityTag) -> (r: Result<
        FinalityResult,
        EngineFacadeError,
    >)
        ensures
            match tag.status {
                FinalityStatus::Finalized => {
                    &&& final(self).chain() == old(self).chain()
                    &&& r is Ok ==> final(self).final_block() == final_after(
                        old(self).final_block(),
                        tag.batch_id@,
                    ) && r->Ok_0.blocks_affected == 1
                    &&& r is Err ==> final(self).final_block() == old(self).final_block()
                },
                FinalityStatus::RolledBack => {
                    &&& final(self).final_block() == old(self).final_block()
                    &&& r is Ok && tag.batch_id@ <= u64::MAX ==> final(self).chain()
                        == old(self).chain().unwound_to(tag.batch_id@ as u64)
                        && r->Ok_0.blocks_affected
                        == old(self).chain().blocks.dom().intersect(keys_above(tag.batch_id@ as u64)).len()
                    &&& r is Ok && tag.batch_id@ > u64::MAX ==> final(self).chain()
                        == old(self).chain() && r->Ok_0.blocks_affected == 0
                    &&& r is Err ==> final(self).chain() == old(self).chain()
                },
                FinalityStatus::Pending => {
                    &&& final(self).chain() == old(self).chain()
                    &&& final(self).final_block() == old(self).final_block()
                    &&& r is Ok
                    &&& r->Ok_0.blocks_affected == 0
                },
            },
            r is Ok ==> r->Ok_0.final_block == tag.batch_id,
    {
        match tag.status {
            FinalityStatus::Finalized => self.finality_manager.mark_final(tag.batch_id),
            FinalityStatus::RolledBack => match self.rollback_to(tag.batch_id) {
                Ok(done) => Ok(
                    FinalityResult {
                        final_block: tag.batch_id,
                        blocks_affected: done.blocks_rolled_back,
                    },
                ),
                Err(e) => Err(e),
            },
            FinalityStatus::Pending => Ok(
                FinalityResult { final_block: tag.batch_id, blocks_affected: 0 },
            ),
        }
    }

    /// Unwinds the chain to `block_number`: every block above it goes.
    pub fn rollback_to(&mut self, block_number: U256) -> (r: Result<RollbackResult, EngineFacadeError>)
        ensures
            final(self).final_block() == old(self).final_block(),
            r is Ok ==> r->Ok_0.rollback_block == block_number,
            r is Ok && block_number@ <= u64::MAX ==> {
                &&& final(self).chain() == old(self).chain().unwound_to(block_number@ as u64)
                &&& r->Ok_0.blocks_rolled_back == old(self).chain().blocks.dom().intersect(
                    keys_above(block_number@ as u64),
                ).len()
            },
            r is Ok && block_number@ > u64::MAX ==> final(self).chain() == old(self).chain()
                && r->Ok_0.blocks_rolled_back == 0,
            r is Err ==> final(self).chain() == old(self).chain(),
    {
        match self.block_importer.unwind_to(block_number) {
            Ok(count) => Ok(
                RollbackResult { rollback_block: block_number, blocks_rolled_back: count },
            ),
            Err(e) => Err(e),
        }
    }

    /// The number of the head block.
    pub fn get_head_block(&self) -> (r: Result<U256, EngineFacadeError>)
        ensures
            r is Ok ==> r->Ok_0@ == self.chain().head,
    {
        self.block_importer.get_head_block()
    }

    /// The number of the highest final block.
    pub fn get_final_block(&self) -> (r: Result<U256, EngineFacadeError>)
        ensures
            r is Ok ==> r->Ok_0@ == self.final_block(),
    {
        self.finality_manager.get_final_block()
    }

    /// Whether the engine has a block with this number.
    pub fn block_exists(&self, block_number: U256) -> (r: Result<bool, EngineFacadeError>)
        ensures
            r is Ok ==> r->Ok_0 == (block_number@ <= u64::MAX && self.chain().blocks.contains_key(
                block_number@ as u64,
            )),
    {
        self.block_importer.block_exists(block_number)
    }

    /// Whether the block is final.
    pub fn is_final(&self, block_number: U256) -> (r: Result<bool, EngineFacadeError>)
        ensures
            r is Ok ==> r->Ok_0 == (block_number@ <= self.final_block()),
    {
        self.finality_manager.is_final(block_number)
    }
}

impl Default for EngineFacade<DefaultBlockImporter, DefaultFinalityManager> {
    fn default() -> (r: Self)
        ensures
            r.chain() == ChainState::empty(),
            r.final_block() == 0,
    {
        EngineFacade::new(DefaultBlockImporter::new(), DefaultFinalityManager::new())
    }
}

} // verus!
