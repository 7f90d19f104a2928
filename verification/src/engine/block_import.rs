//! Importing blocks into the engine.

use vstd::prelude::*;
use vstd::string::*;
use std::collections::HashMap;
use crate::engine::error::EngineFacadeError;
use crate::engine::types::{ImportResult, ImportableBlock};
use crate::types::batch::Batch;
use crate::types::bytes::FixedBytes;
use crate::types::u256::U256;
use crate::util::keys::{keys_above, remove_keys_above};

verus! {

broadcast use vstd::std_specs::hash::group_hash_axioms;

/// The chain as the engine holds it: the blocks it has, and its head.
pub struct ChainState {
    /// Hash of each block that was imported, by block number.
    pub blocks: Map<u64, FixedBytes<32>>,
    /// Number of the head block, zero before any import.
    pub head: u64,
}

impl ChainState {
    /// The chain before any import.
    pub open spec fn empty() -> ChainState {
        ChainState { blocks: Map::empty(), head: 0 }
    }

    /// The chain after a block was handed in: a block whose number the chain
    /// has already is left out; any other is added, and the head moves up to it
    /// where it lies above.
    pub open spec fn with_block(self, number: u64, hash: FixedBytes<32>) -> ChainState {
        if self.blocks.contains_key(number) {
            self
        } else {
            ChainState {
                blocks: self.blocks.insert(number, hash),
                head: if number > self.head {
                    number
                } else {
                    self.head
                },
            }
        }
    }

    /// The chain after blocks were handed in one after the other, each given
    /// by its number and its hash.
    pub open spec fn with_entries(self, entries: Seq<(nat, FixedBytes<32>)>) -> ChainState
        decreases entries.len(),
    {
        if entries.len() == 0 {
            self
        } else {
            self.with_entries(entries.drop_last()).with_block(
                entries.last().0 as u64,
                entries.last().1,
            )
        }
    }

    /// The chain after the blocks were handed in one after the other.
    pub open spec fn with_blocks(self, blocks: Seq<ImportableBlock>) -> ChainState {
        self.with_entries(entries_of(blocks))
    }

    /// The chain after it was unwound to `number`: the blocks above it are
    /// gone, and the head is at `number` where it stood above.
    pub open spec fn unwound_to(self, number: u64) -> ChainState {
        ChainState {
            blocks: self.blocks.remove_keys(keys_above(number)),
            head: if self.head > number {
                number
            } else {
                self.head
            },
        }
    }

    /// The hash of the block with this number, if the chain has it.
    pub open spec fn hash_of(self, number: nat) -> Option<FixedBytes<32>> {
        if number <= u64::MAX && self.blocks.contains_key(number as u64) {
            Some(self.blocks[number as u64])
        } else {
            None
        }
    }

    /// Whether no block lies above the head.
    pub open spec fn bounded(self) -> bool {
        forall|k: u64| #[trigger] self.blocks.contains_key(k) ==> k <= self.head
    }
}

/// The number and the hash of each block.
pub open spec fn entries_of(blocks: Seq<ImportableBlock>) -> Seq<(nat, FixedBytes<32>)> {
    Seq::new(blocks.len(), |i: int| (blocks[i].number@, blocks[i].hash))
}

/// Whether every block number fits in 64 bits.
pub open spec fn numbers_fit(blocks: Seq<ImportableBlock>) -> bool {
    forall|i: int| 0 <= i < blocks.len() ==> (#[trigger] blocks[i]).number@ <= u64::MAX
}

/// The number of blocks that an import adds to the chain: those whose number
/// the chain does not have when their turn comes.
pub open spec fn added_count(chain: ChainState, entries: Seq<(nat, FixedBytes<32>)>) -> nat
    decreases entries.len(),
{
    if entries.len() == 0 {
        0
    } else {
        added_count(chain, entries.drop_last()) + if chain.with_entries(
            entries.drop_last(),
        ).blocks.contains_key(entries.last().0 as u64) {
            0nat
        } else {
            1nat
        }
    }
}

/// The number of blocks that an import adds to the chain.
pub open spec fn imported_count(chain: ChainState, blocks: Seq<ImportableBlock>) -> nat {
    added_count(chain, entries_of(blocks))
}

/// The highest number among the entries, zero where there are none.
pub open spec fn highest_entry(entries: Seq<(nat, FixedBytes<32>)>) -> nat
    decreases entries.len(),
{
    if entries.len() == 0 {
        0
    } else if entries.last().0 > highest_entry(entries.drop_last()) {
        entries.last().0
    } else {
        highest_entry(entries.drop_last())
    }
}

/// The highest block number among the blocks, zero where there are none.
pub open spec fn highest_number(blocks: Seq<ImportableBlock>) -> nat {
    highest_entry(entries_of(blocks))
}

/// Importing keeps every block at or below the head, and unwinding does too.
pub proof fn lemma_bounded_is_kept(chain: ChainState, number: u64, hash: FixedBytes<32>)
    requires
        chain.bounded(),
    ensures
        chain.with_block(number, hash).bounded(),
        chain.unwound_to(number).bounded(),
{
}

/// Handing in a block that the chain has already changes nothing: imports may
/// be repeated.
pub proof fn lemma_import_idempotent(chain: ChainState, number: u64, hash: FixedBytes<32>)
    ensures
        chain.with_block(number, hash).with_block(number, hash) == chain.with_block(number, hash),
{
}

/// Where blocks go into the engine.
pub trait BlockImporter {
    /// The chain as the engine holds it.
    spec fn chain(&self) -> ChainState;

    /// Imports one block. A block that the engine has already is left out.
    fn import_block(&mut self, block: ImportableBlock) -> (r: Result<(), EngineFacadeError>)
        ensures
            r is Ok ==> block.number@ <= u64::MAX && final(self).chain()
                == old(self).chain().with_block(block.number@ as u64, block.hash),
            r is Err ==> final(self).chain() == old(self).chain(),
    ;

    /// Imports the blocks of a batch in order. Where one fails, those before
    /// it stay imported.
    fn import_batch(&mut self, batch: &Batch, blocks: Vec<ImportableBlock>) -> (r: Result<
        ImportResult,
        EngineFacadeError,
    >)
        ensures
            r is Ok ==> {
                &&& numbers_fit(blocks@)
                &&& final(self).chain() == old(self).chain().with_blocks(blocks@)
                &&& r->Ok_0.blocks_imported == imported_count(old(self).chain(), blocks@)
                &&& r->Ok_0.highest_block@ == highest_number(blocks@)
                &&& r->Ok_0.blocks_skipped == (imported_count(old(self).chain(), blocks@)
                    < blocks@.len())
            },
            r is Err ==> exists|n: int|
                0 <= n < blocks@.len() && final(self).chain() == old(self).chain().with_blocks(
                    #[trigger] blocks@.take(n),
                ),
    ;

    /// Whether the engine has a block with this number.
    fn block_exists(&self, block_number: U256) -> (r: Result<bool, EngineFacadeError>)
        ensures
            r is Ok ==> r->Ok_0 == (block_number@ <= u64::MAX && self.chain().blocks.contains_key(
                block_number@ as u64,
            )),
    ;

    /// The number of the head block.
    fn get_head_block(&self) -> (r: Result<U256, EngineFacadeError>)
        ensures
            r is Ok ==> r->Ok_0@ == self.chain().head,
    ;

    /// The hash of the block with this number, if the engine has it.
    fn get_block_hash(&self, block_number: U256) -> (r: Result<
        Option<FixedBytes<32>>,
        EngineFacadeError,
    >)
        ensures
            r is Ok ==> r->Ok_0 == self.chain().hash_of(block_number@),
    ;

    /// Unwinds the chain to `block_number` and says how many blocks went.
    fn unwind_to(&mut self, block_number: U256) -> (r: Result<usize, EngineFacadeError>)
        ensures
            r is Ok && block_number@ <= u64::MAX ==> {
                &&& final(self).chain() == old(self).chain().unwound_to(block_number@ as u64)
                &&& r->Ok_0 == old(self).chain().blocks.dom().intersect(
                    keys_above(block_number@ as u64),
                ).len()
            },
            r is Ok && block_number@ > u64::MAX ==> final(self).chain() == old(self).chain()
                && r->Ok_0 == 0,
            r is Err ==> final(self).chain() == old(self).chain(),
    ;
}

/// An engine that keeps the chain in memory.
#[derive(Debug)]
pub struct DefaultBlockImporter {
    blocks: HashMap<u64, FixedBytes<32>>,
    head: u64,
}

impl DefaultBlockImporter {
    /// An engine without any block.
    pub fn new() -> (r: DefaultBlockImporter)
        ensures
            r.chain() == ChainState::empty(),
    {
        DefaultBlockImporter { blocks: HashMap::new(), head: 0 }
    }

    /// The hash of the block with this number, if the engine has it.
    pub fn block_hash(&self, block_number: u64) -> (r: Option<FixedBytes<32>>)
        ensures
            r == if self.chain().blocks.contains_key(block_number) {
                Some(self.chain().blocks[block_number])
            } else {
                None
            },
    {
        match self.blocks.get(&block_number) {
            Some(h) => Some(*h),
            None => None,
        }
    }

    /// Imports one block and says whether it was new.
    fn import_one(&mut self, number: U256, hash: FixedBytes<32>) -> (r: Result<
        bool,
        EngineFacadeError,
    >)
        ensures
            number@ <= u64::MAX ==> r is Ok && final(self).chain() == old(self).chain().with_block(
                number@ as u64,
                hash,
            ) && r->Ok_0 == !old(self).chain().blocks.contains_key(number@ as u64),
            number@ > u64::MAX ==> final(self).chain() == old(self).chain() && (r matches Err(
                EngineFacadeError::InvalidBlockData(text),
            ) && text@ == "Block number does not fit in 64 bits"@),
    {
        let n: u64 = match number.to_u64() {
            Some(n) => n,
            None => {
                return Err(
                    EngineFacadeError::InvalidBlockData(
                        String::from_str("Block number does not fit in 64 bits"),
                    ),
                );
            },
        };
        if self.blocks.contains_key(&n) {
            return Ok(false);
        }
        self.blocks.insert(n, hash);
        if n > self.head {
            self.head = n;
        }
        Ok(true)
    }
}

impl Default for DefaultBlockImporter {
    fn default() -> (r: DefaultBlockImporter)
        ensures
            r.chain() == ChainState::empty(),
    {
        DefaultBlockImporter::new()
    }
}

impl BlockImporter for DefaultBlockImporter {
    closed spec fn chain(&self) -> ChainState {
        ChainState { blocks: self.blocks@, head: self.head }
    }

    /// Imports one block; this fails exactly when the number does not fit in
    /// 64 bits, with `InvalidBlockData`.
    fn import_block(&mut self, block: ImportableBlock) -> (r: Result<(), EngineFacadeError>)
        ensures
            r is Ok <==> block.number@ <= u64::MAX,
            r is Err ==> (r matches Err(EngineFacadeError::InvalidBlockData(text)) && text@
                == "Block number does not fit in 64 bits"@),
    {
        match self.import_one(block.number, block.hash) {
            Ok(_) => Ok(()),
            Err(e) => Err(e),
        }
    }

    /// Imports the blocks in order; this fails exactly when a number does not
    /// fit in 64 bits, with `InvalidBlockData`.
    fn import_batch(&mut self, batch: &Batch, blocks: Vec<ImportableBlock>) -> (r: Result<
        ImportResult,
        EngineFacadeError,
    >)
        ensures
            r is Ok <==> numbers_fit(blocks@),
            r is Err ==> (r matches Err(EngineFacadeError::InvalidBlockData(text)) && text@
                == "Block number does not fit in 64 bits"@),
    {
        let mut imported: usize = 0;
        let mut highest = U256::zero();
        let mut i: usize = 0;
        while i < blocks.len()
            invariant
                i <= blocks@.len(),
                numbers_fit(blocks@.take(i as int)),
                self.chain() == old(self).chain().with_blocks(blocks@.take(i as int)),
                imported == imported_count(old(self).chain(), blocks@.take(i as int)),
                imported <= i,
                highest@ == highest_number(blocks@.take(i as int)),
            decreases blocks@.len() - i,
        {
            proof {
                assert(blocks@.take(i + 1).drop_last() =~= blocks@.take(i as int));
                assert(blocks@.take(i + 1).last() == blocks@[i as int]);
                assert(entries_of(blocks@.take(i + 1)).drop_last() =~= entries_of(
                    blocks@.take(i as int),
                ));
                assert(entries_of(blocks@.take(i + 1)).last() == (
                    blocks@[i as int].number@,
                    blocks@[i as int].hash,
                ));
            }
            match self.import_one(blocks[i].number, blocks[i].hash) {
                Ok(added) => {
                    if added {
                        imported = imported + 1;
                    }
                },
                Err(e) => {
                    assert(!numbers_fit(blocks@)) by {
                        assert(blocks@[i as int].number@ > u64::MAX);
                    }
                    return Err(e);
                },
            }
            highest = highest.max(blocks[i].number);
            proof {
                assert forall|j: int| 0 <= j < i + 1 implies (#[trigger] blocks@.take(
                    i + 1,
                )[j]).number@ <= u64::MAX by {
                    if j < i {
                        assert(blocks@.take(i as int)[j] == blocks@.take(i + 1)[j]);
                    }
                }
            }
            i = i + 1;
        }
        assert(blocks@.take(blocks@.len() as int) =~= blocks@);
        Ok(
            ImportResult {
                blocks_imported: imported,
                highest_block: highest,
                blocks_skipped: imported < blocks.len(),
            },
        )
    }

    /// Whether the engine has a block with this number; this never fails.
    fn block_exists(&self, block_number: U256) -> (r: Result<bool, EngineFacadeError>)
        ensures
            r is Ok,
    {
        match block_number.to_u64() {
            Some(n) => Ok(self.blocks.contains_key(&n)),
            None => Ok(false),
        }
    }

    /// The number of the head block; this never fails.
    fn get_head_block(&self) -> (r: Result<U256, EngineFacadeError>)
        ensures
            r is Ok,
    {
        Ok(U256::from_u64(self.head))
    }

    /// The hash of the block with this number; this never fails.
    fn get_block_hash(&self, block_number: U256) -> (r: Result<
        Option<FixedBytes<32>>,
        EngineFacadeError,
    >)
        ensures
            r is Ok,
    {
        match block_number.to_u64() {
            Some(n) => Ok(self.block_hash(n)),
            None => Ok(None),
        }
    }

    /// Unwinds the chain; this never fails.
    fn unwind_to(&mut self, block_number: U256) -> (r: Result<usize, EngineFacadeError>)
        ensures
            r is Ok,
    {
        match block_number.to_u64() {
            Some(n) => {
                let removed: usize = remove_keys_above(&mut self.blocks, n);
                if self.head > n {
                    self.head = n;
                }
                Ok(removed)
            },
            None => Ok(0),
        }
    }
}

} // verus!
