//! The index that ties blocks, batches and epochs together.

use vstd::prelude::*;
use std::collections::HashMap;
use crate::ingest::assembler::{BatchMapping, BlockMapping, EpochMapping};
use crate::ingest::error::{IngestError, IngestResult};
use crate::time::unix_now;
use crate::types::bytes::FixedBytes;
use crate::util::keys::{is_range_scan, keys_above, remove_keys_above, scan_range};

verus! {

broadcast use vstd::std_specs::hash::group_hash_axioms;

/// What the index holds: three keyed stores.
pub struct IndexState {
    /// Block records by block number.
    pub blocks: Map<u64, BlockMapping>,
    /// Batch records by batch number.
    pub batches: Map<u64, BatchMapping>,
    /// Epoch records by epoch number.
    pub epochs: Map<u64, EpochMapping>,
}

impl IndexState {
    /// The index without any record.
    pub open spec fn empty() -> IndexState {
        IndexState { blocks: Map::empty(), batches: Map::empty(), epochs: Map::empty() }
    }

    /// The index after a block record was saved: it stands under its block
    /// number, in place of what stood there.
    pub open spec fn with_block(self, mapping: BlockMapping) -> IndexState {
        IndexState { blocks: self.blocks.insert(mapping.block_number, mapping), ..self }
    }

    /// The index after a batch record was saved.
    pub open spec fn with_batch(self, mapping: BatchMapping) -> IndexState {
        IndexState { batches: self.batches.insert(mapping.batch_id, mapping), ..self }
    }

    /// The index after an epoch record was saved.
    pub open spec fn with_epoch(self, mapping: EpochMapping) -> IndexState {
        IndexState { epochs: self.epochs.insert(mapping.epoch_id, mapping), ..self }
    }

    /// The index after the block record of a number was deleted.
    pub open spec fn without_block(self, block_number: u64) -> IndexState {
        IndexState { blocks: self.blocks.remove(block_number), ..self }
    }

    /// The index after the batch record of a number was deleted.
    pub open spec fn without_batch(self, batch_id: u64) -> IndexState {
        IndexState { batches: self.batches.remove(batch_id), ..self }
    }

    /// The index after the epoch record of a number was deleted.
    pub open spec fn without_epoch(self, epoch_id: u64) -> IndexState {
        IndexState { epochs: self.epochs.remove(epoch_id), ..self }
    }

    /// The block record of a number, if there is one.
    pub open spec fn block(self, block_number: u64) -> Option<BlockMapping> {
        if self.blocks.contains_key(block_number) {
            Some(self.blocks[block_number])
        } else {
            None
        }
    }

    /// The batch record of a number, if there is one.
    pub open spec fn batch(self, batch_id: u64) -> Option<BatchMapping> {
        if self.batches.contains_key(batch_id) {
            Some(self.batches[batch_id])
        } else {
            None
        }
    }

    /// The epoch record of a number, if there is one.
    pub open spec fn epoch(self, epoch_id: u64) -> Option<EpochMapping> {
        if self.epochs.contains_key(epoch_id) {
            Some(self.epochs[epoch_id])
        } else {
            None
        }
    }

    /// The index after the block records were saved one after the other.
    pub open spec fn with_blocks(self, mappings: Seq<BlockMapping>) -> IndexState
        decreases mappings.len(),
    {
        if mappings.len() == 0 {
            self
        } else {
            self.with_blocks(mappings.drop_last()).with_block(mappings.last())
        }
    }

    /// The keys at or above `from`.
    pub open spec fn keys_from(from: u64) -> Set<u64> {
        Set::new(|k: u64| k >= from)
    }

    /// The index after every block record with a number at or above `from` was deleted.
    pub open spec fn without_blocks_from(self, from: u64) -> IndexState {
        IndexState { blocks: self.blocks.remove_keys(Self::keys_from(from)), ..self }
    }

    /// The index after every batch record with a number at or above `from` was deleted.
    pub open spec fn without_batches_from(self, from: u64) -> IndexState {
        IndexState { batches: self.batches.remove_keys(Self::keys_from(from)), ..self }
    }

    /// The highest batch number below `bound` that has a record, if there is one.
    pub open spec fn highest_batch_below(self, bound: u64) -> Option<u64> {
        if exists|k: u64| self.is_highest_batch_below(k, bound) {
            Some(choose|k: u64| self.is_highest_batch_below(k, bound))
        } else {
            None
        }
    }

    /// Whether `k` is the highest batch number below `bound` that has a record.
    pub open spec fn is_highest_batch_below(self, k: u64, bound: u64) -> bool {
        &&& self.batches.contains_key(k)
        &&& k < bound
        &&& forall|other: u64| self.batches.contains_key(other) && other < bound ==> other <= k
    }

    /// Whether the blocks of the batches are ordered as the batches are: a
    /// batch with a lower number ends before one with a higher number begins.
    pub open spec fn batches_ordered(self) -> bool {
        forall|a: u64, b: u64|
            self.batches.contains_key(a) && self.batches.contains_key(b) && a < b
                ==> self.batches[a].end_block < self.batches[b].start_block
    }

    /// Whether every batch record names a range of blocks that is well formed:
    /// it begins no later than the block after its end.
    pub open spec fn records_formed(self) -> bool {
        forall|k: u64| #[trigger]
            self.batches.contains_key(k) ==> self.batches[k].start_block
                <= self.batches[k].end_block + 1
    }

    /// Whether the index is sound: every record stands under its own number,
    /// every batch record is well formed, the blocks of the batches are
    /// ordered as the batches are, and every block record names a batch that
    /// has a record and holds the block.
    pub open spec fn sound(self) -> bool {
        &&& self.keyed()
        &&& self.records_formed()
        &&& self.batches_ordered()
        &&& self.blocks_resolve()
    }

    /// Whether a batch record can be added without breaking the order: no
    /// batch with a higher number has a record, and every batch with a lower
    /// number ends before the new one begins.
    pub open spec fn admits(self, record: BatchMapping) -> bool {
        &&& forall|k: u64| #[trigger] self.batches.contains_key(k) ==> k <= record.batch_id
        &&& forall|k: u64| #[trigger]
            self.batches.contains_key(k) && k < record.batch_id ==> self.batches[k].end_block
                < record.start_block
    }

    /// Whether a batch record follows what the index holds: no batch with a
    /// higher number has a record, and the batch with the highest number below
    /// ends before the new one begins.
    pub open spec fn follows(self, record: BatchMapping) -> bool {
        &&& forall|k: u64| #[trigger] self.batches.contains_key(k) ==> k <= record.batch_id
        &&& match self.highest_batch_below(record.batch_id) {
            Some(highest) => self.batches[highest].end_block < record.start_block,
            None => true,
        }
    }

    /// Whether every block record names a batch that has a record, and lies
    /// within the blocks of that batch.
    pub open spec fn blocks_resolve(self) -> bool {
        forall|k: u64| #[trigger]
            self.blocks.contains_key(k) ==> {
                &&& self.batches.contains_key(self.blocks[k].batch_id)
                &&& self.batches[self.blocks[k].batch_id].batch_id == self.blocks[k].batch_id
                &&& self.batches[self.blocks[k].batch_id].start_block
                    <= self.blocks[k].block_number
                    <= self.batches[self.blocks[k].batch_id].end_block
            }
    }

    /// Whether every record stands under its own number.
    pub open spec fn keyed(self) -> bool {
        &&& forall|k: u64| #[trigger] self.blocks.contains_key(k)
            ==> self.blocks[k].block_number == k
        &&& forall|k: u64| #[trigger] self.batches.contains_key(k) ==> self.batches[k].batch_id == k
        &&& forall|k: u64| #[trigger] self.epochs.contains_key(k) ==> self.epochs[k].epoch_id == k
    }
}

/// A record that was saved is loaded back under its number.
pub proof fn lemma_save_then_load(
    state: IndexState,
    block: BlockMapping,
    batch: BatchMapping,
    epoch: EpochMapping,
)
    ensures
        state.with_block(block).block(block.block_number) == Some(block),
        state.with_batch(batch).batch(batch.batch_id) == Some(batch),
        state.with_epoch(epoch).epoch(epoch.epoch_id) == Some(epoch),
{
}

/// A record that was deleted is no longer loaded.
pub proof fn lemma_delete_then_load(state: IndexState, key: u64)
    ensures
        state.without_block(key).block(key) is None,
        state.without_batch(key).batch(key) is None,
        state.without_epoch(key).epoch(key) is None,
{
}

/// Saving a record twice is the same as saving it once, and so is deleting.
pub proof fn lemma_save_and_delete_idempotent(
    state: IndexState,
    block: BlockMapping,
    batch: BatchMapping,
    epoch: EpochMapping,
    key: u64,
)
    ensures
        state.with_block(block).with_block(block) == state.with_block(block),
        state.with_batch(batch).with_batch(batch) == state.with_batch(batch),
        state.with_epoch(epoch).with_epoch(epoch) == state.with_epoch(epoch),
        state.without_block(key).without_block(key) == state.without_block(key),
        state.without_batch(key).without_batch(key) == state.without_batch(key),
        state.without_epoch(key).without_epoch(key) == state.without_epoch(key),
{
    assert(state.blocks.insert(block.block_number, block).insert(block.block_number, block)
        =~= state.blocks.insert(block.block_number, block));
    assert(state.batches.insert(batch.batch_id, batch).insert(batch.batch_id, batch)
        =~= state.batches.insert(batch.batch_id, batch));
    assert(state.epochs.insert(epoch.epoch_id, epoch).insert(epoch.epoch_id, epoch)
        =~= state.epochs.insert(epoch.epoch_id, epoch));
    assert(state.blocks.remove(key).remove(key) =~= state.blocks.remove(key));
    assert(state.batches.remove(key).remove(key) =~= state.batches.remove(key));
    assert(state.epochs.remove(key).remove(key) =~= state.epochs.remove(key));
}

/// Saving and deleting keep every record under its own number.
pub proof fn lemma_keyed_is_kept(
    state: IndexState,
    block: BlockMapping,
    batch: BatchMapping,
    epoch: EpochMapping,
    key: u64,
)
    requires
        state.keyed(),
    ensures
        state.with_block(block).keyed(),
        state.with_batch(batch).keyed(),
        state.with_epoch(epoch).keyed(),
        state.without_block(key).keyed(),
        state.without_batch(key).keyed(),
        state.without_epoch(key).keyed(),
{
}

/// The highest batch number below a bound is that number and no other.
pub proof fn lemma_highest_batch_below(state: IndexState, k: u64, bound: u64)
    requires
        state.is_highest_batch_below(k, bound),
    ensures
        state.highest_batch_below(bound) == Some(k),
{
    let chosen = choose|c: u64| state.is_highest_batch_below(c, bound);
    assert(state.is_highest_batch_below(chosen, bound));
    assert(chosen <= k && k <= chosen);
}

/// Where no batch below the bound has a record, there is no highest one.
pub proof fn lemma_no_batch_below(state: IndexState, bound: u64)
    requires
        forall|k: u64| state.batches.contains_key(k) ==> k >= bound,
    ensures
        state.highest_batch_below(bound) is None,
{
}

/// Pruning for the rollback of a batch keeps every block record resolved,
/// where every record stands under its own number, the blocks of the batches
/// are ordered as the batches are, and the record of the batch is well formed: what stays lies before the batch, and
/// so belongs to a batch with a lower number, whose record stays too.
pub proof fn lemma_prune_keeps_blocks_resolved(state: IndexState, batch_id: u64)
    requires
        state.keyed(),
        state.blocks_resolve(),
        state.batches_ordered(),
        state.batches.contains_key(batch_id),
        state.batches[batch_id].start_block <= state.batches[batch_id].end_block + 1,
    ensures
        state.without_blocks_from(state.batches[batch_id].start_block).without_batches_from(
            batch_id,
        ).blocks_resolve(),
{
    let start = state.batches[batch_id].start_block;
    let end = state.without_blocks_from(start).without_batches_from(batch_id);
    assert forall|k: u64| #[trigger] end.blocks.contains_key(k) implies {
        &&& end.batches.contains_key(end.blocks[k].batch_id)
        &&& end.batches[end.blocks[k].batch_id].batch_id == end.blocks[k].batch_id
        &&& end.batches[end.blocks[k].batch_id].start_block <= end.blocks[k].block_number
            <= end.batches[end.blocks[k].batch_id].end_block
    } by {
        assert(state.blocks.contains_key(k));
        assert(k < start);
        let owner = state.blocks[k].batch_id;
        assert(state.batches.contains_key(owner));
        if owner > batch_id {
            assert(state.batches[batch_id].end_block < state.batches[owner].start_block);
        }
    }
}

/// Where a batch below the bound has a record, and only finitely many have,
/// there is a highest one.
pub proof fn lemma_some_batch_below(state: IndexState, k: u64, bound: u64)
    requires
        state.batches.contains_key(k),
        k < bound,
    ensures
        state.highest_batch_below(bound) is Some,
    decreases bound - k,
{
    if forall|other: u64| state.batches.contains_key(other) && other < bound ==> other <= k {
        assert(state.is_highest_batch_below(k, bound));
    } else {
        let other = choose|other: u64| state.batches.contains_key(other) && other < bound
            && other > k;
        lemma_some_batch_below(state, other, bound);
    }
}

/// The empty index is sound.
pub proof fn lemma_empty_is_sound()
    ensures
        IndexState::empty().sound(),
{
}

/// Pruning for the rollback of a batch keeps the index sound.
pub proof fn lemma_prune_keeps_sound(state: IndexState, batch_id: u64)
    requires
        state.sound(),
        state.batches.contains_key(batch_id),
    ensures
        state.without_blocks_from(state.batches[batch_id].start_block).without_batches_from(
            batch_id,
        ).sound(),
{
    lemma_prune_keeps_blocks_resolved(state, batch_id);
}

/// In an index whose batches are in order, a record that follows the batch
/// with the highest number below follows every batch below.
pub proof fn lemma_follows_admits(state: IndexState, record: BatchMapping)
    requires
        state.records_formed(),
        state.batches_ordered(),
        state.follows(record),
    ensures
        state.admits(record),
{
    match state.highest_batch_below(record.batch_id) {
        Some(highest) => {
            assert(state.is_highest_batch_below(highest, record.batch_id));
            assert forall|k: u64| #[trigger]
                state.batches.contains_key(k)
                    && k < record.batch_id implies state.batches[k].end_block
                < record.start_block by {
                if k < highest {
                    assert(state.batches[k].end_block < state.batches[highest].start_block);
                }
            }
        },
        None => {
            assert forall|k: u64| #[trigger]
                state.batches.contains_key(k)
                    && k < record.batch_id implies state.batches[k].end_block
                < record.start_block by {
                lemma_some_batch_below(state, k, record.batch_id);
            }
        },
    }
}

/// Where mapping records are kept. Every operation may be repeated without
/// harm: saving overwrites by key, deleting what is absent does nothing.
pub trait MappingStorage {
    /// What is stored.
    spec fn index(&self) -> IndexState;

    /// Saves a block record under its block number.
    fn save_block_mapping(&mut self, mapping: BlockMapping) -> (r: IngestResult<()>)
        ensures
            r is Ok ==> final(self).index() == old(self).index().with_block(mapping),
            r is Err ==> final(self).index() == old(self).index(),
    ;

    /// The block record of a number, if there is one.
    fn load_block_mapping(&self, block_number: u64) -> (r: IngestResult<Option<BlockMapping>>)
        ensures
            r is Ok ==> r->Ok_0 == self.index().block(block_number),
    ;

    /// Saves a batch record under its batch number.
    fn save_batch_mapping(&mut self, mapping: BatchMapping) -> (r: IngestResult<()>)
        ensures
            r is Ok ==> final(self).index() == old(self).index().with_batch(mapping),
            r is Err ==> final(self).index() == old(self).index(),
    ;

    /// The batch record of a number, if there is one.
    fn load_batch_mapping(&self, batch_id: u64) -> (r: IngestResult<Option<BatchMapping>>)
        ensures
            r is Ok ==> r->Ok_0 == self.index().batch(batch_id),
    ;

    /// Saves an epoch record under its epoch number.
    fn save_epoch_mapping(&mut self, mapping: EpochMapping) -> (r: IngestResult<()>)
        ensures
            r is Ok ==> final(self).index() == old(self).index().with_epoch(mapping),
            r is Err ==> final(self).index() == old(self).index(),
    ;

    /// The epoch record of a number, if there is one.
    fn load_epoch_mapping(&self, epoch_id: u64) -> (r: IngestResult<Option<EpochMapping>>)
        ensures
            r is Ok ==> r->Ok_0 == self.index().epoch(epoch_id),
    ;

    /// The block records with a number in `[start_block, end_block]`, by rising number.
    fn get_block_mappings_range(&self, start_block: u64, end_block: u64) -> (r: IngestResult<
        Vec<BlockMapping>,
    >)
        ensures
            r is Ok ==> exists|keys: Seq<u64>|
                {
                    &&& is_range_scan(keys, self.index().blocks.dom(), start_block, end_block)
                    &&& #[trigger] keys.len() == r->Ok_0@.len()
                    &&& forall|i: int|
                        0 <= i < keys.len() ==> r->Ok_0@[i] == self.index().blocks[keys[i]]
                },
    ;

    /// The batch records with a number in `[start_batch, end_batch]`, by rising number.
    fn get_batch_mappings_range(&self, start_batch: u64, end_batch: u64) -> (r: IngestResult<
        Vec<BatchMapping>,
    >)
        ensures
            r is Ok ==> exists|keys: Seq<u64>|
                {
                    &&& is_range_scan(keys, self.index().batches.dom(), start_batch, end_batch)
                    &&& #[trigger] keys.len() == r->Ok_0@.len()
                    &&& forall|i: int|
                        0 <= i < keys.len() ==> r->Ok_0@[i] == self.index().batches[keys[i]]
                },
    ;

    /// Deletes the block record of a number.
    fn delete_block_mapping(&mut self, block_number: u64) -> (r: IngestResult<()>)
        ensures
            r is Ok ==> final(self).index() == old(self).index().without_block(block_number),
            r is Err ==> final(self).index() == old(self).index(),
    ;

    /// Deletes the batch record of a number.
    fn delete_batch_mapping(&mut self, batch_id: u64) -> (r: IngestResult<()>)
        ensures
            r is Ok ==> final(self).index() == old(self).index().without_batch(batch_id),
            r is Err ==> final(self).index() == old(self).index(),
    ;

    /// Deletes the epoch record of a number.
    fn delete_epoch_mapping(&mut self, epoch_id: u64) -> (r: IngestResult<()>)
        ensures
            r is Ok ==> final(self).index() == old(self).index().without_epoch(epoch_id),
            r is Err ==> final(self).index() == old(self).index(),
    ;

    /// Deletes every block record with a number at or above `start_block`.
    fn prune_blocks_from(&mut self, start_block: u64) -> (r: IngestResult<()>)
        ensures
            r is Ok ==> final(self).index() == old(self).index().without_blocks_from(start_block),
            r is Err ==> final(self).index().batches == old(self).index().batches
                && final(self).index().epochs == old(self).index().epochs,
    ;

    /// Deletes every batch record with a number at or above `start_batch`.
    fn prune_batches_from(&mut self, start_batch: u64) -> (r: IngestResult<()>)
        ensures
            r is Ok ==> final(self).index() == old(self).index().without_batches_from(
                start_batch,
            ),
            r is Err ==> final(self).index().blocks == old(self).index().blocks
                && final(self).index().epochs == old(self).index().epochs,
    ;

    /// The highest batch number below `bound` that has a record, if there is one.
    fn highest_batch_below(&self, bound: u64) -> (r: IngestResult<Option<u64>>)
        ensures
            r is Ok ==> r->Ok_0 == self.index().highest_batch_below(bound),
    ;
}

/// Keeps the records in memory, in three keyed maps.
#[derive(Debug)]
pub struct MemoryMappingStorage {
    block_mappings: HashMap<u64, BlockMapping>,
    batch_mappings: HashMap<u64, BatchMapping>,
    epoch_mappings: HashMap<u64, EpochMapping>,
}

impl MemoryMappingStorage {
    /// A storage without any record.
    pub fn new() -> (r: MemoryMappingStorage)
        ensures
            r.index() == IndexState::empty(),
    {
        MemoryMappingStorage {
            block_mappings: HashMap::new(),
            batch_mappings: HashMap::new(),
            epoch_mappings: HashMap::new(),
        }
    }

    /// The number of block records.
    pub fn block_count(&self) -> (r: usize)
        ensures
            r == self.index().blocks.dom().len(),
    {
        self.block_mappings.len()
    }

    /// The number of batch records.
    pub fn batch_count(&self) -> (r: usize)
        ensures
            r == self.index().batches.dom().len(),
    {
        self.batch_mappings.len()
    }
}

impl Default for MemoryMappingStorage {
    fn default() -> (r: MemoryMappingStorage)
        ensures
            r.index() == IndexState::empty(),
    {
        MemoryMappingStorage::new()
    }
}

impl MappingStorage for MemoryMappingStorage {
    closed spec fn index(&self) -> IndexState {
        IndexState {
            blocks: self.block_mappings@,
            batches: self.batch_mappings@,
            epochs: self.epoch_mappings@,
        }
    }

    /// Saves a block record; this never fails.
    fn save_block_mapping(&mut self, mapping: BlockMapping) -> (r: IngestResult<()>)
        ensures
            r is Ok,
    {
        self.block_mappings.insert(mapping.block_number, mapping);
        Ok(())
    }

    /// The block record of a number; this never fails.
    fn load_block_mapping(&self, block_number: u64) -> (r: IngestResult<Option<BlockMapping>>)
        ensures
            r is Ok,
    {
        match self.block_mappings.get(&block_number) {
            Some(m) => Ok(Some(*m)),
            None => Ok(None),
        }
    }

    /// Saves a batch record; this never fails.
    fn save_batch_mapping(&mut self, mapping: BatchMapping) -> (r: IngestResult<()>)
        ensures
            r is Ok,
    {
        self.batch_mappings.insert(mapping.batch_id, mapping);
        Ok(())
    }

    /// The batch record of a number; this never fails.
    fn load_batch_mapping(&self, batch_id: u64) -> (r: IngestResult<Option<BatchMapping>>)
        ensures
            r is Ok,
    {
        match self.batch_mappings.get(&batch_id) {
            Some(m) => Ok(Some(*m)),
            None => Ok(None),
        }
    }

    /// Saves an epoch record; this never fails.
    fn save_epoch_mapping(&mut self, mapping: EpochMapping) -> (r: IngestResult<()>)
        ensures
            r is Ok,
    {
        self.epoch_mappings.insert(mapping.epoch_id, mapping);
        Ok(())
    }

    /// The epoch record of a number; this never fails.
    fn load_epoch_mapping(&self, epoch_id: u64) -> (r: IngestResult<Option<EpochMapping>>)
        ensures
            r is Ok,
    {
        match self.epoch_mappings.get(&epoch_id) {
            Some(m) => Ok(Some(*m)),
            None => Ok(None),
        }
    }

    /// The block records of a range, by rising number; this never fails.
    fn get_block_mappings_range(&self, start_block: u64, end_block: u64) -> (r: IngestResult<
        Vec<BlockMapping>,
    >)
        ensures
            r is Ok,
    {
        let keys: Vec<u64> = scan_range(&self.block_mappings, start_block, end_block);
        let mut out: Vec<BlockMapping> = Vec::new();
        let mut i: usize = 0;
        while i < keys.len()
            invariant
                i <= keys@.len(),
                is_range_scan(keys@, self.block_mappings@.dom(), start_block, end_block),
                out@.len() == i,
                forall|j: int| 0 <= j < i ==> out@[j] == self.block_mappings@[keys@[j]],
            decreases keys@.len() - i,
        {
            assert(keys@.contains(keys@[i as int]));
            match self.block_mappings.get(&keys[i]) {
                Some(m) => {
                    out.push(*m);
                },
                None => {
                    assert(false);
                },
            }
            i = i + 1;
        }
        assert(keys@.len() == out@.len());
        Ok(out)
    }

    /// The batch records of a range, by rising number; this never fails.
    fn get_batch_mappings_range(&self, start_batch: u64, end_batch: u64) -> (r: IngestResult<
        Vec<BatchMapping>,
    >)
        ensures
            r is Ok,
    {
        let keys: Vec<u64> = scan_range(&self.batch_mappings, start_batch, end_batch);
        let mut out: Vec<BatchMapping> = Vec::new();
        let mut i: usize = 0;
        while i < keys.len()
            invariant
                i <= keys@.len(),
                is_range_scan(keys@, self.batch_mappings@.dom(), start_batch, end_batch),
                out@.len() == i,
                forall|j: int| 0 <= j < i ==> out@[j] == self.batch_mappings@[keys@[j]],
            decreases keys@.len() - i,
        {
            assert(keys@.contains(keys@[i as int]));
            match self.batch_mappings.get(&keys[i]) {
                Some(m) => {
                    out.push(*m);
                },
                None => {
                    assert(false);
                },
            }
            i = i + 1;
        }
        assert(keys@.len() == out@.len());
        Ok(out)
    }

    /// Deletes a block record; this never fails.
    fn delete_block_mapping(&mut self, block_number: u64) -> (r: IngestResult<()>)
        ensures
            r is Ok,
    {
        self.block_mappings.remove(&block_number);
        Ok(())
    }

    /// Deletes a batch record; this never fails.
    fn delete_batch_mapping(&mut self, batch_id: u64) -> (r: IngestResult<()>)
        ensures
            r is Ok,
    {
        self.batch_mappings.remove(&batch_id);
        Ok(())
    }

    /// Deletes an epoch record; this never fails.
    fn delete_epoch_mapping(&mut self, epoch_id: u64) -> (r: IngestResult<()>)
        ensures
            r is Ok,
    {
        self.epoch_mappings.remove(&epoch_id);
        Ok(())
    }

    /// Deletes the block records from a number on; this never fails.
    fn prune_blocks_from(&mut self, start_block: u64) -> (r: IngestResult<()>)
        ensures
            r is Ok,
    {
        if start_block == 0 {
            self.block_mappings.clear();
            assert(self.block_mappings@ =~= old(self).block_mappings@.remove_keys(
                IndexState::keys_from(0),
            ));
        } else {
            let _ = remove_keys_above(&mut self.block_mappings, start_block - 1);
            assert(keys_above((start_block - 1) as u64) =~= IndexState::keys_from(start_block));
        }
        Ok(())
    }

    /// Deletes the batch records from a number on; this never fails.
    fn prune_batches_from(&mut self, start_batch: u64) -> (r: IngestResult<()>)
        ensures
            r is Ok,
    {
        if start_batch == 0 {
            self.batch_mappings.clear();
            assert(self.batch_mappings@ =~= old(self).batch_mappings@.remove_keys(
                IndexState::keys_from(0),
            ));
        } else {
            let _ = remove_keys_above(&mut self.batch_mappings, start_batch - 1);
            assert(keys_above((start_batch - 1) as u64) =~= IndexState::keys_from(start_batch));
        }
        Ok(())
    }

    /// The highest batch number below a bound; this never fails.
    fn highest_batch_below(&self, bound: u64) -> (r: IngestResult<Option<u64>>)
        ensures
            r is Ok,
    {
        if bound == 0 {
            proof {
                lemma_no_batch_below(self.index(), bound);
            }
            return Ok(None);
        }
        let keys: Vec<u64> = scan_range(&self.batch_mappings, 0, bound - 1);
        if keys.len() == 0 {
            proof {
                assert forall|k: u64| self.index().batches.contains_key(k) implies k >= bound by {
                    if k < bound {
                        assert(keys@.contains(k));
                    }
                }
                lemma_no_batch_below(self.index(), bound);
            }
            Ok(None)
        } else {
            let top: u64 = keys[keys.len() - 1];
            proof {
                assert(keys@.contains(top));
                assert forall|other: u64|
                    self.index().batches.contains_key(other) && other < bound implies other
                    <= top by {
                    assert(keys@.contains(other));
                    let p = choose|p: int| 0 <= p < keys@.len() && keys@[p] == other;
                    if p < keys@.len() - 1 {
                        assert(keys@[p] < keys@[keys@.len() - 1]);
                    }
                }
                lemma_highest_batch_below(self.index(), top, bound);
            }
            Ok(Some(top))
        }
    }
}

/// Counts of what was assembled.
#[derive(Debug, Clone, Copy, PartialEq, Eq)]
pub struct AssemblyStats {
    /// Blocks assembled.
    pub total_blocks: u64,
    /// Batches processed.
    pub total_batches: u64,
    /// Epochs processed.
    pub total_epochs: u64,
    /// When blocks were assembled last, in seconds since the Unix epoch.
    pub last_assembly: u64,
}

impl Default for AssemblyStats {
    fn default() -> (r: AssemblyStats)
        ensures
            r == (AssemblyStats {
                total_blocks: 0,
                total_batches: 0,
                total_epochs: 0,
                last_assembly: 0,
            }),
    {
        AssemblyStats { total_blocks: 0, total_batches: 0, total_epochs: 0, last_assembly: 0 }
    }
}

/// The number of items in `[start, end]`.
pub open spec fn range_count(start: u64, end: u64) -> nat {
    (end - start + 1) as nat
}

/// The block record with the given fields, made at `timestamp`.
pub fn block_mapping_at(
    block_number: u64,
    block_hash: FixedBytes<32>,
    batch_id: u64,
    batch_index: u32,
    epoch_id: u64,
    timestamp: u64,
) -> (r: BlockMapping)
    ensures
        r == (BlockMapping { block_number, block_hash, batch_id, batch_index, epoch_id, timestamp }),
{
    BlockMapping { block_number, block_hash, batch_id, batch_index, epoch_id, timestamp }
}

/// The batch record with the given fields, made at `timestamp`; its block
/// count is `end_block - start_block + 1`.
pub fn batch_mapping_at(
    batch_id: u64,
    batch_hash: FixedBytes<32>,
    start_block: u64,
    end_block: u64,
    epoch_id: u64,
    timestamp: u64,
) -> (r: BatchMapping)
    requires
        start_block <= end_block,
        range_count(start_block, end_block) <= u32::MAX,
    ensures
        r == (BatchMapping {
            batch_id,
            batch_hash,
            start_block,
            end_block,
            block_count: range_count(start_block, end_block) as u32,
            epoch_id,
            timestamp,
        }),
{
    BatchMapping {
        batch_id,
        batch_hash,
        start_block,
        end_block,
        block_count: (end_block - start_block + 1) as u32,
        epoch_id,
        timestamp,
    }
}

/// The epoch record with the given fields, made at `timestamp`; its block
/// count is `end_block - start_block + 1`.
pub fn epoch_mapping_at(
    epoch_id: u64,
    epoch_hash: FixedBytes<32>,
    start_block: u64,
    end_block: u64,
    batch_count: u32,
    timestamp: u64,
) -> (r: EpochMapping)
    requires
        start_block <= end_block,
        range_count(start_block, end_block) <= u32::MAX,
    ensures
        r == (EpochMapping {
            epoch_id,
            epoch_hash,
            start_block,
            end_block,
            block_count: range_count(start_block, end_block) as u32,
            batch_count,
            timestamp,
        }),
{
    EpochMapping {
        epoch_id,
        epoch_hash,
        start_block,
        end_block,
        block_count: (end_block - start_block + 1) as u32,
        batch_count,
        timestamp,
    }
}

/// Makes mapping records and hands them to a storage.
pub struct MappingManager<S: MappingStorage> {
    /// The storage.
    pub storage: S,
    /// Counts of what was saved.
    pub stats: AssemblyStats,
}

impl<S: MappingStorage> MappingManager<S> {
    /// A manager on the given storage, with all counts at zero.
    pub fn new(storage: S) -> (r: MappingManager<S>)
        ensures
            r.storage == storage,
            r.stats == (AssemblyStats {
                total_blocks: 0,
                total_batches: 0,
                total_epochs: 0,
                last_assembly: 0,
            }),
    {
        MappingManager { storage, stats: AssemblyStats::default() }
    }

    /// A block record with the given fields, stamped with the wall clock.
    pub fn create_block_mapping(
        &self,
        block_number: u64,
        block_hash: FixedBytes<32>,
        batch_id: u64,
        batch_index: u32,
        epoch_id: u64,
    ) -> (r: BlockMapping)
        ensures
            r == (BlockMapping {
                block_number,
                block_hash,
                batch_id,
                batch_index,
                epoch_id,
                timestamp: r.timestamp,
            }),
    {
        let now: u64 = unix_now();
        block_mapping_at(block_number, block_hash, batch_id, batch_index, epoch_id, now)
    }

    /// A batch record with the given fields, stamped with the wall clock; its
    /// block count is `end_block - start_block + 1`.
    pub fn create_batch_mapping(
        &self,
        batch_id: u64,
        batch_hash: FixedBytes<32>,
        start_block: u64,
        end_block: u64,
        epoch_id: u64,
    ) -> (r: BatchMapping)
        requires
            start_block <= end_block,
            range_count(start_block, end_block) <= u32::MAX,
        ensures
            r == (BatchMapping {
                batch_id,
                batch_hash,
                start_block,
                end_block,
                block_count: range_count(start_block, end_block) as u32,
                epoch_id,
                timestamp: r.timestamp,
            }),
    {
        let now: u64 = unix_now();
        batch_mapping_at(batch_id, batch_hash, start_block, end_block, epoch_id, now)
    }

    /// An epoch record with the given fields, stamped with the wall clock; its
    /// block count is `end_block - start_block + 1`.
    pub fn create_epoch_mapping(
        &self,
        epoch_id: u64,
        epoch_hash: FixedBytes<32>,
        start_block: u64,
        end_block: u64,
        batch_count: u32,
    ) -> (r: EpochMapping)
        requires
            start_block <= end_block,
            range_count(start_block, end_block) <= u32::MAX,
        ensures
            r == (EpochMapping {
                epoch_id,
                epoch_hash,
                start_block,
                end_block,
                block_count: range_count(start_block, end_block) as u32,
                batch_count,
                timestamp: r.timestamp,
            }),
    {
        let now: u64 = unix_now();
        epoch_mapping_at(epoch_id, epoch_hash, start_block, end_block, batch_count, now)
    }

    /// Saves the block records in order and counts them. Where the storage
    /// refuses one, those before it are saved and counted, and its error is
    /// handed on.
    pub fn save_mappings(&mut self, mappings: Vec<BlockMapping>) -> (r: IngestResult<()>)
        ensures
            r is Ok ==> final(self).storage.index() == old(self).storage.index().with_blocks(
                mappings@,
            ),
            r is Ok ==> final(self).stats.total_blocks == crate::util::count::capped_sum(
                old(self).stats.total_blocks,
                mappings@.len() as usize,
            ),
            r is Err ==> exists|n: int|
                0 <= n < mappings@.len() && final(self).storage.index()
                    == old(self).storage.index().with_blocks(#[trigger] mappings@.take(n)),
            final(self).stats.total_batches == old(self).stats.total_batches,
            final(self).stats.total_epochs == old(self).stats.total_epochs,
            mappings@.len() == 0 ==> r is Ok,
    {
        let mut i: usize = 0;
        while i < mappings.len()
            invariant
                i <= mappings@.len(),
                self.storage.index()
                    == old(self).storage.index().with_blocks(mappings@.take(i as int)),
                self.stats.total_blocks == if old(self).stats.total_blocks + i <= u64::MAX {
                    (old(self).stats.total_blocks + i) as u64
                } else {
                    u64::MAX
                },
                self.stats.total_batches == old(self).stats.total_batches,
                self.stats.total_epochs == old(self).stats.total_epochs,
            decreases mappings@.len() - i,
        {
            match self.storage.save_block_mapping(mappings[i]) {
                Ok(()) => {},
                Err(e) => {
                    return Err(e);
                },
            }
            if self.stats.total_blocks < u64::MAX {
                self.stats.total_blocks = self.stats.total_blocks + 1;
            }
            proof {
                assert(mappings@.take(i + 1).drop_last() =~= mappings@.take(i as int));
                assert(mappings@.take(i + 1).last() == mappings@[i as int]);
            }
            i = i + 1;
        }
        assert(mappings@.take(mappings@.len() as int) =~= mappings@);
        self.stats.last_assembly = unix_now();
        Ok(())
    }

    /// The counts of what was saved.
    pub fn get_stats(&self) -> (r: &AssemblyStats)
        ensures
            *r == self.stats,
    {
        &self.stats
    }
}

} // verus!
