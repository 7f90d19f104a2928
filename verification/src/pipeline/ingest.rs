//! The ingestion pipeline: validate a batch, assemble it, import it into the
//! engine, commit it to the index, and advance the checkpoint.

use vstd::prelude::*;
use crate::datastream::checkpoint::{Checkpoint, CheckpointStorage};
use crate::datastream::error::DatastreamError;
use vstd::string::*;
use crate::engine::block_import::{
    added_count, entries_of, highest_entry, BlockImporter, ChainState,
};
use crate::engine::engine::EngineFacade;
use crate::engine::error::EngineFacadeError;
use crate::engine::finality::FinalityManager;
use crate::engine::types::{BatchInfo, ImportResult, ImportableBlock};
use crate::ingest::assembler::{
    block_mapping_of, block_mappings_of, fits_index, BatchAssembler, BatchMapping, BlockMapping,
};
use crate::ingest::error::IngestError;
use crate::ingest::mapping::{IndexState, MappingStorage};
use crate::ingest::validator::BatchValidator;
use crate::types::batch::{Batch, BlockInBatch};
use crate::types::bytes::Bytes;
use crate::util::count::{add_capped, bump, bumped, capped_sum};
use crate::util::keys::is_range_scan;

verus! {

/// What the pipeline makes of a batch before it touches anything.
#[derive(Debug, Clone, Copy, PartialEq, Eq, Structural)]
pub enum Admission {
    /// The batch is new: it is to be ingested.
    Fresh,
    /// The index holds this batch, with the same digest: there is nothing to do.
    AlreadyIngested,
    /// The index holds a batch of this number with another digest: a
    /// candidate for a rollback, never to be replaced in silence.
    Conflict,
    /// The batch is not in the index, yet its number is not above the checkpoint's.
    Stale,
}

/// How ingesting a batch ended well.
#[derive(Debug, Clone, Copy, PartialEq, Eq)]
pub enum IngestOutcome {
    /// The batch was imported, indexed, and the checkpoint names it.
    Committed(ImportResult),
    /// The batch had been ingested before; nothing was changed.
    AlreadyIngested,
}

/// How ingesting a batch failed.
#[derive(Debug, Clone, PartialEq, Eq)]
pub enum IngestFailure {
    /// The batch breaks a rule of validation. Nothing was changed.
    Invalid(IngestError),
    /// The batch cannot be assembled or indexed. Nothing was changed.
    Assembly(IngestError),
    /// The index holds another batch under this number. Nothing was changed.
    Conflict(u64),
    /// The number of the batch is not above the checkpoint's. Nothing was changed.
    Stale(u64),
    /// The batch does not follow what the index holds: a batch with a higher
    /// number has a record, or the blocks of the batch do not lie after those
    /// of the batches before it. Nothing was changed.
    OutOfOrder(u64),
    /// The engine failed. The index and the checkpoint are as before.
    Engine(EngineFacadeError),
    /// The index failed. The checkpoint is as before.
    Index(IngestError),
    /// The checkpoint store failed. The checkpoint is as before.
    Checkpoint(DatastreamError),
}

/// What the pipeline makes of a batch, given the record that the index holds
/// under its number and the checkpoint that is stored.
pub open spec fn admission(
    batch: &Batch,
    existing: Option<BatchMapping>,
    stored: Option<Checkpoint>,
) -> Admission {
    match existing {
        Some(record) => if record.batch_hash@ == batch.id.hash@ {
            Admission::AlreadyIngested
        } else {
            Admission::Conflict
        },
        None => match stored {
            Some(checkpoint) => if checkpoint.last_batch_id@ >= batch.id.number@ {
                Admission::Stale
            } else {
                Admission::Fresh
            },
            None => Admission::Fresh,
        },
    }
}

/// What the pipeline makes of a batch, given the record that the index holds
/// under its number and the checkpoint that is stored.
pub fn decide_admission(batch: &Batch, existing: &Option<BatchMapping>, stored: &Option<Checkpoint>) -> (r:
    Admission)
    ensures
        r == admission(batch, *existing, *stored),
{
    match existing {
        Some(record) => {
            if record.batch_hash.equals(&batch.id.hash) {
                Admission::AlreadyIngested
            } else {
                Admission::Conflict
            }
        },
        None => match stored {
            Some(checkpoint) => {
                if checkpoint.last_batch_id.ge(&batch.id.number) {
                    Admission::Stale
                } else {
                    Admission::Fresh
                }
            },
            None => Admission::Fresh,
        },
    }
}

/// The first block that the record of a batch names: the number of its first
/// block, or the block after the head where the batch is empty.
pub open spec fn record_start(batch: &Batch, head: u64) -> int {
    if batch.blocks@.len() > 0 {
        batch.blocks@[0].number@ as int
    } else {
        head + 1
    }
}

/// The last block that the record of a batch names: the number of its last
/// block, or the head where the batch is empty.
pub open spec fn record_end(batch: &Batch, head: u64) -> int {
    if batch.blocks@.len() > 0 {
        batch.blocks@.last().number@ as int
    } else {
        head as int
    }
}

/// Whether the record of a batch can be written: its blocks span at most
/// `u32::MAX` numbers, and the block after the head has a number.
pub open spec fn record_fits(batch: &Batch, head: u64) -> bool {
    &&& record_start(batch, head) <= u64::MAX
    &&& record_end(batch, head) - record_start(batch, head) + 1 <= u32::MAX
}

/// The index record of a batch: it spans the blocks of the batch, and for an
/// empty batch the empty range after the head.
pub open spec fn batch_record(batch: &Batch, head: u64, epoch_id: u64, timestamp: u64) -> BatchMapping {
    BatchMapping {
        batch_id: batch.id.number@ as u64,
        batch_hash: batch.id.hash,
        start_block: record_start(batch, head) as u64,
        end_block: record_end(batch, head) as u64,
        block_count: (record_end(batch, head) - record_start(batch, head) + 1) as u32,
        epoch_id,
        timestamp,
    }
}

/// Whether `blocks` are the blocks of `batch` as the engine takes them: the
/// fields of each block, no encoded data, and the batch it came in.
pub open spec fn importables_of(blocks: Seq<ImportableBlock>, batch: &Batch) -> bool {
    &&& blocks.len() == batch.blocks@.len()
    &&& forall|i: int|
        0 <= i < blocks.len() ==> {
            &&& (#[trigger] blocks[i]).number == batch.blocks@[i].number
            &&& blocks[i].hash == batch.blocks@[i].hash
            &&& blocks[i].parent_hash == batch.blocks@[i].parent_hash
            &&& blocks[i].state_root == batch.blocks@[i].state_root
            &&& blocks[i].tx_root == batch.blocks@[i].tx_root
            &&& blocks[i].receipt_root == batch.blocks@[i].receipt_root
            &&& blocks[i].timestamp == batch.blocks@[i].timestamp
            &&& blocks[i].data@.len() == 0
            &&& blocks[i].batch_info == Some(
                BatchInfo {
                    batch_id: batch.id.number,
                    l1_origin: batch.l1_origin,
                    l1_origin_hash: batch.l1_origin_hash,
                    batch_index: batch.blocks@[i].batch_index,
                },
            )
        }
}

/// The number and the hash of each block of a batch.
pub open spec fn batch_entries(batch: &Batch) -> Seq<(nat, crate::types::bytes::FixedBytes<32>)> {
    Seq::new(batch.blocks@.len(), |i: int| (batch.blocks@[i].number@, batch.blocks@[i].hash))
}

/// What a successful commit of `batch` leaves, and what it reports.
pub open spec fn commit_relation(
    index_before: IndexState,
    index_after: IndexState,
    chain_before: ChainState,
    chain_after: ChainState,
    stored_after: Option<Checkpoint>,
    batch: &Batch,
    epoch_id: u64,
    now: u64,
    result: ImportResult,
) -> bool {
    &&& index_after == committed_index(index_before, batch, chain_before.head, epoch_id, now)
    &&& chain_after == chain_before.with_entries(batch_entries(batch))
    &&& stored_after matches Some(checkpoint) && checkpoint_of(checkpoint, batch, now)
    &&& result.blocks_imported == added_count(chain_before, batch_entries(batch))
    &&& result.highest_block@ == highest_entry(batch_entries(batch))
    &&& result.blocks_skipped == (added_count(chain_before, batch_entries(batch))
        < batch.blocks@.len())
}

/// The index after a batch was committed: the records of its blocks first,
/// then the record of the batch.
pub open spec fn committed_index(
    index: IndexState,
    batch: &Batch,
    head: u64,
    epoch_id: u64,
    timestamp: u64,
) -> IndexState {
    index.with_blocks(
        block_mappings_of(batch.blocks@, batch.id.number@ as u64, epoch_id, timestamp),
    ).with_batch(batch_record(batch, head, epoch_id, timestamp))
}

/// Whether `checkpoint` is the one that names `batch` as the last processed, made at `timestamp`.
pub open spec fn checkpoint_of(checkpoint: Checkpoint, batch: &Batch, timestamp: u64) -> bool {
    &&& checkpoint.last_batch_id == batch.id.number
    &&& checkpoint.last_batch_hash == batch.id.hash
    &&& checkpoint.last_l1_block == batch.l1_origin
    &&& checkpoint.timestamp == timestamp
    &&& checkpoint.metadata@ == Map::<Seq<char>, Seq<char>>::empty()
}

/// What saving records one after the other leaves under each block number:
/// the last record saved under it, or what stood there before.
pub proof fn lemma_with_blocks(index: IndexState, mappings: Seq<BlockMapping>)
    ensures
        index.with_blocks(mappings).batches == index.batches,
        index.with_blocks(mappings).epochs == index.epochs,
        forall|k: u64| #[trigger]
            index.with_blocks(mappings).blocks.contains_key(k) <==> (index.blocks.contains_key(k)
                || exists|i: int| 0 <= i < mappings.len() && mappings[i].block_number == k),
        forall|k: u64| #[trigger]
            index.with_blocks(mappings).blocks.contains_key(k) ==> ((index.blocks.contains_key(k)
                && index.with_blocks(mappings).blocks[k] == index.blocks[k]) || exists|i: int|
                0 <= i < mappings.len() && mappings[i].block_number == k && index.with_blocks(
                    mappings,
                ).blocks[k] == mappings[i]),
    decreases mappings.len(),
{
    if mappings.len() > 0 {
        let rest = mappings.drop_last();
        let last = mappings.last();
        lemma_with_blocks(index, rest);
        let mid = index.with_blocks(rest);
        let end = index.with_blocks(mappings);
        assert(end == mid.with_block(last));
        assert forall|k: u64| #[trigger]
            end.blocks.contains_key(k) <==> (index.blocks.contains_key(k) || exists|i: int|
                0 <= i < mappings.len() && mappings[i].block_number == k) by {
            if end.blocks.contains_key(k) {
                if k == last.block_number {
                    assert(mappings[mappings.len() - 1].block_number == k);
                } else {
                    assert(mid.blocks.contains_key(k));
                    if !index.blocks.contains_key(k) {
                        let i = choose|i: int| 0 <= i < rest.len() && rest[i].block_number == k;
                        assert(mappings[i].block_number == k);
                    }
                }
            }
            if exists|i: int| 0 <= i < mappings.len() && mappings[i].block_number == k {
                let i = choose|i: int| 0 <= i < mappings.len() && mappings[i].block_number == k;
                if i < rest.len() {
                    assert(rest[i].block_number == k);
                    assert(mid.blocks.contains_key(k));
                }
            }
            if index.blocks.contains_key(k) {
                assert(mid.blocks.contains_key(k));
            }
        }
        assert forall|k: u64| #[trigger] end.blocks.contains_key(k) implies ((
        index.blocks.contains_key(k) && end.blocks[k] == index.blocks[k]) || exists|i: int|
            0 <= i < mappings.len() && mappings[i].block_number == k && end.blocks[k]
                == mappings[i]) by {
            if k == last.block_number {
                assert(mappings[mappings.len() - 1] == last);
            } else {
                assert(mid.blocks.contains_key(k));
                assert(end.blocks[k] == mid.blocks[k]);
                if !(index.blocks.contains_key(k) && mid.blocks[k] == index.blocks[k]) {
                    let i = choose|i: int|
                        0 <= i < rest.len() && rest[i].block_number == k && mid.blocks[k]
                            == rest[i];
                    assert(mappings[i] == rest[i]);
                }
            }
        }
    }
}

/// Committing a batch that keeps the rules, under a number that the index
/// does not hold yet, keeps every block record resolved: each names a batch
/// that has a record, and lies within the blocks of that batch.
pub proof fn lemma_commit_keeps_blocks_resolved(
    validator: &BatchValidator,
    index: IndexState,
    batch: &Batch,
    head: u64,
    epoch_id: u64,
    timestamp: u64,
)
    requires
        index.blocks_resolve(),
        validator.accepts(batch),
        fits_index(batch),
        record_fits(batch, head),
        !index.batches.contains_key(batch.id.number@ as u64),
    ensures
        committed_index(index, batch, head, epoch_id, timestamp).blocks_resolve(),
{
    let id = batch.id.number@ as u64;
    let mappings = block_mappings_of(batch.blocks@, id, epoch_id, timestamp);
    let record = batch_record(batch, head, epoch_id, timestamp);
    let mid = index.with_blocks(mappings);
    let end = mid.with_batch(record);
    lemma_with_blocks(index, mappings);
    lemma_numbers_rise(batch.blocks@);
    assert forall|k: u64| #[trigger] end.blocks.contains_key(k) implies {
        &&& end.batches.contains_key(end.blocks[k].batch_id)
        &&& end.batches[end.blocks[k].batch_id].batch_id == end.blocks[k].batch_id
        &&& end.batches[end.blocks[k].batch_id].start_block <= end.blocks[k].block_number
            <= end.batches[end.blocks[k].batch_id].end_block
    } by {
        assert(mid.blocks.contains_key(k));
        if index.blocks.contains_key(k) && mid.blocks[k] == index.blocks[k] {
            // an old record: its batch is not the new one, so its batch record is untouched
            assert(index.batches.contains_key(index.blocks[k].batch_id));
            assert(index.blocks[k].batch_id != id);
        } else {
            let i = choose|i: int|
                0 <= i < mappings.len() && mappings[i].block_number == k && mid.blocks[k]
                    == mappings[i];
            assert(mappings[i] == block_mapping_of(batch.blocks@[i], id, epoch_id, timestamp));
            assert(batch.blocks@[0].number@ <= batch.blocks@[i].number@);
            assert(batch.blocks@[i].number@ <= batch.blocks@.last().number@);
        }
    }
}

/// Committing a batch that keeps the rules and follows what the index holds
/// keeps the index sound.
pub proof fn lemma_commit_keeps_sound(
    validator: &BatchValidator,
    index: IndexState,
    batch: &Batch,
    head: u64,
    epoch_id: u64,
    timestamp: u64,
)
    requires
        index.sound(),
        validator.accepts(batch),
        fits_index(batch),
        record_fits(batch, head),
        !index.batches.contains_key(batch.id.number@ as u64),
        index.admits(batch_record(batch, head, epoch_id, timestamp)),
    ensures
        committed_index(index, batch, head, epoch_id, timestamp).sound(),
{
    let id = batch.id.number@ as u64;
    let mappings = block_mappings_of(batch.blocks@, id, epoch_id, timestamp);
    let record = batch_record(batch, head, epoch_id, timestamp);
    let end = committed_index(index, batch, head, epoch_id, timestamp);
    lemma_commit_keeps_blocks_resolved(validator, index, batch, head, epoch_id, timestamp);
    lemma_with_blocks(index, mappings);
    lemma_numbers_rise(batch.blocks@);
    assert(end.keyed()) by {
        assert forall|k: u64| #[trigger] end.blocks.contains_key(k) implies end.blocks[k].block_number
            == k by {
            assert(index.with_blocks(mappings).blocks.contains_key(k));
        }
    }
    assert(end.records_formed()) by {
        if batch.blocks@.len() > 0 {
            assert(batch.blocks@[0].number@ <= batch.blocks@.last().number@);
        }
    }
    assert(end.batches_ordered()) by {
        assert forall|a: u64, b: u64|
            end.batches.contains_key(a) && end.batches.contains_key(b)
                && a < b implies end.batches[a].end_block
            < end.batches[b].start_block by {
            if b == id {
                assert(index.batches.contains_key(a));
            } else {
                assert(index.batches.contains_key(b));
                if a == id {
                    assert(b <= id);
                }
            }
        }
    }
}

/// Where each block's number lies above that of the block before it, the
/// numbers rise from the first block to the last.
pub proof fn lemma_numbers_rise(blocks: Seq<BlockInBatch>)
    requires
        forall|i: int| 1 <= i < blocks.len()
            ==> (#[trigger] blocks[i]).number@ > blocks[i - 1].number@,
    ensures
        forall|i: int, j: int|
            0 <= i <= j < blocks.len() ==> (#[trigger] blocks[i]).number@ <= (
            #[trigger] blocks[j]).number@,
    decreases blocks.len(),
{
    if blocks.len() > 1 {
        let rest = blocks.drop_last();
        assert forall|i: int| 1 <= i < rest.len() implies (#[trigger] rest[i]).number@ > rest[i
            - 1].number@ by {
            assert(rest[i] == blocks[i]);
            assert(rest[i - 1] == blocks[i - 1]);
        }
        lemma_numbers_rise(rest);
        assert forall|i: int, j: int| 0 <= i <= j < blocks.len() implies (
        #[trigger] blocks[i]).number@ <= (#[trigger] blocks[j]).number@ by {
            let n = blocks.len() - 1;
            if j < n {
                assert(rest[i] == blocks[i]);
                assert(rest[j] == blocks[j]);
            } else if i < n {
                assert(rest[i] == blocks[i]);
                assert(rest[n - 1] == blocks[n - 1]);
                assert(blocks[n].number@ > blocks[n - 1].number@);
            }
        }
    }
}

/// A batch that was committed is recognised when it comes again: the pipeline
/// then changes nothing.
pub proof fn lemma_reingest_is_recognised(
    index: IndexState,
    batch: &Batch,
    head: u64,
    epoch_id: u64,
    timestamp: u64,
    stored: Option<Checkpoint>,
)
    requires
        batch.id.number@ <= u64::MAX,
    ensures
        admission(
            batch,
            committed_index(index, batch, head, epoch_id, timestamp).batch(batch.id.number@ as u64),
            stored,
        ) == Admission::AlreadyIngested,
{
}

/// When a batch is committed, the checkpoint moves up: a batch is only taken
/// as new where its number lies above that of the checkpoint stored.
pub proof fn lemma_checkpoint_moves_up(
    batch: &Batch,
    existing: Option<BatchMapping>,
    stored: Checkpoint,
    made: Checkpoint,
    now: u64,
)
    requires
        admission(batch, existing, Some(stored))
            == Admission::Fresh,
        checkpoint_of(made, batch, now),
    ensures
        made.last_batch_id@ > stored.last_batch_id@,
{
}

/// Counts of what the pipeline did.
#[derive(Debug, Clone, Copy, PartialEq, Eq)]
pub struct IngestStats {
    /// Batches committed.
    pub batches_committed: u64,
    /// Batches that came again and were left alone.
    pub batches_repeated: u64,
    /// Blocks imported into the engine.
    pub blocks_imported: u64,
    /// Batches that failed.
    pub error_count: u64,
}

/// The counts after a batch went through the pipeline with the given end: a
/// commit counts the batch and the blocks that were imported, a batch that
/// came again is counted as such, and a failure is counted as an error.
pub open spec fn stats_after(before: IngestStats, end: Result<IngestOutcome, IngestFailure>) -> IngestStats {
    match end {
        Ok(IngestOutcome::Committed(result)) => IngestStats {
            batches_committed: bumped(before.batches_committed),
            blocks_imported: capped_sum(before.blocks_imported, result.blocks_imported),
            ..before
        },
        Ok(IngestOutcome::AlreadyIngested) => IngestStats {
            batches_repeated: bumped(before.batches_repeated),
            ..before
        },
        Err(_) => IngestStats { error_count: bumped(before.error_count), ..before },
    }
}

/// The ingestion pipeline of one source.
pub struct IngestPipeline<S: MappingStorage, C: CheckpointStorage, B: BlockImporter, F: FinalityManager> {
    /// Checks batches.
    pub validator: BatchValidator,
    /// Assembles batches.
    pub assembler: BatchAssembler,
    /// The index.
    pub index: S,
    /// Where the checkpoint is kept.
    pub checkpoints: C,
    /// The engine.
    pub engine: EngineFacade<B, F>,
    /// The epoch that batches are filed under.
    pub epoch_id: u64,
    /// Counts of what was done.
    pub stats: IngestStats,
}

impl<S: MappingStorage, C: CheckpointStorage, B: BlockImporter, F: FinalityManager> IngestPipeline<
    S,
    C,
    B,
    F,
> {
    /// A pipeline on the given parts, with all counts at zero, filing batches
    /// under epoch zero.
    pub fn new(
        validator: BatchValidator,
        assembler: BatchAssembler,
        index: S,
        checkpoints: C,
        engine: EngineFacade<B, F>,
    ) -> (r: Self)
        ensures
            r.validator == validator,
            r.assembler == assembler,
            r.index == index,
            r.checkpoints == checkpoints,
            r.engine == engine,
            r.epoch_id == 0,
            r.stats == (IngestStats {
                batches_committed: 0,
                batches_repeated: 0,
                blocks_imported: 0,
                error_count: 0,
            }),
    {
        IngestPipeline {
            validator,
            assembler,
            index,
            checkpoints,
            engine,
            epoch_id: 0,
            stats: IngestStats {
                batches_committed: 0,
                batches_repeated: 0,
                blocks_imported: 0,
                error_count: 0,
            },
        }
    }

    /// Whether the index, the chain, the final block and the checkpoint of
    /// `self` are those of `other`.
    pub open spec fn same_state(&self, other: &Self) -> bool {
        &&& self.index.index() == other.index.index()
        &&& self.engine.chain() == other.engine.chain()
        &&& self.engine.final_block() == other.engine.final_block()
        &&& self.checkpoints.stored() == other.checkpoints.stored()
    }

    /// The blocks of a batch as the engine takes them.
    pub fn importables(batch: &Batch) -> (r: Vec<ImportableBlock>)
        ensures
            importables_of(r@, batch),
    {
        let mut out: Vec<ImportableBlock> = Vec::new();
        let mut i: usize = 0;
        while i < batch.blocks.len()
            invariant
                i <= batch.blocks@.len(),
                out@.len() == i,
                forall|j: int|
                    0 <= j < i ==> {
                        &&& (#[trigger] out@[j]).number == batch.blocks@[j].number
                        &&& out@[j].hash == batch.blocks@[j].hash
                        &&& out@[j].parent_hash == batch.blocks@[j].parent_hash
                        &&& out@[j].state_root == batch.blocks@[j].state_root
                        &&& out@[j].tx_root == batch.blocks@[j].tx_root
                        &&& out@[j].receipt_root == batch.blocks@[j].receipt_root
                        &&& out@[j].timestamp == batch.blocks@[j].timestamp
                        &&& out@[j].data@.len() == 0
                        &&& out@[j].batch_info == Some(
                            BatchInfo {
                                batch_id: batch.id.number,
                                l1_origin: batch.l1_origin,
                                l1_origin_hash: batch.l1_origin_hash,
                                batch_index: batch.blocks@[j].batch_index,
                            },
                        )
                    },
            decreases batch.blocks@.len() - i,
        {
            let one = ImportableBlock::from_batch_block(&batch.blocks[i], batch, Bytes::new());
            out.push(one);
            i = i + 1;
        }
        out
    }

    /// The index record of a batch, or `None` where it cannot be written.
    fn record_for(batch: &Batch, batch_id: u64, head: u64, epoch_id: u64, timestamp: u64) -> (r:
        Option<BatchMapping>)
        requires
            fits_index(batch),
            batch_id == batch.id.number@,
            forall|i: int|
                1 <= i < batch.blocks@.len() ==> (#[trigger] batch.blocks@[i]).number@
                    > batch.blocks@[i - 1].number@,
        ensures
            record_fits(batch, head) ==> r == Some(batch_record(batch, head, epoch_id, timestamp)),
            !record_fits(batch, head) ==> r is None,
    {
        proof {
            lemma_numbers_rise(batch.blocks@);
        }
        let count: usize = batch.blocks.len();
        if count == 0 {
            if head == u64::MAX {
                return None;
            }
            return Some(
                BatchMapping {
                    batch_id,
                    batch_hash: batch.id.hash,
                    start_block: head + 1,
                    end_block: head,
                    block_count: 0,
                    epoch_id,
                    timestamp,
                },
            );
        }
        let first: u64 = match batch.blocks[0].number.to_u64() {
            Some(n) => n,
            None => {
                return None;
            },
        };
        let last: u64 = match batch.blocks[count - 1].number.to_u64() {
            Some(n) => n,
            None => {
                return None;
            },
        };
        assert(first <= last);
        let span: u64 = last - first;
        if span >= u32::MAX as u64 {
            return None;
        }
        Some(
            BatchMapping {
                batch_id,
                batch_hash: batch.id.hash,
                start_block: first,
                end_block: last,
                block_count: (span + 1) as u32,
                epoch_id,
                timestamp,
            },
        )
    }

    /// Whether a batch record follows what the index holds: no batch with a
    /// higher number has a record, and the batch with the highest number below
    /// ends before the new one begins.
    pub fn follows_index(&self, record: &BatchMapping) -> (r: Result<bool, IngestError>)
        ensures
            r is Ok ==> r->Ok_0 == self.index.index().follows(*record),
    {
        if record.batch_id < u64::MAX {
            let above = match self.index.get_batch_mappings_range(record.batch_id + 1, u64::MAX) {
                Ok(found) => found,
                Err(e) => {
                    return Err(e);
                },
            };
            proof {
                let keys = choose|keys: Seq<u64>|
                    {
                        &&& is_range_scan(
                            keys,
                            self.index.index().batches.dom(),
                            (record.batch_id + 1) as u64,
                            u64::MAX,
                        )
                        &&& #[trigger] keys.len() == above@.len()
                    };
                if above@.len() > 0 {
                    assert(keys.contains(keys[0]));
                    assert(self.index.index().batches.contains_key(keys[0]) && keys[0]
                        > record.batch_id);
                } else {
                    assert forall|k: u64| #[trigger]
                        self.index.index().batches.contains_key(k) implies k <= record.batch_id by {
                        if k > record.batch_id {
                            assert(keys.contains(k));
                        }
                    }
                }
            }
            if above.len() > 0 {
                return Ok(false);
            }
        }
        let highest: Option<u64> = match self.index.highest_batch_below(record.batch_id) {
            Ok(h) => h,
            Err(e) => {
                return Err(e);
            },
        };
        match highest {
            Some(k) => {
                assert(self.index.index().is_highest_batch_below(k, record.batch_id));
                let lower: BatchMapping = match self.index.load_batch_mapping(k) {
                    Ok(Some(m)) => m,
                    Ok(None) => {
                        assert(false);
                        return Ok(false);
                    },
                    Err(e) => {
                        return Err(e);
                    },
                };
                Ok(lower.end_block < record.start_block)
            },
            None => Ok(true),
        }
    }

    /// Saves the block records in order.
    fn save_blocks(&mut self, mappings: &Vec<BlockMapping>) -> (r: Result<(), IngestError>)
        ensures
            final(self).index.index().batches == old(self).index.index().batches,
            final(self).index.index().epochs == old(self).index.index().epochs,
            final(self).validator == old(self).validator,
            final(self).assembler == old(self).assembler,
            final(self).epoch_id == old(self).epoch_id,
            final(self).stats == old(self).stats,
            final(self).engine == old(self).engine,
            final(self).checkpoints == old(self).checkpoints,
            r is Ok ==> final(self).index.index() == old(self).index.index().with_blocks(
                mappings@,
            ),
            r is Err ==> exists|n: int|
                0 <= n < mappings@.len() && final(self).index.index()
                    == old(self).index.index().with_blocks(#[trigger] mappings@.take(n)),
    {
        let mut i: usize = 0;
        while i < mappings.len()
            invariant
                i <= mappings@.len(),
                self.validator == old(self).validator,
                self.assembler == old(self).assembler,
                self.epoch_id == old(self).epoch_id,
                self.stats == old(self).stats,
                self.engine == old(self).engine,
                self.checkpoints == old(self).checkpoints,
                self.index.index() == old(self).index.index().with_blocks(mappings@.take(i as int)),
                self.index.index().batches == old(self).index.index().batches,
                self.index.index().epochs == old(self).index.index().epochs,
            decreases mappings@.len() - i,
        {
            match self.index.save_block_mapping(mappings[i]) {
                Ok(()) => {},
                Err(e) => {
                    return Err(e);
                },
            }
            proof {
                assert(mappings@.take(i + 1).drop_last() =~= mappings@.take(i as int));
                assert(mappings@.take(i + 1).last() == mappings@[i as int]);
            }
            i = i + 1;
        }
        assert(mappings@.take(mappings@.len() as int) =~= mappings@);
        Ok(())
    }

    /// Takes one batch through the pipeline: validation, assembly, import
    /// into the engine, commit to the index (block records first, then the
    /// batch record), and last the checkpoint.
    ///
    /// A batch that breaks a rule is refused before anything is touched. A
    /// batch that the index holds already is left alone. The checkpoint moves
    /// only when all the rest has succeeded, and only upwards.
    pub fn process_batch(&mut self, batch: &Batch, now: u64) -> (r: Result<
        IngestOutcome,
        IngestFailure,
    >)
        ensures
            final(self).validator == old(self).validator,
            final(self).assembler == old(self).assembler,
            final(self).epoch_id == old(self).epoch_id,
            final(self).engine.final_block() == old(self).engine.final_block(),
            final(self).stats == stats_after(old(self).stats, r),
            !old(self).validator.accepts(batch) ==> r matches Err(IngestFailure::Invalid(_)),
            old(self).validator.accepts(batch) && !fits_index(batch) ==> (r matches Err(
                IngestFailure::Assembly(IngestError::BlockConversionError(text)),
            ) && text@ == if batch.id.number@ > u64::MAX {
                "Batch number does not fit in 64 bits"@
            } else {
                "Block number does not fit in 64 bits"@
            }),
            old(self).index.index().sound() && r is Ok ==> final(self).index.index().sound(),
            r is Err ==> final(self).checkpoints.stored() == old(self).checkpoints.stored(),
            match r {
                Ok(IngestOutcome::Committed(result)) => {
                    &&& old(self).validator.accepts(batch)
                    &&& fits_index(batch)
                    &&& record_fits(batch, old(self).engine.chain().head)
                    &&& admission(
                        batch,
                        old(self).index.index().batch(batch.id.number@ as u64),
                        old(self).checkpoints.stored(),
                    ) == Admission::Fresh
                    &&& old(self).index.index().follows(
                        batch_record(batch, old(self).engine.chain().head, old(self).epoch_id, now),
                    )
                    &&& commit_relation(
                        old(self).index.index(),
                        final(self).index.index(),
                        old(self).engine.chain(),
                        final(self).engine.chain(),
                        final(self).checkpoints.stored(),
                        batch,
                        old(self).epoch_id,
                        now,
                        result,
                    )
                },
                Ok(IngestOutcome::AlreadyIngested) => {
                    &&& final(self).same_state(old(self))
                    &&& old(self).validator.accepts(batch)
                    &&& fits_index(batch)
                    &&& admission(
                        batch,
                        old(self).index.index().batch(batch.id.number@ as u64),
                        old(self).checkpoints.stored(),
                    ) == Admission::AlreadyIngested
                },
                Err(IngestFailure::Invalid(e)) => {
                    &&& final(self).same_state(old(self))
                    &&& old(self).validator.first_fault(batch) matches Some(fault)
                    &&& e matches IngestError::InvalidBatchData(text)
                    &&& text@ == fault.message_spec()
                },
                Err(IngestFailure::Assembly(_)) => {
                    &&& final(self).same_state(old(self))
                    &&& old(self).validator.accepts(batch)
                    &&& (!fits_index(batch) || !record_fits(batch, old(self).engine.chain().head))
                },
                Err(IngestFailure::Conflict(number)) => {
                    &&& final(self).same_state(old(self))
                    &&& number == batch.id.number@
                    &&& admission(
                        batch,
                        old(self).index.index().batch(batch.id.number@ as u64),
                        old(self).checkpoints.stored(),
                    ) == Admission::Conflict
                },
                Err(IngestFailure::Stale(number)) => {
                    &&& final(self).same_state(old(self))
                    &&& number == batch.id.number@
                    &&& admission(
                        batch,
                        old(self).index.index().batch(batch.id.number@ as u64),
                        old(self).checkpoints.stored(),
                    ) == Admission::Stale
                },
                Err(IngestFailure::OutOfOrder(number)) => {
                    &&& final(self).same_state(old(self))
                    &&& number == batch.id.number@
                    &&& old(self).validator.accepts(batch)
                    &&& !old(self).index.index().follows(
                        batch_record(batch, old(self).engine.chain().head, old(self).epoch_id, now),
                    )
                },
                Err(IngestFailure::Engine(_)) => {
                    &&& final(self).index.index() == old(self).index.index()
                    &&& exists|n: int|
                        0 <= n <= batch.blocks@.len() && final(self).engine.chain()
                            == old(self).engine.chain().with_entries(#[trigger] batch_entries(batch).take(n))
                },
                Err(IngestFailure::Index(_)) => {
                    &&& final(self).index.index().batches == old(self).index.index().batches
                    &&& final(self).index.index().epochs == old(self).index.index().epochs
                    &&& exists|n: int|
                        0 <= n <= batch.blocks@.len() && final(self).index.index()
                            == old(self).index.index().with_blocks(
                            #[trigger] block_mappings_of(
                                batch.blocks@,
                                batch.id.number@ as u64,
                                old(self).epoch_id,
                                now,
                            ).take(n),
                        )
                    &&& final(self).engine.chain() == old(self).engine.chain()
                        || final(self).engine.chain()
                        == old(self).engine.chain().with_entries(batch_entries(batch))
                },
                Err(IngestFailure::Checkpoint(_)) => {
                    ||| final(self).same_state(old(self))
                    ||| {
                        &&& final(self).index.index() == committed_index(
                            old(self).index.index(),
                            batch,
                            old(self).engine.chain().head,
                            old(self).epoch_id,
                            now,
                        )
                        &&& final(self).engine.chain() == old(self).engine.chain().with_entries(
                            batch_entries(batch),
                        )
                    }
                },
            },
    {
        proof {
            old(self).validator.lemma_accepts_iff_no_fault(batch);
        }
        // validation: failure is final, nothing is touched
        match self.validator.validate_batch(batch) {
            Ok(()) => {},
            Err(e) => {
                self.stats.error_count = bump(self.stats.error_count);
                return Err(IngestFailure::Invalid(e));
            },
        }
        // assembly
        let assembled = match self.assembler.assemble(batch, self.epoch_id, now) {
            Ok(a) => a,
            Err(e) => {
                self.stats.error_count = bump(self.stats.error_count);
                return Err(IngestFailure::Assembly(e));
            },
        };
        let batch_id: u64 = match batch.id.number.to_u64() {
            Some(n) => n,
            None => {
                assert(false);
                return Err(
                    IngestFailure::Assembly(
                        IngestError::BlockConversionError(
                            String::from_str("Batch number does not fit in 64 bits"),
                        ),
                    ),
                );
            },
        };
        // has this batch been seen before?
        let ghost wanted = block_mappings_of(batch.blocks@, batch_id, self.epoch_id, now);
        let existing: Option<BatchMapping> = match self.index.load_batch_mapping(batch_id) {
            Ok(m) => m,
            Err(e) => {
                proof {
                    assert(wanted.take(0) =~= Seq::empty());
                    assert(self.index.index()
                        == old(self).index.index().with_blocks(wanted.take(0)));
                }
                self.stats.error_count = bump(self.stats.error_count);
                return Err(IngestFailure::Index(e));
            },
        };
        let stored: Option<Checkpoint> = match self.checkpoints.load_checkpoint() {
            Ok(c) => c,
            Err(e) => {
                self.stats.error_count = bump(self.stats.error_count);
                return Err(IngestFailure::Checkpoint(e));
            },
        };
        let decision = decide_admission(batch, &existing, &stored);
        assert(decision == admission(
            batch,
            old(self).index.index().batch(batch_id),
            old(self).checkpoints.stored(),
        ));
        match decision {
            Admission::AlreadyIngested => {
                self.stats.batches_repeated = bump(self.stats.batches_repeated);
                return Ok(IngestOutcome::AlreadyIngested);
            },
            Admission::Conflict => {
                self.stats.error_count = bump(self.stats.error_count);
                return Err(IngestFailure::Conflict(batch_id));
            },
            Admission::Stale => {
                self.stats.error_count = bump(self.stats.error_count);
                return Err(IngestFailure::Stale(batch_id));
            },
            Admission::Fresh => {},
        }
        // the record of the batch
        let head: u64 = match self.engine.get_head_block() {
            Ok(h) => match h.to_u64() {
                Some(n) => n,
                None => {
                    assert(false);
                    return Err(
                        IngestFailure::Engine(
                            EngineFacadeError::InternalError(
                                String::from_str("Head block does not fit in 64 bits"),
                            ),
                        ),
                    );
                },
            },
            Err(e) => {
                proof {
                    assert(batch_entries(batch).take(0) =~= Seq::empty());
                    assert(self.engine.chain() == old(self).engine.chain().with_entries(
                        batch_entries(batch).take(0),
                    ));
                }
                self.stats.error_count = bump(self.stats.error_count);
                return Err(IngestFailure::Engine(e));
            },
        };
        let record: BatchMapping = match Self::record_for(batch, batch_id, head, self.epoch_id, now) {
            Some(m) => m,
            None => {
                self.stats.error_count = bump(self.stats.error_count);
                return Err(
                    IngestFailure::Assembly(
                        IngestError::MappingError(
                            String::from_str("Batch spans more blocks than a record can count"),
                        ),
                    ),
                );
            },
        };
        // the batch has to follow what the index holds
        match self.follows_index(&record) {
            Ok(true) => {},
            Ok(false) => {
                self.stats.error_count = bump(self.stats.error_count);
                return Err(IngestFailure::OutOfOrder(batch_id));
            },
            Err(e) => {
                proof {
                    assert(wanted.take(0) =~= Seq::empty());
                    assert(self.index.index()
                        == old(self).index.index().with_blocks(wanted.take(0)));
                }
                self.stats.error_count = bump(self.stats.error_count);
                return Err(IngestFailure::Index(e));
            },
        }
        proof {
            if old(self).index.index().sound() {
                crate::ingest::mapping::lemma_follows_admits(old(self).index.index(), record);
                lemma_commit_keeps_sound(
                    &old(self).validator,
                    old(self).index.index(),
                    batch,
                    head,
                    old(self).epoch_id,
                    now,
                );
            }
        }
        // import into the engine
        let blocks: Vec<ImportableBlock> = Self::importables(batch);
        proof {
            assert(entries_of(blocks@) =~= batch_entries(batch));
        }
        let ghost handed = blocks@;
        let result: ImportResult = match self.engine.import_batch(batch, blocks) {
            Ok(res) => res,
            Err(e) => {
                proof {
                    let n = choose|n: int|
                        0 <= n < handed.len() && self.engine.chain()
                            == old(self).engine.chain().with_blocks(#[trigger] handed.take(n));
                    assert(entries_of(handed.take(n)) =~= batch_entries(batch).take(n));
                    assert(self.engine.chain() == old(self).engine.chain().with_entries(
                        batch_entries(batch).take(n),
                    ));
                }
                self.stats.error_count = bump(self.stats.error_count);
                return Err(IngestFailure::Engine(e));
            },
        };
        // commit to the index: block records first, then the batch record
        match self.save_blocks(&assembled.mappings) {
            Ok(()) => {},
            Err(e) => {
                self.stats.error_count = bump(self.stats.error_count);
                return Err(IngestFailure::Index(e));
            },
        }
        match self.index.save_batch_mapping(record) {
            Ok(()) => {},
            Err(e) => {
                proof {
                    assert(wanted.take(wanted.len() as int) =~= wanted);
                    assert(self.index.index() == old(self).index.index().with_blocks(
                        wanted.take(wanted.len() as int),
                    ));
                }
                self.stats.error_count = bump(self.stats.error_count);
                return Err(IngestFailure::Index(e));
            },
        }
        // the checkpoint follows the commit
        let checkpoint = Checkpoint::from_batch(batch, now);
        match self.checkpoints.save_checkpoint(checkpoint) {
            Ok(()) => {},
            Err(e) => {
                self.stats.error_count = bump(self.stats.error_count);
                return Err(IngestFailure::Checkpoint(e));
            },
        }
        self.stats.batches_committed = bump(self.stats.batches_committed);
        self.stats.blocks_imported = add_capped(self.stats.blocks_imported, result.blocks_imported);
        Ok(IngestOutcome::Committed(result))
    }
}

} // verus!
