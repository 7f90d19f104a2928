//! Checkpoints: durable markers of the last batch that was ingested.

use vstd::prelude::*;
use crate::datastream::error::DatastreamError;
use crate::types::batch::Batch;
use crate::types::bytes::{all_zero, FixedBytes};
use crate::types::u256::U256;

verus! {

/// The position of the first entry of `entries` whose key is `key`, or the
/// length of `entries` where there is none.
pub open spec fn first_key_index(entries: Seq<(String, String)>, key: Seq<char>) -> int
    decreases entries.len(),
{
    if entries.len() == 0 {
        0
    } else if entries[0].0@ == key {
        0
    } else {
        1 + first_key_index(entries.drop_first(), key)
    }
}

/// `first_key_index` points at an entry with the key asked for, and no earlier
/// entry has it.
pub proof fn lemma_first_key_index(entries: Seq<(String, String)>, key: Seq<char>)
    ensures
        0 <= first_key_index(entries, key) <= entries.len(),
        first_key_index(entries, key) < entries.len() ==> entries[first_key_index(
            entries,
            key,
        )].0@ == key,
        forall|j: int| 0 <= j < first_key_index(entries, key) ==> (#[trigger] entries[j]).0@ != key,
    decreases entries.len(),
{
    if entries.len() == 0 {
    } else if entries[0].0@ == key {
    } else {
        let rest = entries.drop_first();
        lemma_first_key_index(rest, key);
        assert forall|j: int| 0 <= j < first_key_index(entries, key) implies (
        #[trigger] entries[j]).0@ != key by {
            if j > 0 {
                assert(entries[j] == rest[j - 1]);
            }
        }
    }
}

/// Where `at` holds the key and nothing before it does, `at` is the first index of the key.
pub proof fn lemma_first_key_index_is(entries: Seq<(String, String)>, key: Seq<char>, at: int)
    requires
        0 <= at <= entries.len(),
        at < entries.len() ==> entries[at].0@ == key,
        forall|j: int| 0 <= j < at ==> (#[trigger] entries[j]).0@ != key,
    ensures
        first_key_index(entries, key) == at,
{
    lemma_first_key_index(entries, key);
    let f = first_key_index(entries, key);
    if f < at {
        assert(entries[f].0@ != key);
    }
    if at < f {
        assert(entries[at].0@ != key);
    }
}

/// The map that a list of entries stands for: each key goes to the value of
/// its first entry.
pub open spec fn entries_map(entries: Seq<(String, String)>) -> Map<Seq<char>, Seq<char>> {
    Map::new(
        |k: Seq<char>| first_key_index(entries, k) < entries.len(),
        |k: Seq<char>| entries[first_key_index(entries, k)].1@,
    )
}

/// Entries by key, each key once as far as a reader can tell. Two sets of
/// entries are equal where each key has the same value in both, in whatever
/// order the entries were made.
#[derive(Debug, Clone)]
pub struct Metadata {
    entries: Vec<(String, String)>,
}

impl View for Metadata {
    type V = Map<Seq<char>, Seq<char>>;

    closed spec fn view(&self) -> Map<Seq<char>, Seq<char>> {
        entries_map(self.entries@)
    }
}

/// Setting a key at its first entry, or at the end where it has none, sets it in the map.
pub proof fn lemma_entries_map_set(
    before: Seq<(String, String)>,
    after: Seq<(String, String)>,
    key: String,
    value: String,
)
    requires
        first_key_index(before, key@) < before.len() ==> after == before.update(
            first_key_index(before, key@),
            (key, value),
        ),
        first_key_index(before, key@) >= before.len() ==> after == before.push((key, value)),
    ensures
        entries_map(after) == entries_map(before).insert(key@, value@),
{
    let at = first_key_index(before, key@);
    lemma_first_key_index(before, key@);
    assert forall|k: Seq<char>|
        {
            &&& (#[trigger] entries_map(after).dom().contains(k)) == entries_map(before).insert(
                key@,
                value@,
            ).dom().contains(k)
            &&& entries_map(after).dom().contains(k) ==> entries_map(after)[k] == entries_map(
                before,
            ).insert(key@, value@)[k]
        } by {
        lemma_first_key_index(before, k);
        if k == key@ {
            assert forall|j: int| 0 <= j < at implies (#[trigger] after[j]).0@ != k by {
                assert(after[j] == before[j]);
            }
            lemma_first_key_index_is(after, k, at);
        } else {
            let f = first_key_index(before, k);
            if f < before.len() {
                assert(f != at);
                assert forall|j: int| 0 <= j < f implies (#[trigger] after[j]).0@ != k by {
                    if j != at {
                        assert(after[j] == before[j]);
                    }
                }
                assert(after[f] == before[f]);
                lemma_first_key_index_is(after, k, f);
            } else {
                assert forall|j: int| 0 <= j < after.len() implies (#[trigger] after[j]).0@ != k by {
                    if j != at {
                        assert(after[j] == before[j]);
                    }
                }
                lemma_first_key_index_is(after, k, after.len() as int);
            }
        }
    }
    assert(entries_map(after) =~= entries_map(before).insert(key@, value@));
}

impl Metadata {
    /// No entries.
    pub fn new() -> (r: Metadata)
        ensures
            r@ == Map::<Seq<char>, Seq<char>>::empty(),
    {
        let r = Metadata { entries: Vec::new() };
        assert(r@ =~= Map::<Seq<char>, Seq<char>>::empty());
        r
    }

    /// The position of the first entry with the given key, or the number of
    /// entries where there is none.
    fn find(&self, key: &String) -> (r: usize)
        ensures
            r == first_key_index(self.entries@, key@),
            r <= self.entries@.len(),
    {
        let mut i: usize = 0;
        while i < self.entries.len()
            invariant
                i <= self.entries@.len(),
                forall|j: int| 0 <= j < i ==> (#[trigger] self.entries@[j]).0@ != key@,
            decreases self.entries@.len() - i,
        {
            if self.entries[i].0 == *key {
                proof {
                    lemma_first_key_index_is(self.entries@, key@, i as int);
                }
                return i;
            }
            i = i + 1;
        }
        proof {
            lemma_first_key_index_is(self.entries@, key@, i as int);
        }
        i
    }

    /// Sets `key` to `value`, which replaces what `key` had.
    pub fn insert(&mut self, key: String, value: String)
        ensures
            final(self)@ == old(self)@.insert(key@, value@),
    {
        let at: usize = self.find(&key);
        proof {
            let before = self.entries@;
            let after = if at < before.len() {
                before.update(at as int, (key, value))
            } else {
                before.push((key, value))
            };
            lemma_entries_map_set(before, after, key, value);
        }
        if at < self.entries.len() {
            self.entries.set(at, (key, value));
        } else {
            self.entries.push((key, value));
        }
    }

    /// The value that `key` has, if it has one.
    pub fn get(&self, key: &str) -> (r: Option<&String>)
        ensures
            self@.dom().contains(key@) ==> r is Some && r->0@ == self@[key@],
            !self@.dom().contains(key@) ==> r is None,
    {
        let owned = key.to_owned();
        let at: usize = self.find(&owned);
        if at < self.entries.len() {
            Some(&self.entries[at].1)
        } else {
            None
        }
    }

    /// Whether every key of `self` has the same value in `other`.
    pub fn covered_by(&self, other: &Metadata) -> (r: bool)
        ensures
            r == self@.submap_of(other@),
    {
        let mut i: usize = 0;
        while i < self.entries.len()
            invariant
                i <= self.entries@.len(),
                forall|j: int|
                    0 <= j < i ==> other@.dom().contains((#[trigger] self.entries@[j]).0@)
                        && other@[self.entries@[j].0@] == self@[self.entries@[j].0@],
            decreases self.entries@.len() - i,
        {
            let own: usize = self.find(&self.entries[i].0);
            let theirs: usize = other.find(&self.entries[i].0);
            proof {
                lemma_first_key_index(self.entries@, self.entries@[i as int].0@);
                assert(own < self.entries@.len()) by {
                    if own >= self.entries@.len() {
                        assert(self.entries@[i as int].0@ != self.entries@[i as int].0@);
                    }
                }
            }
            if theirs >= other.entries.len() {
                assert(self@.dom().contains(self.entries@[i as int].0@));
                assert(!other@.dom().contains(self.entries@[i as int].0@));
                return false;
            }
            let agree: bool = self.entries[own].1 == other.entries[theirs].1;
            if !agree {
                assert(self@.dom().contains(self.entries@[i as int].0@));
                assert(other@.dom().contains(self.entries@[i as int].0@));
                assert(self@[self.entries@[i as int].0@] == self.entries@[own as int].1@);
                assert(other@[self.entries@[i as int].0@] == other.entries@[theirs as int].1@);
                return false;
            }
            i = i + 1;
        }
        proof {
            assert forall|k: Seq<char>| #[trigger] self@.dom().contains(k) implies #[trigger] other@.dom().contains(
                k,
            ) && self@[k] == other@[k] by {
                lemma_first_key_index(self.entries@, k);
                let at = first_key_index(self.entries@, k);
                assert(self.entries@[at].0@ == k);
            }
        }
        true
    }

    /// Whether both hold the same value for every key.
    pub fn same_entries(&self, other: &Metadata) -> (r: bool)
        ensures
            r == (self@ == other@),
    {
        let forth: bool = self.covered_by(other);
        let back: bool = other.covered_by(self);
        proof {
            if forth && back {
                assert(self@ =~= other@);
            }
        }
        forth && back
    }

    /// Entries with the same contents.
    pub fn duplicate(&self) -> (r: Metadata)
        ensures
            r@ == self@,
    {
        let mut entries: Vec<(String, String)> = Vec::new();
        let mut i: usize = 0;
        while i < self.entries.len()
            invariant
                i <= self.entries@.len(),
                entries@ == self.entries@.take(i as int),
            decreases self.entries@.len() - i,
        {
            let k = self.entries[i].0.clone();
            let v = self.entries[i].1.clone();
            entries.push((k, v));
            assert(entries@ =~= self.entries@.take(i + 1));
            i = i + 1;
        }
        assert(entries@ =~= self.entries@);
        Metadata { entries }
    }
}

impl PartialEq for Metadata {
    fn eq(&self, other: &Self) -> (r: bool) {
        self.same_entries(other)
    }
}

impl Eq for Metadata {}

impl vstd::std_specs::cmp::PartialEqSpecImpl for Metadata {
    open spec fn obeys_eq_spec() -> bool {
        true
    }

    open spec fn eq_spec(&self, other: &Self) -> bool {
        self@ == other@
    }
}

/// The state of batch ingestion: which batch was processed last.
#[derive(Debug, Clone, PartialEq, Eq)]
pub struct Checkpoint {
    /// Number of the last batch processed.
    pub last_batch_id: U256,
    /// Digest of the last batch processed.
    pub last_batch_hash: FixedBytes<32>,
    /// L1 block at which the last batch was submitted.
    pub last_l1_block: U256,
    /// When the checkpoint was made.
    pub timestamp: u64,
    /// Further entries, by key.
    pub metadata: Metadata,
}

impl Checkpoint {
    /// Whether two checkpoints hold the same values.
    pub open spec fn same_as(&self, other: &Checkpoint) -> bool {
        &&& self.last_batch_id == other.last_batch_id
        &&& self.last_batch_hash == other.last_batch_hash
        &&& self.last_l1_block == other.last_l1_block
        &&& self.timestamp == other.timestamp
        &&& self.metadata@ == other.metadata@
    }

    /// Whether the checkpoint is valid: its digest is not zero and it carries a time.
    pub open spec fn valid(&self) -> bool {
        !all_zero(self.last_batch_hash@) && self.timestamp > 0
    }

    /// A checkpoint without further entries.
    pub fn new(
        last_batch_id: U256,
        last_batch_hash: FixedBytes<32>,
        last_l1_block: U256,
        timestamp: u64,
    ) -> (r: Checkpoint)
        ensures
            r.last_batch_id == last_batch_id,
            r.last_batch_hash == last_batch_hash,
            r.last_l1_block == last_l1_block,
            r.timestamp == timestamp,
            r.metadata@ == Map::<Seq<char>, Seq<char>>::empty(),
    {
        Checkpoint { last_batch_id, last_batch_hash, last_l1_block, timestamp, metadata: Metadata::new() }
    }

    /// The same checkpoint with `key` set to `value`, which replaces what `key` had.
    pub fn with_metadata(self, key: String, value: String) -> (r: Checkpoint)
        ensures
            r.last_batch_id == self.last_batch_id,
            r.last_batch_hash == self.last_batch_hash,
            r.last_l1_block == self.last_l1_block,
            r.timestamp == self.timestamp,
            r.metadata@ == self.metadata@.insert(key@, value@),
    {
        let mut out = self;
        out.metadata.insert(key, value);
        out
    }

    /// The value that `key` has, if it has one.
    pub fn get_metadata(&self, key: &str) -> (r: Option<&String>)
        ensures
            self.metadata@.dom().contains(key@) ==> r is Some && r->0@ == self.metadata@[key@],
            !self.metadata@.dom().contains(key@) ==> r is None,
    {
        self.metadata.get(key)
    }

    /// Whether the checkpoint is valid: its digest is not zero and it carries a time.
    pub fn is_valid(&self) -> (r: bool)
        ensures
            r == self.valid(),
    {
        !self.last_batch_hash.is_zero() && self.timestamp > 0
    }

    /// The checkpoint that says `batch` was processed last, made at `timestamp`.
    pub fn from_batch(batch: &Batch, timestamp: u64) -> (r: Checkpoint)
        ensures
            r.last_batch_id == batch.id.number,
            r.last_batch_hash == batch.id.hash,
            r.last_l1_block == batch.l1_origin,
            r.timestamp == timestamp,
            r.metadata@ == Map::<Seq<char>, Seq<char>>::empty(),
    {
        Checkpoint::new(batch.id.number, batch.id.hash, batch.l1_origin, timestamp)
    }

    /// A checkpoint with the same contents.
    pub fn duplicate(&self) -> (r: Checkpoint)
        ensures
            r.same_as(self),
    {
        Checkpoint {
            last_batch_id: self.last_batch_id,
            last_batch_hash: self.last_batch_hash,
            last_l1_block: self.last_l1_block,
            timestamp: self.timestamp,
            metadata: self.metadata.duplicate(),
        }
    }
}

impl Default for Checkpoint {
    fn default() -> (r: Checkpoint)
        ensures
            r.last_batch_id@ == 0,
            r.last_l1_block@ == 0,
            all_zero(r.last_batch_hash@),
            r.timestamp == 0,
            r.metadata@ == Map::<Seq<char>, Seq<char>>::empty(),
            !r.valid(),
    {
        Checkpoint::new(U256::zero(), FixedBytes::zero(), U256::zero(), 0)
    }
}

/// What a storage holds after a checkpoint was saved.
pub open spec fn after_save(before: Option<Checkpoint>, checkpoint: Checkpoint) -> Option<Checkpoint> {
    Some(checkpoint)
}

/// What a storage holds after its checkpoint was deleted.
pub open spec fn after_delete(before: Option<Checkpoint>) -> Option<Checkpoint> {
    None
}

/// A checkpoint that was saved is the one that is loaded, whatever was stored
/// before; after a delete nothing is loaded; and saving twice is as saving once.
pub proof fn lemma_checkpoint_round_trip(before: Option<Checkpoint>, checkpoint: Checkpoint)
    ensures
        after_save(before, checkpoint) == Some(checkpoint),
        after_delete(after_save(before, checkpoint)) is None,
        after_save(after_save(before, checkpoint), checkpoint) == after_save(before, checkpoint),
{
}

/// Where checkpoints are kept.
pub trait CheckpointStorage {
    /// The checkpoint that is stored, if any.
    spec fn stored(&self) -> Option<Checkpoint>;

    /// Stores `checkpoint` in place of what was stored.
    fn save_checkpoint(&mut self, checkpoint: Checkpoint) -> (r: Result<(), DatastreamError>)
        ensures
            r is Ok ==> final(self).stored() == after_save(old(self).stored(), checkpoint),
            r is Err ==> final(self).stored() == old(self).stored(),
    ;

    /// The checkpoint that is stored, if any.
    fn load_checkpoint(&self) -> (r: Result<Option<Checkpoint>, DatastreamError>)
        ensures
            r is Ok ==> match (r->Ok_0, self.stored()) {
                (Some(a), Some(b)) => a.same_as(&b),
                (None, None) => true,
                _ => false,
            },
    ;

    /// Removes what is stored.
    fn delete_checkpoint(&mut self) -> (r: Result<(), DatastreamError>)
        ensures
            r is Ok ==> final(self).stored() == after_delete(old(self).stored()),
            r is Err ==> final(self).stored() == old(self).stored(),
    ;
}

/// Keeps the checkpoint in memory.
#[derive(Debug)]
pub struct MemoryCheckpointStorage {
    checkpoint: Option<Checkpoint>,
}

impl MemoryCheckpointStorage {
    /// A storage that holds nothing.
    pub fn new() -> (r: MemoryCheckpointStorage)
        ensures
            r.stored() is None,
    {
        MemoryCheckpointStorage { checkpoint: None }
    }
}

impl Default for MemoryCheckpointStorage {
    fn default() -> (r: MemoryCheckpointStorage)
        ensures
            r.stored() is None,
    {
        MemoryCheckpointStorage::new()
    }
}

impl CheckpointStorage for MemoryCheckpointStorage {
    closed spec fn stored(&self) -> Option<Checkpoint> {
        self.checkpoint
    }

    /// Stores `checkpoint`; this never fails.
    fn save_checkpoint(&mut self, checkpoint: Checkpoint) -> (r: Result<(), DatastreamError>)
        ensures
            r is Ok,
    {
        self.checkpoint = Some(checkpoint);
        Ok(())
    }

    /// The checkpoint that is stored; this never fails.
    fn load_checkpoint(&self) -> (r: Result<Option<Checkpoint>, DatastreamError>)
        ensures
            r is Ok,
    {
        match &self.checkpoint {
            Some(c) => Ok(Some(c.duplicate())),
            None => Ok(None),
        }
    }

    /// Removes what is stored; this never fails.
    fn delete_checkpoint(&mut self) -> (r: Result<(), DatastreamError>)
        ensures
            r is Ok,
    {
        self.checkpoint = None;
        Ok(())
    }
}

} // verus!
