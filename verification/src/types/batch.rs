//! Batches: ordered groups of L2 blocks that were submitted to L1 together.

use vstd::prelude::*;
use crate::types::bytes::{Bytes, FixedBytes};
use crate::types::u256::U256;

verus! {

/// What identifies a batch: its sequence number and the digest of its contents.
#[derive(Debug, Clone, Copy, PartialEq, Eq)]
pub struct BatchId {
    /// Sequential batch number.
    pub number: U256,
    /// Digest of the batch contents.
    pub hash: FixedBytes<32>,
}

/// A block as it is carried inside a batch.
#[derive(Debug, Clone, Copy, PartialEq, Eq)]
pub struct BlockInBatch {
    /// Position of the block within its batch, counted from zero.
    pub batch_index: u32,
    /// Block hash.
    pub hash: FixedBytes<32>,
    /// Block number in the L2 chain.
    pub number: U256,
    /// Hash of the parent block.
    pub parent_hash: FixedBytes<32>,
    /// State root.
    pub state_root: FixedBytes<32>,
    /// Transaction root.
    pub tx_root: FixedBytes<32>,
    /// Receipt root.
    pub receipt_root: FixedBytes<32>,
    /// Block timestamp.
    pub timestamp: u64,
}

/// What a batch carries to let its availability be checked elsewhere.
#[derive(Debug, Clone, PartialEq, Eq)]
pub struct ProofMetadata {
    /// Data availability proof.
    pub data_proof: Bytes,
    /// Namespace of the data-availability layer.
    pub namespace_id: FixedBytes<8>,
    /// Commitment of the data-availability layer.
    pub commitment: FixedBytes<32>,
    /// Proof of inclusion.
    pub inclusion_proof: Bytes,
}

/// A batch of blocks submitted to L1.
#[derive(Debug, Clone, PartialEq, Eq)]
pub struct Batch {
    /// Number and digest of the batch.
    pub id: BatchId,
    /// L1 block number at which the batch was submitted.
    pub l1_origin: U256,
    /// L1 block hash at which the batch was submitted.
    pub l1_origin_hash: FixedBytes<32>,
    /// The blocks of the batch, in order.
    pub blocks: Vec<BlockInBatch>,
    /// Proof metadata.
    pub proof_meta: ProofMetadata,
    /// When the batch was created.
    pub timestamp: u64,
}

/// The position of the first block of `blocks` whose `batch_index` is `index`,
/// or the length of `blocks` where there is none.
pub open spec fn first_with_index(blocks: Seq<BlockInBatch>, index: u32) -> int
    decreases blocks.len(),
{
    if blocks.len() == 0 {
        0
    } else if blocks[0].batch_index == index {
        0
    } else {
        1 + first_with_index(blocks.drop_first(), index)
    }
}

/// `first_with_index` points at a block with the index asked for, and no
/// earlier block has it.
pub proof fn lemma_first_with_index(blocks: Seq<BlockInBatch>, index: u32)
    ensures
        0 <= first_with_index(blocks, index) <= blocks.len(),
        first_with_index(blocks, index) < blocks.len() ==> blocks[first_with_index(
            blocks,
            index,
        )].batch_index == index,
        forall|j: int|
            0 <= j < first_with_index(blocks, index) ==> (#[trigger] blocks[j]).batch_index
                != index,
    decreases blocks.len(),
{
    if blocks.len() == 0 {
    } else if blocks[0].batch_index == index {
    } else {
        let rest = blocks.drop_first();
        lemma_first_with_index(rest, index);
        assert forall|j: int| 0 <= j < first_with_index(blocks, index) implies (
        #[trigger] blocks[j]).batch_index != index by {
            if j > 0 {
                assert(blocks[j] == rest[j - 1]);
            }
        }
    }
}

impl BatchId {
    /// The identifier with the given number and digest.
    pub fn new(number: U256, hash: FixedBytes<32>) -> (r: BatchId)
        ensures
            r.number == number,
            r.hash == hash,
    {
        BatchId { number, hash }
    }
}

impl BlockInBatch {
    /// A block with the given fields.
    pub fn new(
        batch_index: u32,
        hash: FixedBytes<32>,
        number: U256,
        parent_hash: FixedBytes<32>,
        state_root: FixedBytes<32>,
        tx_root: FixedBytes<32>,
        receipt_root: FixedBytes<32>,
        timestamp: u64,
    ) -> (r: BlockInBatch)
        ensures
            r == (BlockInBatch {
                batch_index,
                hash,
                number,
                parent_hash,
                state_root,
                tx_root,
                receipt_root,
                timestamp,
            }),
    {
        BlockInBatch {
            batch_index,
            hash,
            number,
            parent_hash,
            state_root,
            tx_root,
            receipt_root,
            timestamp,
        }
    }
}

impl ProofMetadata {
    /// Proof metadata with the given fields.
    pub fn new(
        data_proof: Bytes,
        namespace_id: FixedBytes<8>,
        commitment: FixedBytes<32>,
        inclusion_proof: Bytes,
    ) -> (r: ProofMetadata)
        ensures
            r == (ProofMetadata { data_proof, namespace_id, commitment, inclusion_proof }),
    {
        ProofMetadata { data_proof, namespace_id, commitment, inclusion_proof }
    }

    /// Proof metadata with the same contents.
    pub fn duplicate(&self) -> (r: ProofMetadata)
        ensures
            r.data_proof@ == self.data_proof@,
            r.namespace_id == self.namespace_id,
            r.commitment == self.commitment,
            r.inclusion_proof@ == self.inclusion_proof@,
    {
        ProofMetadata {
            data_proof: self.data_proof.duplicate(),
            namespace_id: self.namespace_id,
            commitment: self.commitment,
            inclusion_proof: self.inclusion_proof.duplicate(),
        }
    }
}

impl Default for ProofMetadata {
    fn default() -> (r: ProofMetadata)
        ensures
            r.data_proof@.len() == 0,
            r.inclusion_proof@.len() == 0,
            r.namespace_id@.len() == 8,
            crate::types::bytes::all_zero(r.namespace_id@),
            r.commitment@.len() == 32,
            crate::types::bytes::all_zero(r.commitment@),
    {
        ProofMetadata {
            data_proof: Bytes::new(),
            namespace_id: FixedBytes::zero(),
            commitment: FixedBytes::zero(),
            inclusion_proof: Bytes::new(),
        }
    }
}

impl Batch {
    /// A batch with the given fields.
    pub fn new(
        id: BatchId,
        l1_origin: U256,
        l1_origin_hash: FixedBytes<32>,
        blocks: Vec<BlockInBatch>,
        proof_meta: ProofMetadata,
        timestamp: u64,
    ) -> (r: Batch)
        ensures
            r == (Batch { id, l1_origin, l1_origin_hash, blocks, proof_meta, timestamp }),
    {
        Batch { id, l1_origin, l1_origin_hash, blocks, proof_meta, timestamp }
    }

    /// The number of blocks in the batch.
    pub fn block_count(&self) -> (r: usize)
        ensures
            r == self.blocks@.len(),
    {
        self.blocks.len()
    }

    /// Whether the batch holds no block.
    pub fn is_empty(&self) -> (r: bool)
        ensures
            r == (self.blocks@.len() == 0),
    {
        self.blocks.len() == 0
    }

    /// The first block whose `batch_index` is the one asked for.
    pub fn get_block(&self, batch_index: u32) -> (r: Option<&BlockInBatch>)
        ensures
            first_with_index(self.blocks@, batch_index) < self.blocks@.len() ==> r == Some(
                &self.blocks@[first_with_index(self.blocks@, batch_index)],
            ),
            first_with_index(self.blocks@, batch_index) >= self.blocks@.len() ==> r is None,
    {
        proof {
            lemma_first_with_index(self.blocks@, batch_index);
        }
        let mut i: usize = 0;
        while i < self.blocks.len()
            invariant
                i <= self.blocks@.len(),
                i <= first_with_index(self.blocks@, batch_index) <= self.blocks@.len(),
                first_with_index(self.blocks@, batch_index) < self.blocks@.len()
                    ==> self.blocks@[first_with_index(self.blocks@, batch_index)].batch_index
                    == batch_index,
                forall|j: int|
                    0 <= j < first_with_index(self.blocks@, batch_index) ==> (
                    #[trigger] self.blocks@[j]).batch_index != batch_index,
            decreases self.blocks@.len() - i,
        {
            if self.blocks[i].batch_index == batch_index {
                return Some(&self.blocks[i]);
            }
            i = i + 1;
        }
        None
    }

    /// The hashes of the blocks, in the order of the blocks.
    pub fn block_hashes(&self) -> (r: Vec<FixedBytes<32>>)
        ensures
            r@ == self.blocks@.map_values(|b: BlockInBatch| b.hash),
    {
        let mut out: Vec<FixedBytes<32>> = Vec::new();
        let mut i: usize = 0;
        while i < self.blocks.len()
            invariant
                i <= self.blocks@.len(),
                out@ == self.blocks@.take(i as int).map_values(|b: BlockInBatch| b.hash),
            decreases self.blocks@.len() - i,
        {
            out.push(self.blocks[i].hash);
            proof {
                let f = |b: BlockInBatch| b.hash;
                assert(self.blocks@.take(i + 1) =~= self.blocks@.take(i as int).push(
                    self.blocks@[i as int],
                ));
                assert(self.blocks@.take(i + 1).map_values(f) =~= self.blocks@.take(
                    i as int,
                ).map_values(f).push(f(self.blocks@[i as int])));
            }
            i = i + 1;
        }
        assert(self.blocks@.take(self.blocks@.len() as int) =~= self.blocks@);
        out
    }

    /// A batch with the same contents.
    pub fn duplicate(&self) -> (r: Batch)
        ensures
            r.same_as(self),
    {
        Batch {
            id: self.id,
            l1_origin: self.l1_origin,
            l1_origin_hash: self.l1_origin_hash,
            blocks: self.blocks.clone(),
            proof_meta: self.proof_meta.duplicate(),
            timestamp: self.timestamp,
        }
    }

    /// Whether two batches hold the same values.
    pub open spec fn same_as(&self, other: &Batch) -> bool {
        &&& self.id == other.id
        &&& self.l1_origin == other.l1_origin
        &&& self.l1_origin_hash == other.l1_origin_hash
        &&& self.blocks@ == other.blocks@
        &&& self.proof_meta.data_proof@ == other.proof_meta.data_proof@
        &&& self.proof_meta.namespace_id == other.proof_meta.namespace_id
        &&& self.proof_meta.commitment == other.proof_meta.commitment
        &&& self.proof_meta.inclusion_proof@ == other.proof_meta.inclusion_proof@
        &&& self.timestamp == other.timestamp
    }
}

} // verus!
