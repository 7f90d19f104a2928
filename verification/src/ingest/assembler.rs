//! Block inputs and the index records that go with them.

use vstd::prelude::*;
use vstd::string::*;
use crate::ingest::error::IngestError;
use crate::types::batch::{Batch, BlockInBatch};
use crate::types::bytes::{Address, Bytes, FixedBytes};
use crate::types::u256::U256;

verus! {

/// One entry of a transaction's access list.
#[derive(Debug, Clone, PartialEq)]
pub struct AccessListItem {
    /// The account.
    pub address: Address,
    /// The storage keys of the account.
    pub storage_keys: Vec<FixedBytes<32>>,
}

/// A transaction as the engine takes it.
#[derive(Debug, Clone, PartialEq)]
pub struct TransactionInput {
    /// Transaction hash.
    pub hash: FixedBytes<32>,
    /// Transaction type.
    pub tx_type: u8,
    /// Gas limit.
    pub gas_limit: u64,
    /// Gas price, for transactions that name one.
    pub gas_price: Option<u64>,
    /// Largest fee per gas.
    pub max_fee_per_gas: Option<u64>,
    /// Largest priority fee per gas.
    pub max_priority_fee_per_gas: Option<u64>,
    /// Nonce of the sender.
    pub nonce: u64,
    /// Value transferred.
    pub value: U256,
    /// The receiver, none for a contract creation.
    pub to: Option<Address>,
    /// Call data.
    pub data: Bytes,
    /// Access list.
    pub access_list: Vec<AccessListItem>,
}

/// What the engine needs to import one block.
#[derive(Debug, Clone, PartialEq)]
pub struct BlockInputs {
    /// Block number.
    pub number: u64,
    /// Block hash.
    pub hash: FixedBytes<32>,
    /// Hash of the parent block.
    pub parent_hash: FixedBytes<32>,
    /// State root.
    pub state_root: FixedBytes<32>,
    /// Receipts root.
    pub receipts_root: FixedBytes<32>,
    /// Transactions root.
    pub transactions_root: FixedBytes<32>,
    /// Block timestamp.
    pub timestamp: u64,
    /// Gas limit.
    pub gas_limit: u64,
    /// Gas used.
    pub gas_used: u64,
    /// Base fee per gas.
    pub base_fee_per_gas: Option<u64>,
    /// Extra data.
    pub extra_data: Bytes,
    /// The transactions of the block.
    pub transactions: Vec<TransactionInput>,
}

/// Index record of a block: to which batch and epoch it belongs.
#[derive(Debug, Clone, Copy, PartialEq)]
pub struct BlockMapping {
    /// Block number; the key of the record.
    pub block_number: u64,
    /// Block hash.
    pub block_hash: FixedBytes<32>,
    /// The batch that holds the block.
    pub batch_id: u64,
    /// Position of the block within the batch.
    pub batch_index: u32,
    /// The epoch that holds the block.
    pub epoch_id: u64,
    /// When the record was made.
    pub timestamp: u64,
}

/// Index record of a batch: which blocks it spans.
#[derive(Debug, Clone, Copy, PartialEq)]
pub struct BatchMapping {
    /// Batch number; the key of the record.
    pub batch_id: u64,
    /// Batch digest.
    pub batch_hash: FixedBytes<32>,
    /// First block of the batch.
    pub start_block: u64,
    /// Last block of the batch.
    pub end_block: u64,
    /// Number of blocks of the batch.
    pub block_count: u32,
    /// The epoch that holds the batch.
    pub epoch_id: u64,
    /// When the record was made.
    pub timestamp: u64,
}

/// Index record of an epoch: which blocks it spans.
#[derive(Debug, Clone, Copy, PartialEq)]
pub struct EpochMapping {
    /// Epoch number; the key of the record.
    pub epoch_id: u64,
    /// Epoch digest.
    pub epoch_hash: FixedBytes<32>,
    /// First block of the epoch.
    pub start_block: u64,
    /// Last block of the epoch.
    pub end_block: u64,
    /// Number of blocks of the epoch.
    pub block_count: u32,
    /// Number of batches of the epoch.
    pub batch_count: u32,
    /// When the record was made.
    pub timestamp: u64,
}

/// Gas limit of an assembled block, unless configured otherwise.
pub const DEFAULT_GAS_LIMIT: u64 = 30000000;

/// Whether `inputs` is what a block of a batch is assembled to: the block's
/// own fields, the given gas limit, and defaults for what a batch does not
/// carry (no gas used, no base fee, no extra data, no transactions).
pub open spec fn assembled_from(inputs: BlockInputs, block: BlockInBatch, gas_limit: u64) -> bool {
    &&& inputs.number == block.number@
    &&& inputs.hash == block.hash
    &&& inputs.parent_hash == block.parent_hash
    &&& inputs.state_root == block.state_root
    &&& inputs.receipts_root == block.receipt_root
    &&& inputs.transactions_root == block.tx_root
    &&& inputs.timestamp == block.timestamp
    &&& inputs.gas_limit == gas_limit
    &&& inputs.gas_used == 0
    &&& inputs.base_fee_per_gas is None
    &&& inputs.extra_data@.len() == 0
    &&& inputs.transactions@.len() == 0
}

/// The index record of a block of a batch.
pub open spec fn block_mapping_of(
    block: BlockInBatch,
    batch_id: u64,
    epoch_id: u64,
    timestamp: u64,
) -> BlockMapping {
    BlockMapping {
        block_number: block.number@ as u64,
        block_hash: block.hash,
        batch_id,
        batch_index: block.batch_index,
        epoch_id,
        timestamp,
    }
}

/// The index records of the blocks of a batch, in the order of the blocks.
pub open spec fn block_mappings_of(
    blocks: Seq<BlockInBatch>,
    batch_id: u64,
    epoch_id: u64,
    timestamp: u64,
) -> Seq<BlockMapping> {
    Seq::new(blocks.len(), |i: int| block_mapping_of(blocks[i], batch_id, epoch_id, timestamp))
}

/// Whether every block number of the batch, and the batch number, fit in 64 bits.
pub open spec fn fits_index(batch: &Batch) -> bool {
    &&& batch.id.number@ <= u64::MAX
    &&& forall|i: int|
        0 <= i < batch.blocks@.len() ==> (#[trigger] batch.blocks@[i]).number@ <= u64::MAX
}

/// What the assembler makes of a batch.
#[derive(Debug, Clone, PartialEq)]
pub struct Assembled {
    /// The inputs of each block, in the order of the blocks.
    pub inputs: Vec<BlockInputs>,
    /// The index record of each block, in the order of the blocks.
    pub mappings: Vec<BlockMapping>,
}

/// Turns the blocks of a batch into block inputs and index records. It holds
/// no state and writes nowhere.
#[derive(Debug, Clone, Copy, PartialEq, Eq)]
pub struct BatchAssembler {
    /// Gas limit given to each block.
    pub gas_limit: u64,
}

impl Default for BatchAssembler {
    fn default() -> (r: BatchAssembler)
        ensures
            r.gas_limit == DEFAULT_GAS_LIMIT,
    {
        BatchAssembler { gas_limit: DEFAULT_GAS_LIMIT }
    }
}

impl BatchAssembler {
    /// An assembler that gives each block the gas limit named.
    pub fn new(gas_limit: u64) -> (r: BatchAssembler)
        ensures
            r.gas_limit == gas_limit,
    {
        BatchAssembler { gas_limit }
    }

    /// The inputs of one block: `BlockConversionError` exactly when the block
    /// number does not fit in 64 bits.
    pub fn assemble_block(&self, block: &BlockInBatch) -> (r: Result<BlockInputs, IngestError>)
        ensures
            block.number@ <= u64::MAX ==> r is Ok && assembled_from(
                r->Ok_0,
                *block,
                self.gas_limit,
            ),
            block.number@ > u64::MAX ==> (r matches Err(IngestError::BlockConversionError(text))
                && text@ == "Block number does not fit in 64 bits"@),
    {
        match block.number.to_u64() {
            Some(number) => Ok(
                BlockInputs {
                    number,
                    hash: block.hash,
                    parent_hash: block.parent_hash,
                    state_root: block.state_root,
                    receipts_root: block.receipt_root,
                    transactions_root: block.tx_root,
                    timestamp: block.timestamp,
                    gas_limit: self.gas_limit,
                    gas_used: 0,
                    base_fee_per_gas: None,
                    extra_data: Bytes::new(),
                    transactions: Vec::new(),
                },
            ),
            None => Err(
                IngestError::BlockConversionError(
                    String::from_str("Block number does not fit in 64 bits"),
                ),
            ),
        }
    }

    /// The inputs and index records of the blocks of a batch, for the epoch
    /// and the time named: `BlockConversionError` exactly when the batch
    /// number or a block number does not fit in 64 bits.
    pub fn assemble(&self, batch: &Batch, epoch_id: u64, timestamp: u64) -> (r: Result<
        Assembled,
        IngestError,
    >)
        ensures
            fits_index(batch) ==> {
                &&& r is Ok
                &&& r->Ok_0.inputs@.len() == batch.blocks@.len()
                &&& forall|i: int|
                    0 <= i < batch.blocks@.len() ==> assembled_from(
                        #[trigger] r->Ok_0.inputs@[i],
                        batch.blocks@[i],
                        self.gas_limit,
                    )
                &&& r->Ok_0.mappings@ == block_mappings_of(
                    batch.blocks@,
                    batch.id.number@ as u64,
                    epoch_id,
                    timestamp,
                )
            },
            !fits_index(batch) ==> (r matches Err(IngestError::BlockConversionError(text)) && text@
                == if batch.id.number@ > u64::MAX {
                "Batch number does not fit in 64 bits"@
            } else {
                "Block number does not fit in 64 bits"@
            }),
    {
        let batch_id: u64 = match batch.id.number.to_u64() {
            Some(n) => n,
            None => {
                return Err(
                    IngestError::BlockConversionError(
                        String::from_str("Batch number does not fit in 64 bits"),
                    ),
                );
            },
        };
        let mut inputs: Vec<BlockInputs> = Vec::new();
        let mut mappings: Vec<BlockMapping> = Vec::new();
        let mut i: usize = 0;
        while i < batch.blocks.len()
            invariant
                i <= batch.blocks@.len(),
                batch_id == batch.id.number@,
                inputs@.len() == i,
                mappings@.len() == i,
                forall|j: int| 0 <= j < i ==> (#[trigger] batch.blocks@[j]).number@ <= u64::MAX,
                forall|j: int|
                    0 <= j < i ==> assembled_from(
                        #[trigger] inputs@[j],
                        batch.blocks@[j],
                        self.gas_limit,
                    ),
                forall|j: int|
                    0 <= j < i ==> #[trigger] mappings@[j] == block_mapping_of(
                        batch.blocks@[j],
                        batch_id,
                        epoch_id,
                        timestamp,
                    ),
            decreases batch.blocks@.len() - i,
        {
            let block = &batch.blocks[i];
            match self.assemble_block(block) {
                Ok(one) => {
                    let number: u64 = one.number;
                    inputs.push(one);
                    mappings.push(
                        BlockMapping {
                            block_number: number,
                            block_hash: block.hash,
                            batch_id,
                            batch_index: block.batch_index,
                            epoch_id,
                            timestamp,
                        },
                    );
                },
                Err(e) => {
                    assert(batch.blocks@[i as int].number@ > u64::MAX);
                    return Err(e);
                },
            }
            i = i + 1;
        }
        assert(mappings@ =~= block_mappings_of(batch.blocks@, batch_id, epoch_id, timestamp));
        Ok(Assembled { inputs, mappings })
    }
}

} // verus!
