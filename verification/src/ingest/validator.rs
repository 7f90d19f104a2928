//! Structural and ordering checks on batches and on block inputs.

use vstd::prelude::*;
use vstd::string::*;
use crate::ingest::assembler::{BlockInputs, TransactionInput};
use crate::ingest::error::{IngestError, IngestResult};
use crate::text::{concat4, decimal, u256_to_decimal, u64_to_decimal};
use crate::types::batch::{Batch, BlockInBatch};
use crate::types::bytes::all_zero;
use crate::types::u256::U256;

verus! {

/// Bytes that the header of a batch is counted as.
pub const BATCH_HEADER_BYTES: u64 = 72;

/// Bytes that each block of a batch is counted as.
pub const BLOCK_BYTES: u64 = 176;

/// Largest number of blocks in a batch, unless configured otherwise.
pub const MAX_BLOCKS_PER_BATCH: u32 = 1000;

/// Largest estimated size of a batch in bytes, unless configured otherwise: 10 MiB.
pub const MAX_BATCH_BYTES: u64 = 10485760;

/// The rule that a block of a batch breaks.
#[derive(Debug, Clone, Copy, PartialEq, Eq)]
pub enum BlockFault {
    /// `batch_index` is not the block's position.
    IndexMismatch { expected: u32, got: u32 },
    /// The block number is zero.
    ZeroNumber,
    /// The block hash is zero.
    ZeroHash,
    /// The parent hash is zero though the block is not number one.
    MissingParentHash,
    /// The state root is zero.
    ZeroStateRoot,
    /// The receipt root is zero.
    ZeroReceiptRoot,
    /// The transaction root is zero.
    ZeroTxRoot,
    /// The timestamp is zero.
    ZeroTimestamp,
}

/// The rule that a batch breaks.
#[derive(Debug, Clone, Copy, PartialEq, Eq)]
#[allow(inconsistent_fields)]
pub enum BatchFault {
    /// The batch number is zero.
    ZeroBatchId,
    /// The L1 origin is zero.
    ZeroL1Origin,
    /// The batch holds more blocks than allowed.
    TooManyBlocks { count: u64, max: u32 },
    /// The estimated size is over the limit. `size` stops at `u64::MAX`.
    TooLarge { size: u64, max: u64 },
    /// The block at `position` breaks a rule.
    Block { position: u64, fault: BlockFault },
    /// A block's number is not above that of the block before it.
    NumbersOutOfOrder { number: U256, previous: U256 },
    /// A block's timestamp lies before that of the block before it.
    TimestampsOutOfOrder { timestamp: u64, previous: u64 },
}

/// The rule that a transaction breaks.
#[derive(Debug, Clone, Copy, PartialEq, Eq)]
pub enum TransactionFault {
    /// The transaction hash is zero.
    ZeroHash,
    /// The gas limit is zero.
    ZeroGasLimit,
    /// Value is transferred with nonce zero.
    ValueWithoutNonce,
}

/// The rule that block inputs break.
#[derive(Debug, Clone, Copy, PartialEq, Eq)]
pub enum BlockInputsFault {
    /// The block number is zero.
    ZeroNumber,
    /// The block hash is zero.
    ZeroHash,
    /// The parent hash is zero though the block is not number one.
    MissingParentHash,
    /// The state root is zero.
    ZeroStateRoot,
    /// The receipts root is zero.
    ZeroReceiptsRoot,
    /// The transactions root is zero.
    ZeroTransactionsRoot,
    /// The gas limit is zero.
    ZeroGasLimit,
    /// More gas is used than the limit allows.
    GasOverLimit { used: u64, limit: u64 },
    /// The timestamp is zero.
    ZeroTimestamp,
    /// A transaction breaks a rule.
    Transaction(TransactionFault),
}

impl BlockFault {
    /// The text that reports the fault.
    pub open spec fn message_spec(&self) -> Seq<char> {
        match *self {
            BlockFault::IndexMismatch { expected, got } => "Block batch index mismatch: expected "@
                + decimal(expected as nat) + ", got "@ + decimal(got as nat),
            BlockFault::ZeroNumber => "Block number cannot be zero"@,
            BlockFault::ZeroHash => "Block hash cannot be zero"@,
            BlockFault::MissingParentHash => "Non-genesis block must have non-zero parent hash"@,
            BlockFault::ZeroStateRoot => "State root cannot be zero"@,
            BlockFault::ZeroReceiptRoot => "Receipts root cannot be zero"@,
            BlockFault::ZeroTxRoot => "Transactions root cannot be zero"@,
            BlockFault::ZeroTimestamp => "Block timestamp cannot be zero"@,
        }
    }

    /// The text that reports the fault.
    pub fn message(&self) -> (r: String)
        ensures
            r@ == self.message_spec(),
    {
        match *self {
            BlockFault::IndexMismatch { expected, got } => {
                let e = u64_to_decimal(expected as u64);
                let g = u64_to_decimal(got as u64);
                concat4("Block batch index mismatch: expected ", e.as_str(), ", got ", g.as_str())
            },
            BlockFault::ZeroNumber => String::from_str("Block number cannot be zero"),
            BlockFault::ZeroHash => String::from_str("Block hash cannot be zero"),
            BlockFault::MissingParentHash => String::from_str(
                "Non-genesis block must have non-zero parent hash",
            ),
            BlockFault::ZeroStateRoot => String::from_str("State root cannot be zero"),
            BlockFault::ZeroReceiptRoot => String::from_str("Receipts root cannot be zero"),
            BlockFault::ZeroTxRoot => String::from_str("Transactions root cannot be zero"),
            BlockFault::ZeroTimestamp => String::from_str("Block timestamp cannot be zero"),
        }
    }
}

impl BatchFault {
    /// The text that reports the fault.
    pub open spec fn message_spec(&self) -> Seq<char> {
        match *self {
            BatchFault::ZeroBatchId => "Batch ID cannot be zero"@,
            BatchFault::ZeroL1Origin => "L1 origin cannot be zero"@,
            BatchFault::TooManyBlocks { count, max } => "Too many blocks in batch: "@ + decimal(
                count as nat,
            ) + " > "@ + decimal(max as nat),
            BatchFault::TooLarge { size, max } => "Batch too large: "@ + decimal(size as nat)
                + " bytes > "@ + decimal(max as nat) + " bytes"@,
            BatchFault::Block { position, fault } => fault.message_spec(),
            BatchFault::NumbersOutOfOrder { number, previous } => "Block numbers not in order: "@
                + decimal(number@) + " <= "@ + decimal(previous@),
            BatchFault::TimestampsOutOfOrder { timestamp, previous } =>
                "Block timestamps not in order: "@ + decimal(timestamp as nat) + " < "@ + decimal(
                    previous as nat,
                ),
        }
    }

    /// The text that reports the fault.
    pub fn message(&self) -> (r: String)
        ensures
            r@ == self.message_spec(),
    {
        match *self {
            BatchFault::ZeroBatchId => String::from_str("Batch ID cannot be zero"),
            BatchFault::ZeroL1Origin => String::from_str("L1 origin cannot be zero"),
            BatchFault::TooManyBlocks { count, max } => {
                let c = u64_to_decimal(count);
                let m = u64_to_decimal(max as u64);
                concat4("Too many blocks in batch: ", c.as_str(), " > ", m.as_str())
            },
            BatchFault::TooLarge { size, max } => {
                let s = u64_to_decimal(size);
                let m = u64_to_decimal(max);
                let mut out = concat4("Batch too large: ", s.as_str(), " bytes > ", m.as_str());
                out.append(" bytes");
                out
            },
            BatchFault::Block { position, fault } => fault.message(),
            BatchFault::NumbersOutOfOrder { number, previous } => {
                let n = u256_to_decimal(number);
                let p = u256_to_decimal(previous);
                concat4("Block numbers not in order: ", n.as_str(), " <= ", p.as_str())
            },
            BatchFault::TimestampsOutOfOrder { timestamp, previous } => {
                let t = u64_to_decimal(timestamp);
                let p = u64_to_decimal(previous);
                concat4("Block timestamps not in order: ", t.as_str(), " < ", p.as_str())
            },
        }
    }
}

impl TransactionFault {
    /// The text that reports the fault.
    pub open spec fn message_spec(&self) -> Seq<char> {
        match *self {
            TransactionFault::ZeroHash => "Transaction hash cannot be zero"@,
            TransactionFault::ZeroGasLimit => "Transaction gas limit cannot be zero"@,
            TransactionFault::ValueWithoutNonce =>
                "Non-zero value transaction must have non-zero nonce"@,
        }
    }

    /// The text that reports the fault.
    pub fn message(&self) -> (r: String)
        ensures
            r@ == self.message_spec(),
    {
        match *self {
            TransactionFault::ZeroHash => String::from_str("Transaction hash cannot be zero"),
            TransactionFault::ZeroGasLimit => String::from_str(
                "Transaction gas limit cannot be zero",
            ),
            TransactionFault::ValueWithoutNonce => String::from_str(
                "Non-zero value transaction must have non-zero nonce",
            ),
        }
    }
}

impl BlockInputsFault {
    /// The text that reports the fault.
    pub open spec fn message_spec(&self) -> Seq<char> {
        match *self {
            BlockInputsFault::ZeroNumber => "Block number cannot be zero"@,
            BlockInputsFault::ZeroHash => "Block hash cannot be zero"@,
            BlockInputsFault::MissingParentHash =>
                "Non-genesis block must have non-zero parent hash"@,
            BlockInputsFault::ZeroStateRoot => "State root cannot be zero"@,
            BlockInputsFault::ZeroReceiptsRoot => "Receipts root cannot be zero"@,
            BlockInputsFault::ZeroTransactionsRoot => "Transactions root cannot be zero"@,
            BlockInputsFault::ZeroGasLimit => "Gas limit cannot be zero"@,
            BlockInputsFault::GasOverLimit { used, limit } => "Gas used "@ + decimal(used as nat)
                + " exceeds gas limit "@ + decimal(limit as nat),
            BlockInputsFault::ZeroTimestamp => "Block timestamp cannot be zero"@,
            BlockInputsFault::Transaction(fault) => fault.message_spec(),
        }
    }

    /// The text that reports the fault.
    pub fn message(&self) -> (r: String)
        ensures
            r@ == self.message_spec(),
    {
        match *self {
            BlockInputsFault::ZeroNumber => String::from_str("Block number cannot be zero"),
            BlockInputsFault::ZeroHash => String::from_str("Block hash cannot be zero"),
            BlockInputsFault::MissingParentHash => String::from_str(
                "Non-genesis block must have non-zero parent hash",
            ),
            BlockInputsFault::ZeroStateRoot => String::from_str("State root cannot be zero"),
            BlockInputsFault::ZeroReceiptsRoot => String::from_str("Receipts root cannot be zero"),
            BlockInputsFault::ZeroTransactionsRoot => String::from_str(
                "Transactions root cannot be zero",
            ),
            BlockInputsFault::ZeroGasLimit => String::from_str("Gas limit cannot be zero"),
            BlockInputsFault::GasOverLimit { used, limit } => {
                let u = u64_to_decimal(used);
                let l = u64_to_decimal(limit);
                concat4("Gas used ", u.as_str(), " exceeds gas limit ", l.as_str())
            },
            BlockInputsFault::ZeroTimestamp => String::from_str("Block timestamp cannot be zero"),
            BlockInputsFault::Transaction(fault) => fault.message(),
        }
    }
}

/// The rule that `block` breaks where it stands at position `expected` of its
/// batch; the rules are tried in a fixed order and the first broken one is named.
pub open spec fn block_fault(block: BlockInBatch, expected: u32) -> Option<BlockFault> {
    if block.batch_index != expected {
        Some(BlockFault::IndexMismatch { expected, got: block.batch_index })
    } else if block.number@ == 0 {
        Some(BlockFault::ZeroNumber)
    } else if all_zero(block.hash@) {
        Some(BlockFault::ZeroHash)
    } else if all_zero(block.parent_hash@) && block.number@ != 1 {
        Some(BlockFault::MissingParentHash)
    } else if all_zero(block.state_root@) {
        Some(BlockFault::ZeroStateRoot)
    } else if all_zero(block.receipt_root@) {
        Some(BlockFault::ZeroReceiptRoot)
    } else if all_zero(block.tx_root@) {
        Some(BlockFault::ZeroTxRoot)
    } else if block.timestamp == 0 {
        Some(BlockFault::ZeroTimestamp)
    } else {
        None
    }
}

/// Whether `block` keeps every rule of a block at position `expected`.
pub open spec fn block_ok(block: BlockInBatch, expected: u32) -> bool {
    &&& block.batch_index == expected
    &&& block.number@ != 0
    &&& !all_zero(block.hash@)
    &&& (all_zero(block.parent_hash@) ==> block.number@ == 1)
    &&& !all_zero(block.state_root@)
    &&& !all_zero(block.tx_root@)
    &&& !all_zero(block.receipt_root@)
    &&& block.timestamp != 0
}

/// The fault of the first block at or after position `from` that breaks a rule.
pub open spec fn first_block_fault(blocks: Seq<BlockInBatch>, from: int) -> Option<BatchFault>
    decreases blocks.len() - from,
{
    if from < 0 || from >= blocks.len() {
        None
    } else {
        match block_fault(blocks[from], from as u32) {
            Some(fault) => Some(BatchFault::Block { position: from as u64, fault }),
            None => first_block_fault(blocks, from + 1),
        }
    }
}

/// The fault in how the block at position `at` follows the one before it.
pub open spec fn ordering_fault_at(blocks: Seq<BlockInBatch>, at: int, strict: bool) -> Option<
    BatchFault,
> {
    if blocks[at].number@ <= blocks[at - 1].number@ {
        Some(
            BatchFault::NumbersOutOfOrder {
                number: blocks[at].number,
                previous: blocks[at - 1].number,
            },
        )
    } else if strict && blocks[at].timestamp < blocks[at - 1].timestamp {
        Some(
            BatchFault::TimestampsOutOfOrder {
                timestamp: blocks[at].timestamp,
                previous: blocks[at - 1].timestamp,
            },
        )
    } else {
        None
    }
}

/// The first fault of order among the blocks at or after position `from`.
pub open spec fn first_ordering_fault(blocks: Seq<BlockInBatch>, from: int, strict: bool) -> Option<
    BatchFault,
>
    decreases blocks.len() - from,
{
    if from < 1 || from >= blocks.len() {
        None
    } else {
        match ordering_fault_at(blocks, from, strict) {
            Some(fault) => Some(fault),
            None => first_ordering_fault(blocks, from + 1, strict),
        }
    }
}

/// The estimated size of a batch in bytes: the header, the data proof, and a
/// fixed amount for each block.
pub open spec fn estimated_size(batch: &Batch) -> nat {
    (BATCH_HEADER_BYTES as nat) + batch.proof_meta.data_proof@.len() + (BLOCK_BYTES as nat)
        * batch.blocks@.len()
}

/// No block at or after `from` breaks a rule exactly when each of them is in order.
pub proof fn lemma_block_faults(blocks: Seq<BlockInBatch>, from: int)
    requires
        0 <= from,
    ensures
        first_block_fault(blocks, from) is None <==> forall|i: int|
            from <= i < blocks.len() ==> block_ok(#[trigger] blocks[i], i as u32),
    decreases blocks.len() - from,
{
    if from < blocks.len() {
        lemma_block_faults(blocks, from + 1);
        if first_block_fault(blocks, from) is None {
            assert forall|i: int| from <= i < blocks.len() implies block_ok(
                #[trigger] blocks[i],
                i as u32,
            ) by {
                if i == from {
                } else {
                }
            }
        } else {
            if block_fault(blocks[from], from as u32) is Some {
                assert(!block_ok(blocks[from], from as u32));
            }
        }
    }
}

/// No fault of order at or after `from` exactly when numbers rise strictly and,
/// in strict mode, timestamps do not fall.
pub proof fn lemma_ordering_faults(blocks: Seq<BlockInBatch>, from: int, strict: bool)
    requires
        1 <= from,
    ensures
        first_ordering_fault(blocks, from, strict) is None <==> forall|i: int|
            from <= i < blocks.len() ==> {
                &&& (#[trigger] blocks[i]).number@ > blocks[i - 1].number@
                &&& (strict ==> blocks[i].timestamp >= blocks[i - 1].timestamp)
            },
    decreases blocks.len() - from,
{
    if from < blocks.len() {
        lemma_ordering_faults(blocks, from + 1, strict);
        if first_ordering_fault(blocks, from, strict) is None {
            assert forall|i: int| from <= i < blocks.len() implies {
                &&& (#[trigger] blocks[i]).number@ > blocks[i - 1].number@
                &&& (strict ==> blocks[i].timestamp >= blocks[i - 1].timestamp)
            } by {
                if i == from {
                } else {
                }
            }
        } else {
            if ordering_fault_at(blocks, from, strict) is Some {
                assert(!(blocks[from].number@ > blocks[from - 1].number@ && (strict
                    ==> blocks[from].timestamp >= blocks[from - 1].timestamp)));
            }
        }
    }
}

/// The rule that a transaction breaks.
pub open spec fn transaction_fault(tx: TransactionInput) -> Option<TransactionFault> {
    if all_zero(tx.hash@) {
        Some(TransactionFault::ZeroHash)
    } else if tx.gas_limit == 0 {
        Some(TransactionFault::ZeroGasLimit)
    } else if tx.nonce == 0 && tx.value@ > 0 {
        Some(TransactionFault::ValueWithoutNonce)
    } else {
        None
    }
}

/// Whether a transaction keeps every rule.
pub open spec fn transaction_ok(tx: TransactionInput) -> bool {
    &&& !all_zero(tx.hash@)
    &&& tx.gas_limit != 0
    &&& (tx.value@ > 0 ==> tx.nonce != 0)
}

/// The fault of the first transaction at or after position `from` that breaks a rule.
pub open spec fn first_transaction_fault(txs: Seq<TransactionInput>, from: int) -> Option<
    TransactionFault,
>
    decreases txs.len() - from,
{
    if from < 0 || from >= txs.len() {
        None
    } else {
        match transaction_fault(txs[from]) {
            Some(fault) => Some(fault),
            None => first_transaction_fault(txs, from + 1),
        }
    }
}

/// No transaction at or after `from` breaks a rule exactly when each is in order.
pub proof fn lemma_transaction_faults(txs: Seq<TransactionInput>, from: int)
    requires
        0 <= from,
    ensures
        first_transaction_fault(txs, from) is None <==> forall|i: int|
            from <= i < txs.len() ==> transaction_ok(#[trigger] txs[i]),
    decreases txs.len() - from,
{
    if from < txs.len() {
        lemma_transaction_faults(txs, from + 1);
        if first_transaction_fault(txs, from) is None {
            assert forall|i: int| from <= i < txs.len() implies transaction_ok(
                #[trigger] txs[i],
            ) by {
                if i == from {
                } else {
                }
            }
        } else {
            if transaction_fault(txs[from]) is Some {
                assert(!transaction_ok(txs[from]));
            }
        }
    }
}

/// The first rule that block inputs break, in the order in which the rules are
/// tried: number, hash, parent hash, the three roots, gas, timestamp, then each
/// transaction.
pub open spec fn block_inputs_fault(block: &BlockInputs) -> Option<BlockInputsFault> {
    if block.number == 0 {
        Some(BlockInputsFault::ZeroNumber)
    } else if all_zero(block.hash@) {
        Some(BlockInputsFault::ZeroHash)
    } else if all_zero(block.parent_hash@) && block.number != 1 {
        Some(BlockInputsFault::MissingParentHash)
    } else if all_zero(block.state_root@) {
        Some(BlockInputsFault::ZeroStateRoot)
    } else if all_zero(block.receipts_root@) {
        Some(BlockInputsFault::ZeroReceiptsRoot)
    } else if all_zero(block.transactions_root@) {
        Some(BlockInputsFault::ZeroTransactionsRoot)
    } else if block.gas_limit == 0 {
        Some(BlockInputsFault::ZeroGasLimit)
    } else if block.gas_used > block.gas_limit {
        Some(BlockInputsFault::GasOverLimit { used: block.gas_used, limit: block.gas_limit })
    } else if block.timestamp == 0 {
        Some(BlockInputsFault::ZeroTimestamp)
    } else {
        match first_transaction_fault(block.transactions@, 0) {
            Some(fault) => Some(BlockInputsFault::Transaction(fault)),
            None => None,
        }
    }
}

/// Whether block inputs keep every rule.
pub open spec fn block_inputs_ok(block: &BlockInputs) -> bool {
    &&& block.number != 0
    &&& !all_zero(block.hash@)
    &&& (all_zero(block.parent_hash@) ==> block.number == 1)
    &&& !all_zero(block.state_root@)
    &&& !all_zero(block.receipts_root@)
    &&& !all_zero(block.transactions_root@)
    &&& block.gas_limit != 0
    &&& block.gas_used <= block.gas_limit
    &&& block.timestamp != 0
    &&& forall|i: int|
        0 <= i < block.transactions@.len() ==> transaction_ok(#[trigger] block.transactions@[i])
}

/// Checks batches and block inputs against the rules of the pipeline.
#[derive(Debug)]
pub struct BatchValidator {
    /// Largest number of blocks in a batch.
    pub max_blocks_per_batch: u32,
    /// Largest estimated size of a batch in bytes.
    pub max_batch_size_bytes: u64,
    /// Whether falling timestamps are a fault.
    pub strict_mode: bool,
}

impl Default for BatchValidator {
    fn default() -> (r: BatchValidator)
        ensures
            r.max_blocks_per_batch == MAX_BLOCKS_PER_BATCH,
            r.max_batch_size_bytes == MAX_BATCH_BYTES,
            r.strict_mode,
    {
        BatchValidator {
            max_blocks_per_batch: MAX_BLOCKS_PER_BATCH,
            max_batch_size_bytes: MAX_BATCH_BYTES,
            strict_mode: true,
        }
    }
}

impl BatchValidator {
    /// A validator with the given limits.
    pub fn new(max_blocks_per_batch: u32, max_batch_size_bytes: u64, strict_mode: bool) -> (r:
        BatchValidator)
        ensures
            r.max_blocks_per_batch == max_blocks_per_batch,
            r.max_batch_size_bytes == max_batch_size_bytes,
            r.strict_mode == strict_mode,
    {
        BatchValidator { max_blocks_per_batch, max_batch_size_bytes, strict_mode }
    }

    /// The first rule that `batch` breaks, in the order in which the rules are
    /// tried: the batch number, the L1 origin, the number of blocks, the
    /// estimated size, each block by itself, then the order of the blocks.
    pub open spec fn first_fault(&self, batch: &Batch) -> Option<BatchFault> {
        if batch.id.number@ == 0 {
            Some(BatchFault::ZeroBatchId)
        } else if batch.l1_origin@ == 0 {
            Some(BatchFault::ZeroL1Origin)
        } else if batch.blocks@.len() > self.max_blocks_per_batch {
            Some(
                BatchFault::TooManyBlocks {
                    count: batch.blocks@.len() as u64,
                    max: self.max_blocks_per_batch,
                },
            )
        } else if estimated_size(batch) > self.max_batch_size_bytes {
            Some(
                BatchFault::TooLarge {
                    size: if estimated_size(batch) > u64::MAX {
                        u64::MAX
                    } else {
                        estimated_size(batch) as u64
                    },
                    max: self.max_batch_size_bytes,
                },
            )
        } else {
            match first_block_fault(batch.blocks@, 0) {
                Some(fault) => Some(fault),
                None => first_ordering_fault(batch.blocks@, 1, self.strict_mode),
            }
        }
    }

    /// Whether `batch` keeps every rule.
    pub open spec fn accepts(&self, batch: &Batch) -> bool {
        &&& batch.id.number@ != 0
        &&& batch.l1_origin@ != 0
        &&& batch.blocks@.len() <= self.max_blocks_per_batch
        &&& estimated_size(batch) <= self.max_batch_size_bytes
        &&& forall|i: int|
            0 <= i < batch.blocks@.len() ==> block_ok(#[trigger] batch.blocks@[i], i as u32)
        &&& forall|i: int|
            1 <= i < batch.blocks@.len() ==> (#[trigger] batch.blocks@[i]).number@
                > batch.blocks@[i - 1].number@
        &&& self.strict_mode ==> forall|i: int|
            1 <= i < batch.blocks@.len() ==> (#[trigger] batch.blocks@[i]).timestamp
                >= batch.blocks@[i - 1].timestamp
    }

    /// A batch keeps every rule exactly when no rule is found broken.
    pub proof fn lemma_accepts_iff_no_fault(&self, batch: &Batch)
        ensures
            self.accepts(batch) <==> self.first_fault(batch) is None,
    {
        lemma_block_faults(batch.blocks@, 0);
        lemma_ordering_faults(batch.blocks@, 1, self.strict_mode);
    }

    /// The estimated size of `batch` in bytes.
    fn estimate_wide(batch: &Batch) -> (r: u128)
        ensures
            r == estimated_size(batch),
    {
        let proof_len: u128 = batch.proof_meta.data_proof.len() as u128;
        let count: u128 = batch.blocks.len() as u128;
        assert(proof_len <= u64::MAX && count <= u64::MAX);
        let per_block: u128 = 176;
        let header: u128 = 72;
        header + proof_len + per_block * count
    }

    /// The estimated size of `batch` in bytes, `u64::MAX` where it is larger.
    pub fn estimate_batch_size(&self, batch: &Batch) -> (r: u64)
        ensures
            estimated_size(batch) <= u64::MAX ==> r == estimated_size(batch),
            estimated_size(batch) > u64::MAX ==> r == u64::MAX,
    {
        let wide: u128 = Self::estimate_wide(batch);
        if wide > u64::MAX as u128 {
            u64::MAX
        } else {
            wide as u64
        }
    }

    /// Checks one block of a batch, which stands at position `expected_index`.
    pub fn check_block_in_batch(block: &BlockInBatch, expected_index: u32) -> (r: Option<
        BlockFault,
    >)
        ensures
            r == block_fault(*block, expected_index),
    {
        if block.batch_index != expected_index {
            return Some(BlockFault::IndexMismatch { expected: expected_index, got: block.batch_index });
        }
        if block.number.is_zero() {
            return Some(BlockFault::ZeroNumber);
        }
        if block.hash.is_zero() {
            return Some(BlockFault::ZeroHash);
        }
        let one = U256::one();
        if block.parent_hash.is_zero() && !block.number.equals(&one) {
            return Some(BlockFault::MissingParentHash);
        }
        if block.state_root.is_zero() {
            return Some(BlockFault::ZeroStateRoot);
        }
        if block.receipt_root.is_zero() {
            return Some(BlockFault::ZeroReceiptRoot);
        }
        if block.tx_root.is_zero() {
            return Some(BlockFault::ZeroTxRoot);
        }
        if block.timestamp == 0 {
            return Some(BlockFault::ZeroTimestamp);
        }
        None
    }

    /// Checks one block of a batch, which stands at position `expected_index`:
    /// `Ok` exactly when the block keeps every rule, else the first rule broken.
    pub fn validate_block_in_batch(&self, block: &BlockInBatch, expected_index: u32) -> (r:
        IngestResult<()>)
        ensures
            r is Ok <==> block_ok(*block, expected_index),
            match block_fault(*block, expected_index) {
                None => r is Ok,
                Some(fault) => r matches Err(IngestError::InvalidBatchData(text)) && text@
                    == fault.message_spec(),
            },
    {
        match Self::check_block_in_batch(block, expected_index) {
            None => Ok(()),
            Some(fault) => Err(IngestError::InvalidBatchData(fault.message())),
        }
    }

    /// The first fault of order among `blocks`: numbers must rise strictly, and
    /// with `strict` set timestamps must not fall.
    pub fn check_block_ordering(blocks: &Vec<BlockInBatch>, strict: bool) -> (r: Option<BatchFault>)
        ensures
            r == first_ordering_fault(blocks@, 1, strict),
    {
        if blocks.len() == 0 {
            return None;
        }
        let mut i: usize = 1;
        while i < blocks.len()
            invariant
                1 <= i <= blocks@.len(),
                first_ordering_fault(blocks@, 1, strict) == first_ordering_fault(
                    blocks@,
                    i as int,
                    strict,
                ),
            decreases blocks@.len() - i,
        {
            let block = &blocks[i];
            let prev = &blocks[i - 1];
            if block.number.le(&prev.number) {
                return Some(
                    BatchFault::NumbersOutOfOrder { number: block.number, previous: prev.number },
                );
            }
            if strict && block.timestamp < prev.timestamp {
                return Some(
                    BatchFault::TimestampsOutOfOrder {
                        timestamp: block.timestamp,
                        previous: prev.timestamp,
                    },
                );
            }
            i = i + 1;
        }
        None
    }

    /// Checks the order of the blocks of a batch: `Ok` exactly when numbers rise
    /// strictly and, in strict mode, timestamps do not fall.
    pub fn validate_block_ordering(&self, blocks: &Vec<BlockInBatch>) -> (r: IngestResult<()>)
        ensures
            match first_ordering_fault(blocks@, 1, self.strict_mode) {
                None => r is Ok,
                Some(fault) => r matches Err(IngestError::InvalidBatchData(text)) && text@
                    == fault.message_spec(),
            },
    {
        match Self::check_block_ordering(blocks, self.strict_mode) {
            None => Ok(()),
            Some(fault) => Err(IngestError::InvalidBatchData(fault.message())),
        }
    }

    /// The first rule that `batch` breaks, if any.
    #[verifier::loop_isolation(false)]
    pub fn check_batch(&self, batch: &Batch) -> (r: Option<BatchFault>)
        ensures
            r == self.first_fault(batch),
            r is None <==> self.accepts(batch),
    {
        proof {
            self.lemma_accepts_iff_no_fault(batch);
        }
        if batch.id.number.is_zero() {
            return Some(BatchFault::ZeroBatchId);
        }
        if batch.l1_origin.is_zero() {
            return Some(BatchFault::ZeroL1Origin);
        }
        if batch.blocks.len() > self.max_blocks_per_batch as usize {
            return Some(
                BatchFault::TooManyBlocks {
                    count: batch.blocks.len() as u64,
                    max: self.max_blocks_per_batch,
                },
            );
        }
        if Self::estimate_wide(batch) > self.max_batch_size_bytes as u128 {
            let size: u64 = self.estimate_batch_size(batch);
            return Some(BatchFault::TooLarge { size, max: self.max_batch_size_bytes });
        }
        let mut i: usize = 0;
        while i < batch.blocks.len()
            invariant
                i <= batch.blocks@.len(),
                batch.blocks@.len() <= u32::MAX,
                first_block_fault(batch.blocks@, 0) == first_block_fault(batch.blocks@, i as int),
            decreases batch.blocks@.len() - i,
        {
            match Self::check_block_in_batch(&batch.blocks[i], i as u32) {
                Some(fault) => {
                    return Some(BatchFault::Block { position: i as u64, fault });
                },
                None => {},
            }
            i = i + 1;
        }
        assert(first_block_fault(batch.blocks@, batch.blocks@.len() as int) is None);
        Self::check_block_ordering(&batch.blocks, self.strict_mode)
    }

    /// Validates a batch: `Ok` exactly when it keeps every rule; else
    /// `InvalidBatchData` with the text of the first rule broken.
    pub fn validate_batch(&self, batch: &Batch) -> (r: IngestResult<()>)
        ensures
            r is Ok <==> self.accepts(batch),
            match self.first_fault(batch) {
                None => r is Ok,
                Some(fault) => r matches Err(IngestError::InvalidBatchData(text)) && text@
                    == fault.message_spec(),
            },
    {
        match self.check_batch(batch) {
            None => Ok(()),
            Some(fault) => Err(IngestError::InvalidBatchData(fault.message())),
        }
    }
    /// The rule that a transaction breaks, if any.
    pub fn check_transaction_input(tx: &TransactionInput) -> (r: Option<TransactionFault>)
        ensures
            r == transaction_fault(*tx),
    {
        if tx.hash.is_zero() {
            return Some(TransactionFault::ZeroHash);
        }
        if tx.gas_limit == 0 {
            return Some(TransactionFault::ZeroGasLimit);
        }
        if tx.nonce == 0 && !tx.value.is_zero() {
            return Some(TransactionFault::ValueWithoutNonce);
        }
        None
    }

    /// Validates a transaction: `Ok` exactly when it keeps every rule; else
    /// `InvalidBlockData` with the text of the first rule broken.
    pub fn validate_transaction_input(&self, tx: &TransactionInput) -> (r: IngestResult<()>)
        ensures
            r is Ok <==> transaction_ok(*tx),
            match transaction_fault(*tx) {
                None => r is Ok,
                Some(fault) => r matches Err(IngestError::InvalidBlockData(text)) && text@
                    == fault.message_spec(),
            },
    {
        match Self::check_transaction_input(tx) {
            None => Ok(()),
            Some(fault) => Err(IngestError::InvalidBlockData(fault.message())),
        }
    }

    /// The first rule that block inputs break, if any.
    #[verifier::loop_isolation(false)]
    pub fn check_block_inputs(block: &BlockInputs) -> (r: Option<BlockInputsFault>)
        ensures
            r == block_inputs_fault(block),
            r is None <==> block_inputs_ok(block),
    {
        proof {
            lemma_transaction_faults(block.transactions@, 0);
        }
        if block.number == 0 {
            return Some(BlockInputsFault::ZeroNumber);
        }
        if block.hash.is_zero() {
            return Some(BlockInputsFault::ZeroHash);
        }
        if block.parent_hash.is_zero() && block.number != 1 {
            return Some(BlockInputsFault::MissingParentHash);
        }
        if block.state_root.is_zero() {
            return Some(BlockInputsFault::ZeroStateRoot);
        }
        if block.receipts_root.is_zero() {
            return Some(BlockInputsFault::ZeroReceiptsRoot);
        }
        if block.transactions_root.is_zero() {
            return Some(BlockInputsFault::ZeroTransactionsRoot);
        }
        if block.gas_limit == 0 {
            return Some(BlockInputsFault::ZeroGasLimit);
        }
        if block.gas_used > block.gas_limit {
            return Some(
                BlockInputsFault::GasOverLimit { used: block.gas_used, limit: block.gas_limit },
            );
        }
        if block.timestamp == 0 {
            return Some(BlockInputsFault::ZeroTimestamp);
        }
        let mut i: usize = 0;
        while i < block.transactions.len()
            invariant
                i <= block.transactions@.len(),
                first_transaction_fault(block.transactions@, 0) == first_transaction_fault(
                    block.transactions@,
                    i as int,
                ),
            decreases block.transactions@.len() - i,
        {
            match Self::check_transaction_input(&block.transactions[i]) {
                Some(fault) => {
                    return Some(BlockInputsFault::Transaction(fault));
                },
                None => {},
            }
            i = i + 1;
        }
        assert(first_transaction_fault(block.transactions@, block.transactions@.len() as int)
            is None);
        None
    }

    /// Validates block inputs: `Ok` exactly when they keep every rule; else
    /// `InvalidBlockData` with the text of the first rule broken.
    pub fn validate_block_inputs(&self, block: &BlockInputs) -> (r: IngestResult<()>)
        ensures
            r is Ok <==> block_inputs_ok(block),
            match block_inputs_fault(block) {
                None => r is Ok,
                Some(fault) => r matches Err(IngestError::InvalidBlockData(text)) && text@
                    == fault.message_spec(),
            },
    {
        match Self::check_block_inputs(block) {
            None => Ok(()),
            Some(fault) => Err(IngestError::InvalidBlockData(fault.message())),
        }
    }

    /// A batch whose number is zero is rejected, whatever else it holds.
    pub proof fn lemma_zero_batch_number_rejected(&self, batch: &Batch)
        requires
            batch.id.number@ == 0,
        ensures
            !self.accepts(batch),
            self.first_fault(batch) == Some(BatchFault::ZeroBatchId),
    {
    }

    /// A block with number one may have a zero parent hash: if it keeps the
    /// other rules, it is accepted.
    pub proof fn lemma_genesis_parent_accepted(block: BlockInBatch, position: u32)
        requires
            block.number@ == 1,
            all_zero(block.parent_hash@),
            block.batch_index == position,
            !all_zero(block.hash@),
            !all_zero(block.state_root@),
            !all_zero(block.tx_root@),
            !all_zero(block.receipt_root@),
            block.timestamp != 0,
        ensures
            block_ok(block, position),
            block_fault(block, position) is None,
    {
    }

    /// Whether `batch` keeps every rule but the one on the number of blocks.
    pub open spec fn accepts_but_for_count(&self, batch: &Batch) -> bool {
        &&& batch.id.number@ != 0
        &&& batch.l1_origin@ != 0
        &&& estimated_size(batch) <= self.max_batch_size_bytes
        &&& forall|i: int|
            0 <= i < batch.blocks@.len() ==> block_ok(#[trigger] batch.blocks@[i], i as u32)
        &&& forall|i: int|
            1 <= i < batch.blocks@.len() ==> (#[trigger] batch.blocks@[i]).number@
                > batch.blocks@[i - 1].number@
        &&& self.strict_mode ==> forall|i: int|
            1 <= i < batch.blocks@.len() ==> (#[trigger] batch.blocks@[i]).timestamp
                >= batch.blocks@[i - 1].timestamp
    }

    /// The limit on the number of blocks is inclusive: a batch with exactly
    /// that many blocks is accepted if it keeps the other rules, and one with
    /// more is rejected whatever else it holds.
    pub proof fn lemma_block_count_boundary(&self, batch: &Batch)
        ensures
            batch.blocks@.len() == self.max_blocks_per_batch ==> (self.accepts(batch)
                <==> self.accepts_but_for_count(batch)),
            batch.blocks@.len() > self.max_blocks_per_batch ==> !self.accepts(batch),
            batch.blocks@.len() > self.max_blocks_per_batch && batch.id.number@ != 0
                && batch.l1_origin@ != 0 ==> self.first_fault(batch) matches Some(
                BatchFault::TooManyBlocks { .. },
            ),
    {
    }
}

} // verus!
