//! The read-only queries: batches by number, epochs by block, the latest
//! finality event, and counters.

use vstd::prelude::*;
use vstd::string::*;
use crate::cli::common::starts_with;
use crate::rpc::error::{CdkRpcError, CdkRpcResult};
use crate::rpc::types::{
    BatchMetadata, BatchResponse, EpochMetadata, EpochResponse, FinalizedBatchResponse,
    RpcCounters,
};
use crate::types::batch::{Batch, BatchId};
use crate::types::epoch::{span_count, Epoch};
use crate::types::finality::{FinalityStatus, FinalityTag};
use crate::types::u256::{limbs_value, pow256, U256};

verus! {

/// The value of a hexadecimal digit, in either case.
pub open spec fn hex_digit_value(c: char) -> Option<nat> {
    if '0' <= c <= '9' {
        Some((c as u32 - '0' as u32) as nat)
    } else if 'a' <= c <= 'f' {
        Some((c as u32 - 'a' as u32 + 10) as nat)
    } else if 'A' <= c <= 'F' {
        Some((c as u32 - 'A' as u32 + 10) as nat)
    } else {
        None
    }
}

/// The number that a text of hexadecimal digits stands for; underscores
/// between the digits do not count. `None` where the text holds anything else.
pub open spec fn hex_digits_value(text: Seq<char>) -> Option<nat>
    decreases text.len(),
{
    if text.len() == 0 {
        Some(0)
    } else {
        match hex_digits_value(text.drop_last()) {
            None => None,
            Some(high) => if text.last() == '_' {
                Some(high)
            } else {
                match hex_digit_value(text.last()) {
                    Some(digit) => Some(high * 16 + digit),
                    None => None,
                }
            },
        }
    }
}

/// The 256-bit number that a text of hexadecimal digits stands for: `None`
/// where the text holds anything but digits and underscores, or stands for a
/// number of more than 256 bits. The empty text stands for zero.
pub open spec fn parse_hex(text: Seq<char>) -> Option<nat> {
    match hex_digits_value(text) {
        Some(value) => if value < pow256() {
            Some(value)
        } else {
            None
        },
        None => None,
    }
}

/// The text of a hexadecimal number without its `0x` prefix, where it has one.
pub open spec fn without_prefix(text: Seq<char>) -> Seq<char> {
    if "0x"@.is_prefix_of(text) {
        text.subrange(2, text.len() as int)
    } else {
        text
    }
}

/// `alloy_primitives::U256::from_str_radix` with radix 16: the limbs of the
/// number (least significant first), or `None` for a text that is no
/// hexadecimal number of at most 256 bits.
#[verifier::external_body]
pub(crate) fn hex_to_limbs(text: &str) -> (r: Option<[u64; 4]>)
    ensures
        match parse_hex(text@) {
            Some(value) => r is Some && limbs_value(r->0[0], r->0[1], r->0[2], r->0[3]) == value,
            None => r is None,
        },
{
    alloy_primitives::U256::from_str_radix(text, 16).ok().map(|v| v.into_limbs())
}

/// The word for a status in an answer.
pub open spec fn status_word(status: FinalityStatus) -> Seq<char> {
    match status {
        FinalityStatus::Pending => "Pending"@,
        FinalityStatus::Finalized => "Finalized"@,
        FinalityStatus::RolledBack => "RolledBack"@,
    }
}

/// The position of the first batch with the number given, or the number of
/// batches where there is none.
pub open spec fn find_batch(batches: Seq<KnownBatch>, number: nat, from: int) -> int
    decreases batches.len() - from,
{
    if from < 0 || from >= batches.len() {
        batches.len() as int
    } else if batches[from].batch.id.number@ == number {
        from
    } else {
        find_batch(batches, number, from + 1)
    }
}

/// The position of the first epoch that holds the block given, or the number
/// of epochs where there is none.
pub open spec fn find_epoch(epochs: Seq<Epoch>, block: nat, from: int) -> int
    decreases epochs.len() - from,
{
    if from < 0 || from >= epochs.len() {
        epochs.len() as int
    } else if epochs[from].start_block@ <= block <= epochs[from].end_block@ {
        from
    } else {
        find_epoch(epochs, block, from + 1)
    }
}

/// What is known of a batch besides its contents: its blocks are counted, its
/// size and processing time are those that were recorded with it, and its
/// transactions are not known and given as zero.
pub open spec fn batch_metadata_of(known: &KnownBatch) -> BatchMetadata {
    BatchMetadata {
        block_count: known.batch.blocks@.len() as u64,
        transaction_count: 0,
        size_bytes: known.size_bytes,
        processing_time_ms: known.processing_time_ms,
    }
}

/// What is known of an epoch besides its bounds: its batches and blocks are
/// counted, its length is that of its timestamps, and the average size of a
/// batch is not known and given as zero. `None` where a count does not fit in
/// 64 bits.
pub open spec fn epoch_metadata_of(epoch: &Epoch) -> Option<EpochMetadata> {
    if span_count(epoch.start_batch@, epoch.end_batch@) <= u64::MAX && span_count(
        epoch.start_block@,
        epoch.end_block@,
    ) <= u64::MAX {
        Some(
            EpochMetadata {
                batch_count: span_count(epoch.start_batch@, epoch.end_batch@) as u64,
                block_count: span_count(epoch.start_block@, epoch.end_block@) as u64,
                duration_seconds: if epoch.end_timestamp >= epoch.start_timestamp {
                    (epoch.end_timestamp - epoch.start_timestamp) as u64
                } else {
                    0
                },
                avg_batch_size_bytes: 0,
            },
        )
    } else {
        None
    }
}

/// A batch that can be asked for, with what was recorded when it was ingested.
#[derive(Debug, Clone, PartialEq, Eq)]
pub struct KnownBatch {
    /// The batch.
    pub batch: Batch,
    /// Its size as it came over the wire, in bytes.
    pub size_bytes: u64,
    /// The time it took to process, in milliseconds.
    pub processing_time_ms: u64,
}

/// The queries, on what the pipeline has made known to them.
#[derive(Debug)]
pub struct CdkRpcApiImpl {
    /// The batches that can be asked for.
    pub batches: Vec<KnownBatch>,
    /// The epochs that can be asked for.
    pub epochs: Vec<Epoch>,
    /// The finality tags of the latest poll, oldest first.
    pub tags: Vec<FinalityTag>,
    /// Counters.
    pub counters: RpcCounters,
}

impl CdkRpcApiImpl {
    /// Queries that know of nothing yet.
    pub fn new() -> (r: CdkRpcApiImpl)
        ensures
            r.batches@.len() == 0,
            r.epochs@.len() == 0,
            r.tags@.len() == 0,
            r.counters == (RpcCounters {
                total_batches: 0,
                total_epochs: 0,
                latest_batch: None,
                latest_epoch: None,
                latest_finalized_batch: None,
                l1_lag: None,
                reorg_count: 0,
            }),
    {
        CdkRpcApiImpl {
            batches: Vec::new(),
            epochs: Vec::new(),
            tags: Vec::new(),
            counters: RpcCounters {
                total_batches: 0,
                total_epochs: 0,
                latest_batch: None,
                latest_epoch: None,
                latest_finalized_batch: None,
                l1_lag: None,
                reorg_count: 0,
            },
        }
    }

    /// The number that a hexadecimal text stands for, with or without the
    /// prefix `0x`: `InvalidParameter` exactly when the text is no
    /// hexadecimal number of at most 256 bits.
    pub fn parse_hex_number(hex_str: &str) -> (r: CdkRpcResult<U256>)
        ensures
            match parse_hex(without_prefix(hex_str@)) {
                Some(value) => r is Ok && r->Ok_0@ == value,
                None => r matches Err(CdkRpcError::InvalidParameter(text)) && text@
                    == "Invalid hex number: "@ + hex_str@,
            },
    {
        let parsed: Option<[u64; 4]> = if starts_with(hex_str, "0x") {
            proof {
                reveal_strlit("0x");
            }
            let n: usize = hex_str.unicode_len();
            hex_to_limbs(hex_str.substring_char(2, n))
        } else {
            hex_to_limbs(hex_str)
        };
        match parsed {
            Some(limbs) => Ok(U256::from_limbs(limbs)),
            None => {
                let mut text = String::from_str("Invalid hex number: ");
                text.append(hex_str);
                Err(CdkRpcError::InvalidParameter(text))
            },
        }
    }

    /// What is known of a batch besides its contents.
    pub fn get_batch_metadata(known: &KnownBatch) -> (r: BatchMetadata)
        ensures
            r == batch_metadata_of(known),
    {
        BatchMetadata {
            block_count: known.batch.blocks.len() as u64,
            transaction_count: 0,
            size_bytes: known.size_bytes,
            processing_time_ms: known.processing_time_ms,
        }
    }

    /// Makes a batch known to the queries.
    pub fn record_batch(&mut self, batch: Batch, size_bytes: u64, processing_time_ms: u64)
        ensures
            final(self).batches@ == old(self).batches@.push(
                KnownBatch { batch, size_bytes, processing_time_ms },
            ),
            final(self).epochs == old(self).epochs,
            final(self).tags == old(self).tags,
            final(self).counters == old(self).counters,
    {
        self.batches.push(KnownBatch { batch, size_bytes, processing_time_ms });
    }

    /// What is known of an epoch besides its bounds: `InternalError` exactly
    /// when the number of its batches or of its blocks does not fit in 64 bits.
    pub fn get_epoch_metadata(epoch: &Epoch) -> (r: CdkRpcResult<EpochMetadata>)
        ensures
            match epoch_metadata_of(epoch) {
                Some(metadata) => r == Ok::<EpochMetadata, CdkRpcError>(metadata),
                None => r matches Err(CdkRpcError::InternalError(text)) && (text@
                    == "Batch count does not fit in 64 bits"@ || text@
                    == "Block count does not fit in 64 bits"@),
            },
    {
        let batch_count: u64 = match epoch.batch_count().to_u64() {
            Some(n) => n,
            None => {
                return Err(
                    CdkRpcError::InternalError(
                        String::from_str("Batch count does not fit in 64 bits"),
                    ),
                );
            },
        };
        let block_count: u64 = match epoch.block_count().to_u64() {
            Some(n) => n,
            None => {
                return Err(
                    CdkRpcError::InternalError(
                        String::from_str("Block count does not fit in 64 bits"),
                    ),
                );
            },
        };
        Ok(
            EpochMetadata {
                batch_count,
                block_count,
                duration_seconds: epoch.duration_seconds(),
                avg_batch_size_bytes: 0,
            },
        )
    }

    /// The batch with the number given in hexadecimal, with what else is known
    /// of it; nothing where no batch has that number. `InvalidParameter`
    /// exactly when the text is no hexadecimal number.
    #[verifier::loop_isolation(false)]
    pub fn get_batch_by_number(&self, batch_number: &str) -> (r: CdkRpcResult<Option<BatchResponse>>)
        ensures
            match parse_hex(without_prefix(batch_number@)) {
                None => r matches Err(CdkRpcError::InvalidParameter(text)) && text@
                    == "Invalid hex number: "@ + batch_number@,
                Some(number) => {
                    let at = find_batch(self.batches@, number, 0);
                    &&& r is Ok
                    &&& at >= self.batches@.len() ==> r->Ok_0 is None
                    &&& at < self.batches@.len() ==> {
                        &&& r->Ok_0 is Some
                        &&& r->Ok_0->0.batch.same_as(&self.batches@[at].batch)
                        &&& r->Ok_0->0.metadata == batch_metadata_of(&self.batches@[at])
                    }
                },
            },
    {
        let number = match Self::parse_hex_number(batch_number) {
            Ok(n) => n,
            Err(e) => {
                return Err(e);
            },
        };
        let mut i: usize = 0;
        while i < self.batches.len()
            invariant
                i <= self.batches@.len(),
                find_batch(self.batches@, number@, 0)
                    == find_batch(self.batches@, number@, i as int),
            decreases self.batches@.len() - i,
        {
            if self.batches[i].batch.id.number.equals(&number) {
                assert(find_batch(self.batches@, number@, i as int) == i);
                let batch = self.batches[i].batch.duplicate();
                let metadata = Self::get_batch_metadata(&self.batches[i]);
                return Ok(Some(BatchResponse { batch, metadata }));
            }
            i = i + 1;
        }
        Ok(None)
    }

    /// The first epoch that holds the block with the number given in
    /// hexadecimal, with what else is known of it; nothing where no epoch
    /// holds it. `InvalidParameter` exactly when the text is no hexadecimal number.
    #[verifier::loop_isolation(false)]
    pub fn get_epoch_by_block(&self, block_number: &str) -> (r: CdkRpcResult<Option<EpochResponse>>)
        ensures
            match parse_hex(without_prefix(block_number@)) {
                None => r matches Err(CdkRpcError::InvalidParameter(text)) && text@
                    == "Invalid hex number: "@ + block_number@,
                Some(number) => {
                    let at = find_epoch(self.epochs@, number, 0);
                    &&& at >= self.epochs@.len() ==> r is Ok && r->Ok_0 is None
                    &&& at < self.epochs@.len() ==> match epoch_metadata_of(&self.epochs@[at]) {
                        Some(metadata) => r == Ok::<Option<EpochResponse>, CdkRpcError>(
                            Some(EpochResponse { epoch: self.epochs@[at], metadata }),
                        ),
                        None => r is Err && r->Err_0 is InternalError,
                    }
                },
            },
    {
        let number = match Self::parse_hex_number(block_number) {
            Ok(n) => n,
            Err(e) => {
                return Err(e);
            },
        };
        let mut i: usize = 0;
        while i < self.epochs.len()
            invariant
                i <= self.epochs@.len(),
                find_epoch(self.epochs@, number@, 0) == find_epoch(self.epochs@, number@, i as int),
            decreases self.epochs@.len() - i,
        {
            if self.epochs[i].contains_block(number) {
                assert(find_epoch(self.epochs@, number@, i as int) == i);
                let epoch: Epoch = self.epochs[i];
                return match Self::get_epoch_metadata(&epoch) {
                    Ok(metadata) => Ok(Some(EpochResponse { epoch, metadata })),
                    Err(e) => Err(e),
                };
            }
            i = i + 1;
        }
        Ok(None)
    }

    /// The word for a status in an answer.
    pub fn status_text(status: FinalityStatus) -> (r: String)
        ensures
            r@ == status_word(status),
    {
        match status {
            FinalityStatus::Pending => String::from_str("Pending"),
            FinalityStatus::Finalized => String::from_str("Finalized"),
            FinalityStatus::RolledBack => String::from_str("RolledBack"),
        }
    }

    /// The latest finality event: the last tag of the latest poll, or nothing
    /// where the poll brought none.
    pub fn finalized_batch(&self) -> (r: Option<FinalizedBatchResponse>)
        ensures
            self.tags@.len() == 0 ==> r is None,
            self.tags@.len() > 0 ==> {
                &&& r is Some
                &&& r->0.batch_id.number == self.tags@.last().batch_id
                &&& r->0.batch_id.hash == self.tags@.last().l1_block_hash
                &&& r->0.status@ == status_word(self.tags@.last().status)
                &&& r->0.l1_block == self.tags@.last().l1_block
                &&& r->0.timestamp == self.tags@.last().timestamp
            },
    {
        let n: usize = self.tags.len();
        if n == 0 {
            return None;
        }
        let tag: FinalityTag = self.tags[n - 1];
        Some(
            FinalizedBatchResponse {
                batch_id: BatchId::new(tag.batch_id, tag.l1_block_hash),
                status: Self::status_text(tag.status),
                l1_block: tag.l1_block,
                timestamp: tag.timestamp,
            },
        )
    }

    /// The counters.
    pub fn metrics(&self) -> (r: RpcCounters)
        ensures
            r == self.counters,
    {
        self.counters
    }
}

/// A text that holds a character which is neither a hexadecimal digit nor an
/// underscore stands for no number.
pub proof fn lemma_bad_digit_is_refused(text: Seq<char>, at: int)
    requires
        0 <= at < text.len(),
        text[at] != '_',
        hex_digit_value(text[at]) is None,
    ensures
        parse_hex(text) is None,
    decreases text.len(),
{
    if at == text.len() - 1 {
    } else {
        lemma_bad_digit_is_refused(text.drop_last(), at);
    }
}

} // verus!
