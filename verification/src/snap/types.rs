//! What a snapshot is made of.

use vstd::prelude::*;
use crate::types::u256::U256;

verus! {

/// The kind of database that a snapshot comes from or goes to.
#[derive(Debug, Clone, Copy, PartialEq, Eq, Structural)]
pub enum DatabaseType {
    /// A Reth database.
    Reth,
    /// An Erigon MDBX database.
    ErigonMdbx,
    /// The generic snapshot format.
    Snapshot,
}

/// What a snapshot says of itself.
#[derive(Debug, Clone, PartialEq, Eq)]
pub struct SnapMetadata {
    /// Version of the snapshot format.
    pub version: u32,
    /// When the snapshot was made.
    pub timestamp: u64,
    /// Where the data comes from.
    pub source_type: DatabaseType,
    /// Where the data goes to.
    pub target_type: DatabaseType,
    /// Checksum of the snapshot.
    pub checksum: String,
    /// Number of records.
    pub record_count: u64,
    /// Size in bytes.
    pub total_size: u64,
}

/// The kind of a record.
#[derive(Debug, Clone, PartialEq, Eq)]
pub enum RecordType {
    /// A block header.
    BlockHeader,
    /// A block body.
    BlockBody,
    /// A transaction.
    Transaction,
    /// A receipt.
    Receipt,
    /// A node of the state trie.
    StateNode,
    /// A node of a storage trie.
    StorageNode,
    /// An account.
    Account,
    /// Anything else, by name.
    Other(String),
}

/// One record of a snapshot.
#[derive(Debug, Clone, PartialEq, Eq)]
pub struct SnapRecord {
    /// Key of the record.
    pub key: Vec<u8>,
    /// Value of the record.
    pub value: Vec<u8>,
    /// Kind of the record.
    pub record_type: RecordType,
    /// The block that the record belongs to, where it belongs to one.
    pub block_number: Option<U256>,
}

/// How a conversion is to be made.
#[derive(Debug, Clone, Copy, PartialEq, Eq)]
pub struct ConversionOptions {
    /// Whether the output is compressed.
    pub compress: bool,
    /// Level of compression, from 1 to 22.
    pub compression_level: u8,
    /// Number of records handled at a time.
    pub batch_size: usize,
    /// Whether checksums are checked.
    pub validate_checksums: bool,
    /// Number of records between two reports of progress.
    pub progress_interval: u64,
}

impl Default for ConversionOptions {
    fn default() -> (r: ConversionOptions)
        ensures
            r == (ConversionOptions {
                compress: true,
                compression_level: 6,
                batch_size: 1000,
                validate_checksums: true,
                progress_interval: 1000,
            }),
    {
        ConversionOptions {
            compress: true,
            compression_level: 6,
            batch_size: 1000,
            validate_checksums: true,
            progress_interval: 1000,
        }
    }
}

} // verus!
