//! Conversions between database formats: what they report. Moving the data is
//! left to the caller.

use vstd::prelude::*;
use crate::snap::types::{DatabaseType, SnapMetadata};
use crate::snap::validator::{sha256_hex, sha256_hex_of};

verus! {

/// What a conversion from `source_type` to `target_type` reports when it was
/// made at `timestamp`, before any record is moved: format version 1, no
/// records, no bytes, and the checksum of no content.
pub fn conversion_metadata(source_type: DatabaseType, target_type: DatabaseType, timestamp: u64) -> (r:
    SnapMetadata)
    ensures
        r.version == 1,
        r.timestamp == timestamp,
        r.source_type == source_type,
        r.target_type == target_type,
        r.checksum@ == sha256_hex(Seq::<u8>::empty()),
        r.record_count == 0,
        r.total_size == 0,
{
    let nothing: Vec<u8> = Vec::new();
    let checksum = sha256_hex_of(nothing.as_slice());
    SnapMetadata {
        version: 1,
        timestamp,
        source_type,
        target_type,
        checksum,
        record_count: 0,
        total_size: 0,
    }
}

/// Converts a Reth database to the Erigon MDBX format.
#[derive(Debug, Clone, Copy, PartialEq, Eq)]
pub struct RethToErigonConverter;

/// Converts an Erigon MDBX database to the Reth format.
#[derive(Debug, Clone, Copy, PartialEq, Eq)]
pub struct ErigonToRethConverter;

impl RethToErigonConverter {
    /// What the conversion reports when it was made at `timestamp`.
    pub fn metadata_at(&self, timestamp: u64) -> (r: SnapMetadata)
        ensures
            r.version == 1,
            r.timestamp == timestamp,
            r.source_type == DatabaseType::Reth,
            r.target_type == DatabaseType::ErigonMdbx,
            r.record_count == 0,
            r.total_size == 0,
    {
        conversion_metadata(DatabaseType::Reth, DatabaseType::ErigonMdbx, timestamp)
    }
}

impl ErigonToRethConverter {
    /// What the conversion reports when it was made at `timestamp`.
    pub fn metadata_at(&self, timestamp: u64) -> (r: SnapMetadata)
        ensures
            r.version == 1,
            r.timestamp == timestamp,
            r.source_type == DatabaseType::ErigonMdbx,
            r.target_type == DatabaseType::Reth,
            r.record_count == 0,
            r.total_size == 0,
    {
        conversion_metadata(DatabaseType::ErigonMdbx, DatabaseType::Reth, timestamp)
    }
}

} // verus!
