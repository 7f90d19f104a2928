//! The error of snapshot operations.

use vstd::prelude::*;

verus! {

/// What can go wrong with a snapshot.
#[derive(Debug, Clone, PartialEq, Eq)]
#[allow(inconsistent_fields)]
pub enum SnapError {
    /// Disk access failed.
    Io(String),
    /// A value could not be encoded or decoded.
    Serialization(String),
    /// The snapshot is not in the format expected.
    InvalidFormat(String),
    /// The snapshot has another version than expected.
    VersionMismatch { expected: u32, actual: u32 },
    /// The snapshot has another checksum than expected.
    ChecksumMismatch { expected: String, actual: String },
    /// The database failed.
    Database(String),
    /// The conversion failed.
    Conversion(String),
    /// A check failed.
    Validation(String),
}

/// Result of a snapshot operation.
pub type SnapResult<T> = Result<T, SnapError>;

} // verus!
