//! The error of ingestion.

use vstd::prelude::*;
use crate::types::bytes::FixedBytes;

verus! {

/// What can go wrong while a batch is validated, assembled and indexed.
#[derive(Debug, Clone, PartialEq, Eq)]
pub enum IngestError {
    /// Block inputs could not be assembled.
    AssemblyError(String),
    /// A check failed.
    ValidationError(String),
    /// The index refused an operation.
    MappingError(String),
    /// A batch could not be processed.
    BatchProcessingError(String),
    /// A block could not be converted.
    BlockConversionError(String),
    /// A transaction could not be processed.
    TransactionProcessingError(String),
    /// A state root differs from the one expected.
    StateRootMismatch { expected: FixedBytes<32>, actual: FixedBytes<32> },
    /// A batch breaks a rule; the text says which.
    InvalidBatchData(String),
    /// Block inputs break a rule; the text says which.
    InvalidBlockData(String),
    /// The storage failed.
    StorageError(String),
    /// The configuration is wrong.
    ConfigError(String),
    /// Anything else.
    InternalError(String),
}

/// Result of an ingestion operation.
pub type IngestResult<T> = Result<T, IngestError>;

} // verus!
