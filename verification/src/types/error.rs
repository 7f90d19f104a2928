//! The error of the core types.

use vstd::prelude::*;

verus! {

/// What can go wrong in the pipeline at large.
#[derive(Debug, Clone, PartialEq, Eq)]
pub enum CdkError {
    /// A batch is not well formed.
    InvalidBatch(String),
    /// An epoch is not well formed.
    InvalidEpoch(String),
    /// A finality status is not well formed.
    InvalidFinality(String),
    /// Data availability could not be established.
    DataAvailabilityFailed(String),
    /// The L1 contract could not be reached or answered wrongly.
    L1ContractError(String),
    /// A value could not be encoded or decoded.
    SerializationError(String),
    /// The network failed.
    NetworkError(String),
    /// The configuration is wrong.
    ConfigError(String),
    /// Anything else.
    InternalError(String),
}

/// Result of an operation on the core types.
pub type CdkResult<T> = Result<T, CdkError>;

} // verus!
