//! The error of batch sources.

use vstd::prelude::*;

verus! {

/// What can go wrong while batches are pulled from a source.
#[derive(Debug, Clone, PartialEq, Eq)]
pub enum DatastreamError {
    /// The network failed.
    NetworkError(String),
    /// The server answered with a status that is no success.
    HttpError { status: u16, message: String },
    /// A value could not be encoded.
    SerializationError(String),
    /// The checkpoint is missing or cannot be used.
    CheckpointError(String),
    /// The source cannot be reached for now.
    SourceUnavailable(String),
    /// A batch breaks a rule.
    InvalidBatchData(String),
    /// The configuration is wrong.
    ConfigError(String),
    /// The source did not answer in time.
    TimeoutError(String),
    /// Anything else.
    InternalError(String),
    /// The connection could not be made or was lost.
    ConnectionError(String),
    /// A message could not be sent or received.
    CommunicationError(String),
    /// A value could not be decoded.
    DeserializationError(String),
    /// Disk access failed.
    IoError(String),
}

/// Result of an operation on a batch source.
pub type DatastreamResult<T> = Result<T, DatastreamError>;

/// Another name of [`DatastreamError`].
pub type DataStreamError = DatastreamError;

/// Another name of [`DatastreamResult`].
pub type DataStreamResult<T> = DatastreamResult<T>;

impl DatastreamError {
    /// Whether the operation that failed may be tried again: network, HTTP,
    /// timeout and connection failures, and a source that is unavailable.
    pub open spec fn retryable(&self) -> bool {
        match self {
            DatastreamError::NetworkError(_) => true,
            DatastreamError::HttpError { .. } => true,
            DatastreamError::TimeoutError(_) => true,
            DatastreamError::ConnectionError(_) => true,
            DatastreamError::SourceUnavailable(_) => true,
            _ => false,
        }
    }

    /// Whether the operation that failed may be tried again.
    pub fn is_retryable(&self) -> (r: bool)
        ensures
            r == self.retryable(),
    {
        match self {
            DatastreamError::NetworkError(_) => true,
            DatastreamError::HttpError { .. } => true,
            DatastreamError::TimeoutError(_) => true,
            DatastreamError::ConnectionError(_) => true,
            DatastreamError::SourceUnavailable(_) => true,
            _ => false,
        }
    }
}

} // verus!
