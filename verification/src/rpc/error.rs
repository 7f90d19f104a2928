//! The error of the RPC queries.

use vstd::prelude::*;
use vstd::string::*;
use crate::datastream::error::DatastreamError;
use crate::finality::error::FinalityError;
use crate::ingest::error::IngestError;

verus! {

/// What can go wrong while a query is answered.
#[derive(Debug, Clone, PartialEq, Eq)]
pub enum CdkRpcError {
    /// No batch of this number is known.
    BatchNotFound(String),
    /// No epoch holds this block.
    EpochNotFound(String),
    /// The finality oracle failed.
    FinalityOracleError(String),
    /// The batch source failed.
    DataSourceError(String),
    /// A parameter of the query is not well formed.
    InvalidParameter(String),
    /// Anything else.
    InternalError(String),
    /// The service cannot answer for now.
    ServiceUnavailable(String),
}

/// Result of a query.
pub type CdkRpcResult<T> = Result<T, CdkRpcError>;

impl CdkRpcError {
    /// The error of a query for a failure of the batch source, whose text is given.
    pub fn from_datastream(error: &DatastreamError, text: String) -> (r: CdkRpcError)
        ensures
            r == CdkRpcError::DataSourceError(text),
    {
        CdkRpcError::DataSourceError(text)
    }

    /// The error of a query for a failure of ingestion, whose text is given.
    pub fn from_ingest(error: &IngestError, text: String) -> (r: CdkRpcError)
        ensures
            r == CdkRpcError::InternalError(text),
    {
        CdkRpcError::InternalError(text)
    }

    /// The error of a query for a failure of finality tracking, whose text is given.
    pub fn from_finality(error: &FinalityError, text: String) -> (r: CdkRpcError)
        ensures
            r == CdkRpcError::FinalityOracleError(text),
    {
        CdkRpcError::FinalityOracleError(text)
    }
}

} // verus!
