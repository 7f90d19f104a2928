//! The error of finality tracking.

use vstd::prelude::*;

verus! {

/// What can go wrong while L1 finality is tracked.
#[derive(Debug, Clone, PartialEq, Eq)]
pub enum FinalityError {
    /// The L1 node could not be reached or answered wrongly.
    L1RpcError(String),
    /// A contract call failed.
    ContractCallError(String),
    /// The network failed.
    NetworkError(String),
    /// A value could not be encoded or decoded.
    SerializationError(String),
    /// The oracle failed.
    OracleError(String),
    /// The configuration is wrong.
    ConfigError(String),
    /// The L1 node did not answer in time.
    TimeoutError(String),
    /// A finality event is not well formed.
    InvalidFinalityData(String),
    /// The bridge contract answered wrongly.
    BridgeContractError(String),
    /// A rollback cannot be carried out.
    RollbackError(String),
    /// A health check failed.
    HealthCheckError(String),
    /// Anything else.
    InternalError(String),
}

/// Result of an operation of finality tracking.
pub type FinalityResult<T> = Result<T, FinalityError>;

impl FinalityError {
    /// Whether the operation that failed may be tried again: L1 RPC and
    /// contract call failures, network failures and timeouts.
    pub open spec fn retryable(&self) -> bool {
        match self {
            FinalityError::L1RpcError(_) => true,
            FinalityError::ContractCallError(_) => true,
            FinalityError::NetworkError(_) => true,
            FinalityError::TimeoutError(_) => true,
            _ => false,
        }
    }

    /// Whether the operation that failed may be tried again.
    pub fn is_retryable(&self) -> (r: bool)
        ensures
            r == self.retryable(),
    {
        match self {
            FinalityError::L1RpcError(_) => true,
            FinalityError::ContractCallError(_) => true,
            FinalityError::NetworkError(_) => true,
            FinalityError::TimeoutError(_) => true,
            _ => false,
        }
    }
}

} // verus!
