//! Read-only queries on batches, epochs and finality.

pub mod api;
pub mod error;
pub mod server;
pub mod types;

pub use api::{CdkRpcApiImpl, KnownBatch};
pub use error::{CdkRpcError, CdkRpcResult};
pub use server::CdkRpcConfig;
pub use types::{
    BatchMetadata, BatchResponse, EpochMetadata, EpochResponse, FinalizedBatchResponse,
    GetBatchByNumberRequest, GetEpochByBlockRequest, RpcCounters,
};
