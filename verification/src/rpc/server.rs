//! How the RPC server is configured.

use vstd::prelude::*;
use vstd::string::*;

verus! {

/// How the RPC server is configured.
#[derive(Debug, Clone, PartialEq, Eq)]
pub struct CdkRpcConfig {
    /// Whether batches can be asked for.
    pub enable_batch_queries: bool,
    /// Whether epochs can be asked for.
    pub enable_epoch_queries: bool,
    /// Whether finality can be asked for.
    pub enable_finality_queries: bool,
    /// Whether counters can be asked for.
    pub enable_metrics: bool,
    /// How many batches are kept for queries.
    pub max_batch_history: u64,
    /// How many epochs are kept for queries.
    pub max_epoch_history: u64,
    /// Address that the server listens on, as host and port.
    pub address: String,
}

impl Default for CdkRpcConfig {
    fn default() -> (r: CdkRpcConfig)
        ensures
            r.enable_batch_queries,
            r.enable_epoch_queries,
            r.enable_finality_queries,
            r.enable_metrics,
            r.max_batch_history == 1000,
            r.max_epoch_history == 100,
            r.address@ == "127.0.0.1:8545"@,
    {
        CdkRpcConfig {
            enable_batch_queries: true,
            enable_epoch_queries: true,
            enable_finality_queries: true,
            enable_metrics: true,
            max_batch_history: 1000,
            max_epoch_history: 100,
            address: String::from_str("127.0.0.1:8545"),
        }
    }
}

} // verus!
