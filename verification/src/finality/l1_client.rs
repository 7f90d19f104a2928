//! The L1 client: its configuration, what it reads from L1, and when a failed
//! call is tried again. The calls themselves are left to the caller.

use vstd::prelude::*;
use vstd::string::*;
use std::time::Duration;
use crate::cli::common::{retry_delay, retry_secs};
use crate::finality::error::FinalityError;
use crate::time::{duration_secs, duration_subsec_nanos};
use crate::types::bytes::{Address, Bytes, FixedBytes};
use crate::types::u256::U256;

verus! {

/// How the L1 client is configured.
#[derive(Debug, Clone)]
pub struct L1ClientConfig {
    /// L1 RPC URL.
    pub rpc_url: String,
    /// Time after which a request is given up.
    pub timeout: Duration,
    /// How often a failed call is tried again.
    pub max_retries: u32,
    /// Delay before the first retry.
    pub retry_delay: Duration,
    /// API key, where the node asks for one.
    pub api_key: Option<String>,
}

impl Default for L1ClientConfig {
    fn default() -> (r: L1ClientConfig)
        ensures
            r.rpc_url@ == "http://localhost:8545"@,
            duration_secs(r.timeout) == 30,
            duration_subsec_nanos(r.timeout) == 0,
            r.max_retries == 3,
            duration_secs(r.retry_delay) == 1,
            duration_subsec_nanos(r.retry_delay) == 0,
            r.api_key is None,
    {
        L1ClientConfig {
            rpc_url: String::from_str("http://localhost:8545"),
            timeout: Duration::from_secs(30),
            max_retries: 3,
            retry_delay: Duration::from_secs(1),
            api_key: None,
        }
    }
}

impl L1ClientConfig {
    /// The default configuration for the node at `rpc_url`.
    pub fn from_rpc_url(rpc_url: &str) -> (r: L1ClientConfig)
        ensures
            r.rpc_url@ == rpc_url@,
            duration_secs(r.timeout) == 30,
            r.max_retries == 3,
            duration_secs(r.retry_delay) == 1,
            r.api_key is None,
    {
        let mut config = L1ClientConfig::default();
        config.rpc_url = String::from_str(rpc_url);
        config
    }

    /// What to do after try number `attempt` (counted from zero) of a call
    /// failed with `error`: wait and try again, where the error may pass and
    /// tries are left, or give up.
    pub fn after_failure(&self, attempt: u32, error: &FinalityError) -> (r: Option<Duration>)
        ensures
            match r {
                Some(delay) => {
                    &&& error.retryable()
                    &&& attempt < self.max_retries
                    &&& duration_secs(delay) == retry_secs(attempt as nat)
                    &&& duration_subsec_nanos(delay) == 0
                },
                None => !error.retryable() || attempt >= self.max_retries,
            },
    {
        if error.is_retryable() && attempt < self.max_retries {
            Some(retry_delay(attempt))
        } else {
            None
        }
    }
}

/// A transaction of an L1 block.
#[derive(Debug, Clone, PartialEq, Eq)]
pub struct L1Transaction {
    pub hash: FixedBytes<32>,
    pub from: Address,
    pub to: Option<Address>,
    pub value: U256,
    pub gas_price: Option<u64>,
    pub gas_limit: u64,
    pub nonce: u64,
    pub data: Bytes,
}

/// An L1 block.
#[derive(Debug, Clone, PartialEq, Eq)]
pub struct L1Block {
    pub number: u64,
    pub hash: FixedBytes<32>,
    pub parent_hash: FixedBytes<32>,
    pub timestamp: u64,
    pub gas_limit: u64,
    pub gas_used: u64,
    pub base_fee_per_gas: Option<u64>,
    pub transactions: Vec<L1Transaction>,
}

/// A log of an L1 transaction.
#[derive(Debug, Clone, PartialEq, Eq)]
pub struct L1Log {
    pub address: Address,
    pub topics: Vec<FixedBytes<32>>,
    pub data: Bytes,
}

/// The receipt of an L1 transaction.
#[derive(Debug, Clone, PartialEq, Eq)]
pub struct L1TransactionReceipt {
    pub transaction_hash: FixedBytes<32>,
    pub block_number: u64,
    pub block_hash: FixedBytes<32>,
    pub gas_used: u64,
    pub status: Option<u64>,
    pub logs: Vec<L1Log>,
}

impl L1Block {
    /// The block with the header fields that a node reports, without its transactions.
    pub fn from_header(
        number: u64,
        hash: FixedBytes<32>,
        parent_hash: FixedBytes<32>,
        timestamp: u64,
        gas_limit: u64,
        gas_used: u64,
        base_fee_per_gas: Option<u64>,
    ) -> (r: L1Block)
        ensures
            r.number == number,
            r.hash == hash,
            r.parent_hash == parent_hash,
            r.timestamp == timestamp,
            r.gas_limit == gas_limit,
            r.gas_used == gas_used,
            r.base_fee_per_gas == base_fee_per_gas,
            r.transactions@.len() == 0,
    {
        L1Block {
            number,
            hash,
            parent_hash,
            timestamp,
            gas_limit,
            gas_used,
            base_fee_per_gas,
            transactions: Vec::new(),
        }
    }
}

/// The error for an RPC URL that is no URL.
pub fn invalid_rpc_url(reason: &str) -> (r: FinalityError)
    ensures
        r matches FinalityError::ConfigError(text) && text@ == "Invalid RPC URL: "@ + reason@,
{
    let mut text = String::from_str("Invalid RPC URL: ");
    text.append(reason);
    FinalityError::ConfigError(text)
}

/// The error for a call to the L1 node that failed; `what` names the call.
pub fn rpc_failed(what: &str, reason: &str) -> (r: FinalityError)
    ensures
        r matches FinalityError::L1RpcError(text) && text@ == "Failed to "@ + what@ + ": "@
            + reason@,
{
    let mut text = String::from_str("Failed to ");
    text.append(what);
    text.append(": ");
    text.append(reason);
    FinalityError::L1RpcError(text)
}

} // verus!
