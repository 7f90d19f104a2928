//! What the finality oracle hands on, and how it is configured.

use vstd::prelude::*;
use vstd::string::*;
use std::time::Duration;
use crate::time::{duration_secs, duration_subsec_nanos, unix_now};
use crate::types::bytes::{all_zero, Address, FixedBytes};
use crate::types::finality::FinalityTag;

verus! {

/// What an oracle says of itself.
#[derive(Debug, Clone, PartialEq, Eq)]
pub struct OracleMetadata {
    /// Oracle name.
    pub name: String,
    /// Oracle version.
    pub version: String,
    /// L1 chain ID.
    pub l1_chain_id: u64,
    /// Address of the bridge contract.
    pub bridge_address: Address,
    /// The L1 block the oracle saw last.
    pub current_l1_block: u64,
    /// When the oracle looked last, in seconds since the Unix epoch.
    pub last_check: u64,
    /// Whether the oracle is active.
    pub active: bool,
}

impl OracleMetadata {
    /// Metadata of an active oracle that has not looked at L1 yet.
    pub fn new(name: String, version: String, l1_chain_id: u64, bridge_address: Address) -> (r:
        OracleMetadata)
        ensures
            r == (OracleMetadata {
                name,
                version,
                l1_chain_id,
                bridge_address,
                current_l1_block: 0,
                last_check: 0,
                active: true,
            }),
    {
        OracleMetadata {
            name,
            version,
            l1_chain_id,
            bridge_address,
            current_l1_block: 0,
            last_check: 0,
            active: true,
        }
    }

    /// The same metadata with the L1 block set and the time of the last look
    /// set to `now`.
    pub fn update_l1_block_at(self, block_number: u64, now: u64) -> (r: OracleMetadata)
        ensures
            r == (OracleMetadata { current_l1_block: block_number, last_check: now, ..self }),
    {
        let mut out = self;
        out.current_l1_block = block_number;
        out.last_check = now;
        out
    }

    /// The same metadata with the L1 block set and the time of the last look
    /// set to what the wall clock shows.
    pub fn update_l1_block(self, block_number: u64) -> (r: OracleMetadata)
        ensures
            r == (OracleMetadata { last_check: r.last_check, current_l1_block: block_number, ..self }),
    {
        let now: u64 = unix_now();
        self.update_l1_block_at(block_number, now)
    }

    /// The same metadata with the activity set.
    pub fn set_active(self, active: bool) -> (r: OracleMetadata)
        ensures
            r == (OracleMetadata { active, ..self }),
    {
        let mut out = self;
        out.active = active;
        out
    }
}

/// The kind of a finality event.
#[derive(Debug, Clone, Copy, PartialEq, Eq, Structural)]
pub enum FinalityEventType {
    /// A batch was finalized.
    Finalized,
    /// A batch was rolled back.
    RolledBack,
    /// The status of a batch changed otherwise.
    StatusChanged,
}

/// A finality event as the rollback manager takes it.
#[derive(Debug, Clone, Copy, PartialEq, Eq)]
pub struct FinalityUpdate {
    /// The finality tag.
    pub tag: FinalityTag,
    /// The kind of the event.
    pub event_type: FinalityEventType,
    /// L1 block number at which the event occurred.
    pub l1_block_number: u64,
    /// The transaction that caused the event, where known.
    pub tx_hash: Option<FixedBytes<32>>,
    /// When the event was detected.
    pub detected_at: u64,
}

/// How the finality oracle is configured.
#[derive(Debug, Clone)]
pub struct FinalityOracleConfig {
    /// L1 RPC URL.
    pub l1_rpc_url: String,
    /// Address of the bridge contract.
    pub bridge_address: Address,
    /// Time between two polls.
    pub polling_interval: Duration,
    /// How often a failed call is tried again.
    pub max_retries: u32,
    /// Delay before the first retry.
    pub retry_delay: Duration,
    /// Blocks that must follow an event before it counts.
    pub confirmation_blocks: u64,
    /// Whether strict checks are on.
    pub strict_mode: bool,
}

impl Default for FinalityOracleConfig {
    fn default() -> (r: FinalityOracleConfig)
        ensures
            r.l1_rpc_url@ == "http://localhost:8545"@,
            r.bridge_address@.len() == 20,
            all_zero(r.bridge_address@),
            duration_secs(r.polling_interval) == 12,
            duration_subsec_nanos(r.polling_interval) == 0,
            r.max_retries == 3,
            duration_secs(r.retry_delay) == 1,
            duration_subsec_nanos(r.retry_delay) == 0,
            r.confirmation_blocks == 12,
            r.strict_mode,
    {
        FinalityOracleConfig {
            l1_rpc_url: String::from_str("http://localhost:8545"),
            bridge_address: FixedBytes::zero(),
            polling_interval: Duration::from_secs(12),
            max_retries: 3,
            retry_delay: Duration::from_secs(1),
            confirmation_blocks: 12,
            strict_mode: true,
        }
    }
}

} // verus!
