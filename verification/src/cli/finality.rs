//! The finality command: its arguments, and what its loop does on each turn.
//! Polling L1 and sleeping are left to the caller.

use vstd::prelude::*;
use vstd::string::*;
use std::time::Duration;
use crate::cli::common::{retry_delay, retry_secs};
use crate::cli::ingest::ExitCode;
use crate::finality::error::FinalityError;
use crate::pipeline::finality::FinalityFailure;
use crate::time::{duration_secs, duration_subsec_nanos};

verus! {

/// The arguments of the finality command.
#[derive(Debug, Clone, PartialEq, Eq)]
pub struct FinalityCommand {
    /// URL of the L1 RPC.
    pub l1_rpc: String,
    /// Address of the bridge contract.
    pub bridge: String,
    /// URL of the engine's RPC.
    pub reth_rpc: String,
    /// Seconds between two polls.
    pub poll_interval: u64,
    /// Whether metrics are kept.
    pub enable_metrics: bool,
}

/// What the finality loop does next.
#[derive(Debug, Clone, Copy, PartialEq, Eq)]
pub enum FinalityStep {
    /// End the command.
    Exit(ExitCode),
    /// Sleep, then poll again.
    Sleep(Duration),
}

impl FinalityCommand {
    /// The arguments with their defaults, for the bridge contract named.
    pub fn new(bridge: String) -> (r: FinalityCommand)
        ensures
            r.l1_rpc@ == "http://localhost:8545"@,
            r.bridge == bridge,
            r.reth_rpc@ == "http://localhost:8545"@,
            r.poll_interval == 30,
            r.enable_metrics,
    {
        FinalityCommand {
            l1_rpc: String::from_str("http://localhost:8545"),
            bridge,
            reth_rpc: String::from_str("http://localhost:8545"),
            poll_interval: 30,
            enable_metrics: true,
        }
    }

    /// The time between two polls.
    pub fn interval(&self) -> (r: Duration)
        ensures
            duration_secs(r) == self.poll_interval,
            duration_subsec_nanos(r) == 0,
    {
        Duration::from_secs(self.poll_interval)
    }

    /// What the loop does after a turn: it ends with code 130 where the
    /// command was cancelled; after a turn that went well it sleeps for the
    /// poll interval; after a failure of L1 that may pass it sleeps for the
    /// backoff delay; any other failure stops the loop with code 1.
    pub fn after_turn(&self, cancelled: bool, attempt: u32, outcome: &Result<(), FinalityFailure>) -> (r:
        FinalityStep)
        ensures
            cancelled ==> r == FinalityStep::Exit(ExitCode::Cancelled),
            !cancelled ==> match *outcome {
                Ok(()) => r matches FinalityStep::Sleep(pause) && duration_secs(pause)
                    == self.poll_interval,
                Err(FinalityFailure::Manager(error)) => if error.retryable() {
                    r matches FinalityStep::Sleep(pause) && duration_secs(pause) == retry_secs(
                        attempt as nat,
                    )
                } else {
                    r == FinalityStep::Exit(ExitCode::Error)
                },
                Err(_) => r == FinalityStep::Exit(ExitCode::Error),
            },
    {
        if cancelled {
            return FinalityStep::Exit(ExitCode::Cancelled);
        }
        match outcome {
            Ok(()) => FinalityStep::Sleep(self.interval()),
            Err(FinalityFailure::Manager(error)) => {
                if error.is_retryable() {
                    FinalityStep::Sleep(retry_delay(attempt))
                } else {
                    FinalityStep::Exit(ExitCode::Error)
                }
            },
            Err(_) => FinalityStep::Exit(ExitCode::Error),
        }
    }
}

} // verus!
