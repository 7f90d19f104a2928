//! The ingest command: its arguments, and what its loop does on each turn.
//! Fetching batches and sleeping are left to the caller.

use vstd::prelude::*;
use vstd::string::*;
use std::time::Duration;
use crate::cli::common::{retry_delay, retry_secs};
use crate::datastream::error::DatastreamError;
use crate::pipeline::ingest::{IngestFailure, IngestOutcome};
use crate::util::count::{bump, bumped};
use crate::time::{duration_secs, duration_subsec_nanos};
use crate::types::batch::Batch;

verus! {

/// Seconds that the loop sleeps when the source has no batch.
pub const POLL_INTERVAL_SECS: u64 = 5;

/// How often a failed write to the index is tried again.
pub const MAX_STORAGE_RETRIES: u32 = 3;

/// How a command ends.
#[derive(Debug, Clone, Copy, PartialEq, Eq, Structural)]
pub enum ExitCode {
    /// All went well.
    Normal,
    /// An error that cannot be recovered from.
    Error,
    /// The configuration is wrong.
    Config,
    /// The command was cancelled.
    Cancelled,
}

impl ExitCode {
    /// The code handed to the shell: 0, 1, 2, and 130 for a cancelled command.
    pub fn code(&self) -> (r: u8)
        ensures
            r == match self {
                ExitCode::Normal => 0u8,
                ExitCode::Error => 1u8,
                ExitCode::Config => 2u8,
                ExitCode::Cancelled => 130u8,
            },
    {
        match self {
            ExitCode::Normal => 0,
            ExitCode::Error => 1,
            ExitCode::Config => 2,
            ExitCode::Cancelled => 130,
        }
    }
}

/// The arguments of the ingest command.
#[derive(Debug, Clone, PartialEq, Eq)]
pub struct IngestCommand {
    /// URL of the data source.
    pub datastream: String,
    /// Where to start: `auto`, `latest`, or a checkpoint.
    pub from_checkpoint: String,
    /// URL of the engine's RPC.
    pub reth_rpc: String,
    /// Number of batches after which the command ends; zero for no limit.
    pub max_batches: u64,
    /// Whether metrics are kept.
    pub enable_metrics: bool,
}

impl Default for IngestCommand {
    fn default() -> (r: IngestCommand)
        ensures
            r.datastream@ == "http://localhost:8080/batches"@,
            r.from_checkpoint@ == "auto"@,
            r.reth_rpc@ == "http://localhost:8545"@,
            r.max_batches == 0,
            r.enable_metrics,
    {
        IngestCommand {
            datastream: String::from_str("http://localhost:8080/batches"),
            from_checkpoint: String::from_str("auto"),
            reth_rpc: String::from_str("http://localhost:8545"),
            max_batches: 0,
            enable_metrics: true,
        }
    }
}

/// What came of asking the source for a batch.
#[derive(Debug, Clone, PartialEq, Eq)]
pub enum SourceEvent {
    /// The source handed out a batch.
    Batch(Batch),
    /// The source has no batch for now.
    Drained,
    /// The source failed.
    Failed(DatastreamError),
}

/// What the loop does next.
#[derive(Debug, Clone, PartialEq, Eq)]
pub enum LoopStep {
    /// End the command.
    Exit(ExitCode),
    /// Take the batch through the pipeline.
    Ingest(Batch),
    /// Sleep, then ask the source again.
    Sleep(Duration),
}

/// What the loop keeps from turn to turn.
#[derive(Debug, Clone, Copy, PartialEq, Eq)]
pub struct IngestLoop {
    /// Batches committed so far.
    pub processed: u64,
    /// Failures in a row, which set the delay before the next try.
    pub attempt: u32,
    /// Failures in all.
    pub error_count: u64,
}

/// One more failure in a row, but never past `u32::MAX`.
pub open spec fn next_attempt(attempt: u32) -> u32 {
    if attempt < u32::MAX {
        (attempt + 1) as u32
    } else {
        u32::MAX
    }
}

impl IngestLoop {
    /// The state before the first turn.
    pub fn new() -> (r: IngestLoop)
        ensures
            r == (IngestLoop { processed: 0, attempt: 0, error_count: 0 }),
    {
        IngestLoop { processed: 0, attempt: 0, error_count: 0 }
    }
}

impl IngestCommand {
    /// Whether the limit on the number of batches is reached.
    pub open spec fn limit_reached(&self, processed: u64) -> bool {
        self.max_batches > 0 && processed >= self.max_batches
    }

    /// What the loop does before it asks the source: it ends with code 130
    /// where the command was cancelled, and with code 0 where the limit on the
    /// number of batches is reached; else it goes on.
    pub fn before_fetch(&self, state: &IngestLoop, cancelled: bool) -> (r: Option<ExitCode>)
        ensures
            r == if cancelled {
                Some(ExitCode::Cancelled)
            } else if self.limit_reached(state.processed) {
                Some(ExitCode::Normal)
            } else {
                None
            },
    {
        if cancelled {
            Some(ExitCode::Cancelled)
        } else if self.max_batches > 0 && state.processed >= self.max_batches {
            Some(ExitCode::Normal)
        } else {
            None
        }
    }

    /// What the loop does with what the source gave: a batch is ingested; with
    /// no batch the loop sleeps for the poll interval; after a failure that may
    /// pass it sleeps for the backoff delay of the failures in a row, and after
    /// any other failure the command ends with code 1.
    pub fn after_fetch(&self, state: &mut IngestLoop, event: SourceEvent) -> (r: LoopStep)
        ensures
            final(state).processed == old(state).processed,
            match event {
                SourceEvent::Batch(batch) => {
                    &&& r == LoopStep::Ingest(batch)
                    &&& final(state).attempt == 0
                    &&& final(state).error_count == old(state).error_count
                },
                SourceEvent::Drained => {
                    &&& r matches LoopStep::Sleep(pause)
                    &&& duration_secs(pause) == POLL_INTERVAL_SECS
                    &&& duration_subsec_nanos(pause) == 0
                    &&& final(state).attempt == 0
                    &&& final(state).error_count == old(state).error_count
                },
                SourceEvent::Failed(error) => {
                    &&& final(state).error_count == bumped(old(state).error_count)
                    &&& error.retryable() ==> {
                        &&& r matches LoopStep::Sleep(pause)
                        &&& duration_secs(pause) == retry_secs(old(state).attempt as nat)
                        &&& duration_subsec_nanos(pause) == 0
                        &&& final(state).attempt == next_attempt(old(state).attempt)
                    }
                    &&& !error.retryable() ==> r == LoopStep::Exit(ExitCode::Error)
                },
            },
    {
        match event {
            SourceEvent::Batch(batch) => {
                state.attempt = 0;
                LoopStep::Ingest(batch)
            },
            SourceEvent::Drained => {
                state.attempt = 0;
                LoopStep::Sleep(Duration::from_secs(POLL_INTERVAL_SECS))
            },
            SourceEvent::Failed(error) => {
                state.error_count = bump(state.error_count);
                if error.is_retryable() {
                    let pause = retry_delay(state.attempt);
                    if state.attempt < u32::MAX {
                        state.attempt = state.attempt + 1;
                    }
                    LoopStep::Sleep(pause)
                } else {
                    LoopStep::Exit(ExitCode::Error)
                }
            },
        }
    }

    /// What the loop does after a batch went through the pipeline: a batch
    /// that was committed is counted; a failure of the engine or the index is
    /// tried again up to three times, with the backoff delay; any other
    /// failure ends the command with code 1. `None` means: go on.
    pub fn after_ingest(
        &self,
        state: &mut IngestLoop,
        outcome: &Result<IngestOutcome, IngestFailure>,
    ) -> (r: Option<LoopStep>)
        ensures
            match *outcome {
                Ok(IngestOutcome::Committed(_)) => {
                    &&& r is None
                    &&& final(state).processed == bumped(old(state).processed)
                    &&& final(state).attempt == 0
                    &&& final(state).error_count == old(state).error_count
                },
                Ok(IngestOutcome::AlreadyIngested) => {
                    &&& r is None
                    &&& final(state).processed == old(state).processed
                    &&& final(state).attempt == 0
                    &&& final(state).error_count == old(state).error_count
                },
                Err(failure) => {
                    &&& final(state).processed == old(state).processed
                    &&& final(state).error_count == bumped(old(state).error_count)
                    &&& Self::may_retry(failure) && old(state).attempt < MAX_STORAGE_RETRIES ==> {
                        &&& r matches Some(LoopStep::Sleep(pause))
                        &&& duration_secs(pause) == retry_secs(old(state).attempt as nat)
                        &&& final(state).attempt == old(state).attempt + 1
                    }
                    &&& !(Self::may_retry(failure) && old(state).attempt < MAX_STORAGE_RETRIES)
                        ==> r == Some(LoopStep::Exit(ExitCode::Error))
                },
            },
    {
        match outcome {
            Ok(IngestOutcome::Committed(_)) => {
                state.processed = bump(state.processed);
                state.attempt = 0;
                None
            },
            Ok(IngestOutcome::AlreadyIngested) => {
                state.attempt = 0;
                None
            },
            Err(failure) => {
                state.error_count = bump(state.error_count);
                let again: bool = match failure {
                    IngestFailure::Engine(_) => true,
                    IngestFailure::Index(_) => true,
                    _ => false,
                };
                if again && state.attempt < MAX_STORAGE_RETRIES {
                    let pause = retry_delay(state.attempt);
                    state.attempt = state.attempt + 1;
                    Some(LoopStep::Sleep(pause))
                } else {
                    Some(LoopStep::Exit(ExitCode::Error))
                }
            },
        }
    }

    /// Whether a failure of the pipeline may pass: those of the engine and of the index.
    pub open spec fn may_retry(failure: IngestFailure) -> bool {
        failure is Engine || failure is Index
    }
}

} // verus!
