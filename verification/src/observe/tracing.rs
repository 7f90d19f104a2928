//! Log levels and the lines that the pipeline logs.

use vstd::prelude::*;
use vstd::string::*;
use crate::observe::config::ObservabilityConfig;
use crate::text::{concat4, decimal, u256_to_decimal, u64_to_decimal};
use crate::types::u256::U256;

verus! {

/// The level of a log line.
#[derive(Debug, Clone, Copy, PartialEq, Eq, Structural)]
pub enum LogLevel {
    Trace,
    Debug,
    Info,
    Warn,
    Error,
}

/// The level that a word names; `Info` for a word that names none.
pub open spec fn level_of(word: Seq<char>) -> LogLevel {
    if word == "trace"@ {
        LogLevel::Trace
    } else if word == "debug"@ {
        LogLevel::Debug
    } else if word == "info"@ {
        LogLevel::Info
    } else if word == "warn"@ {
        LogLevel::Warn
    } else if word == "error"@ {
        LogLevel::Error
    } else {
        LogLevel::Info
    }
}

/// How tracing is set up.
#[derive(Debug, Clone, Copy, PartialEq, Eq)]
pub struct TracingConfig {
    /// The lowest level that is written.
    pub level: LogLevel,
}

impl TracingConfig {
    /// The tracing setup of a configuration: its log level, or `Info` where
    /// the configuration names no level.
    pub fn new(config: &ObservabilityConfig) -> (r: TracingConfig)
        ensures
            r.level == level_of(config.log_level@),
    {
        let trace = String::from_str("trace");
        let debug = String::from_str("debug");
        let info = String::from_str("info");
        let warn = String::from_str("warn");
        let error = String::from_str("error");
        let level = if config.log_level == trace {
            LogLevel::Trace
        } else if config.log_level == debug {
            LogLevel::Debug
        } else if config.log_level == info {
            LogLevel::Info
        } else if config.log_level == warn {
            LogLevel::Warn
        } else if config.log_level == error {
            LogLevel::Error
        } else {
            LogLevel::Info
        };
        TracingConfig { level }
    }

    /// The directive that sets the level, in upper case as the filter takes it.
    pub fn directive(&self) -> (r: &'static str)
        ensures
            r@ == match self.level {
                LogLevel::Trace => "TRACE"@,
                LogLevel::Debug => "DEBUG"@,
                LogLevel::Info => "INFO"@,
                LogLevel::Warn => "WARN"@,
                LogLevel::Error => "ERROR"@,
            },
    {
        match self.level {
            LogLevel::Trace => "TRACE",
            LogLevel::Debug => "DEBUG",
            LogLevel::Info => "INFO",
            LogLevel::Warn => "WARN",
            LogLevel::Error => "ERROR",
        }
    }
}

/// The lines that the pipeline logs. Writing them out is left to the caller.
#[derive(Debug, Clone, Copy, PartialEq, Eq)]
pub struct CdkTracing;

impl CdkTracing {
    /// The line for the start of the ingestion of a batch.
    pub fn log_ingestion_start(batch_id: U256, block_count: usize) -> (r: String)
        ensures
            r@ == "Starting ingestion for batch "@ + decimal(batch_id@) + " with "@ + decimal(
                block_count as nat,
            ) + " blocks"@,
    {
        let b = u256_to_decimal(batch_id);
        let n = u64_to_decimal(block_count as u64);
        let mut text = concat4("Starting ingestion for batch ", b.as_str(), " with ", n.as_str());
        text.append(" blocks");
        text
    }

    /// The line for the end of the ingestion of a batch.
    pub fn log_ingestion_complete(batch_id: U256, duration_ms: u64) -> (r: String)
        ensures
            r@ == "Completed ingestion for batch "@ + decimal(batch_id@) + " in "@ + decimal(
                duration_ms as nat,
            ) + "ms"@,
    {
        let b = u256_to_decimal(batch_id);
        let d = u64_to_decimal(duration_ms);
        let mut text = concat4("Completed ingestion for batch ", b.as_str(), " in ", d.as_str());
        text.append("ms");
        text
    }

    /// The line for a change of the finality of a batch.
    pub fn log_finality_update(batch_id: U256, status: &str) -> (r: String)
        ensures
            r@ == "Finality update for batch "@ + decimal(batch_id@) + ": "@ + status@,
    {
        let b = u256_to_decimal(batch_id);
        concat4("Finality update for batch ", b.as_str(), ": ", status)
    }

    /// The line for a reorganization.
    pub fn log_reorg_detected(old_batch: U256, new_batch: U256) -> (r: String)
        ensures
            r@ == "Reorg detected: batch "@ + decimal(old_batch@) + " replaced by "@ + decimal(
                new_batch@,
            ),
    {
        let a = u256_to_decimal(old_batch);
        let b = u256_to_decimal(new_batch);
        concat4("Reorg detected: batch ", a.as_str(), " replaced by ", b.as_str())
    }

    /// The line for an error in an operation.
    pub fn log_error(operation: &str, error: &str) -> (r: String)
        ensures
            r@ == "Error in "@ + operation@ + ": "@ + error@,
    {
        concat4("Error in ", operation, ": ", error)
    }
}

} // verus!
