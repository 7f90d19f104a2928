//! How observability is configured.

use vstd::prelude::*;
use vstd::string::*;

verus! {

/// How log lines are written.
#[derive(Debug, Clone, Copy, PartialEq, Eq, Structural)]
pub enum LogFormat {
    /// As JSON, for machines.
    Json,
    /// Spread out, for development.
    Pretty,
    /// On one line, for production.
    Compact,
}

/// Which metrics of batch processing are kept.
#[derive(Debug, Clone, Copy, PartialEq, Eq)]
pub struct BatchMetricsConfig {
    /// The height of the latest batch.
    pub enable_batch_height: bool,
    /// The height of the latest epoch.
    pub enable_epoch_height: bool,
    /// The rate of ingestion.
    pub enable_ingest_tps: bool,
    /// The time it takes to process a batch.
    pub enable_processing_time: bool,
}

/// Which metrics of finality are kept.
#[derive(Debug, Clone, Copy, PartialEq, Eq)]
pub struct FinalityMetricsConfig {
    /// How far L1 is ahead.
    pub enable_l1_lag: bool,
    /// The number of reorganizations.
    pub enable_reorg_count: bool,
    /// The finality status.
    pub enable_finality_status: bool,
    /// The number of rollbacks.
    pub enable_rollback_metrics: bool,
}

/// How observability is configured.
#[derive(Debug, Clone, PartialEq, Eq)]
pub struct ObservabilityConfig {
    /// Whether log lines are written.
    pub enable_logging: bool,
    /// The lowest level that is written: trace, debug, info, warn or error.
    pub log_level: String,
    /// How log lines are written.
    pub log_format: LogFormat,
    /// Whether metrics are kept.
    pub enable_metrics: bool,
    /// Address of the metrics endpoint, as host and port.
    pub metrics_address: String,
    /// Whether tracing spans are made.
    pub enable_tracing: bool,
    /// Which metrics of batch processing are kept.
    pub batch_metrics: BatchMetricsConfig,
    /// Which metrics of finality are kept.
    pub finality_metrics: FinalityMetricsConfig,
}

impl Default for BatchMetricsConfig {
    fn default() -> (r: BatchMetricsConfig)
        ensures
            r == (BatchMetricsConfig {
                enable_batch_height: true,
                enable_epoch_height: true,
                enable_ingest_tps: true,
                enable_processing_time: true,
            }),
    {
        BatchMetricsConfig {
            enable_batch_height: true,
            enable_epoch_height: true,
            enable_ingest_tps: true,
            enable_processing_time: true,
        }
    }
}

impl Default for FinalityMetricsConfig {
    fn default() -> (r: FinalityMetricsConfig)
        ensures
            r == (FinalityMetricsConfig {
                enable_l1_lag: true,
                enable_reorg_count: true,
                enable_finality_status: true,
                enable_rollback_metrics: true,
            }),
    {
        FinalityMetricsConfig {
            enable_l1_lag: true,
            enable_reorg_count: true,
            enable_finality_status: true,
            enable_rollback_metrics: true,
        }
    }
}

impl Default for ObservabilityConfig {
    fn default() -> (r: ObservabilityConfig)
        ensures
            r.enable_logging,
            r.log_level@ == "info"@,
            r.log_format == LogFormat::Pretty,
            r.enable_metrics,
            r.metrics_address@ == "127.0.0.1:9000"@,
            r.enable_tracing,
            r.batch_metrics.enable_batch_height && r.batch_metrics.enable_epoch_height
                && r.batch_metrics.enable_ingest_tps && r.batch_metrics.enable_processing_time,
            r.finality_metrics.enable_l1_lag && r.finality_metrics.enable_reorg_count
                && r.finality_metrics.enable_finality_status
                && r.finality_metrics.enable_rollback_metrics,
    {
        ObservabilityConfig {
            enable_logging: true,
            log_level: String::from_str("info"),
            log_format: LogFormat::Pretty,
            enable_metrics: true,
            metrics_address: String::from_str("127.0.0.1:9000"),
            enable_tracing: true,
            batch_metrics: BatchMetricsConfig::default(),
            finality_metrics: FinalityMetricsConfig::default(),
        }
    }
}

impl ObservabilityConfig {
    /// The default configuration.
    pub fn new() -> (r: ObservabilityConfig)
        ensures
            r.enable_logging,
            r.log_level@ == "info"@,
            r.log_format == LogFormat::Pretty,
            r.enable_metrics,
            r.metrics_address@ == "127.0.0.1:9000"@,
            r.enable_tracing,
    {
        ObservabilityConfig::default()
    }

    /// The same configuration with logging on, at the level and in the format given.
    pub fn with_logging(self, level: &str, format: LogFormat) -> (r: ObservabilityConfig)
        ensures
            r.enable_logging,
            r.log_level@ == level@,
            r.log_format == format,
            r.enable_metrics == self.enable_metrics,
            r.metrics_address == self.metrics_address,
            r.enable_tracing == self.enable_tracing,
            r.batch_metrics == self.batch_metrics,
            r.finality_metrics == self.finality_metrics,
    {
        let mut out = self;
        out.enable_logging = true;
        out.log_level = String::from_str(level);
        out.log_format = format;
        out
    }

    /// The same configuration with metrics on, served at the address given.
    pub fn with_metrics(self, address: &str) -> (r: ObservabilityConfig)
        ensures
            r.enable_metrics,
            r.metrics_address@ == address@,
            r.enable_logging == self.enable_logging,
            r.log_level == self.log_level,
            r.log_format == self.log_format,
            r.enable_tracing == self.enable_tracing,
            r.batch_metrics == self.batch_metrics,
            r.finality_metrics == self.finality_metrics,
    {
        let mut out = self;
        out.enable_metrics = true;
        out.metrics_address = String::from_str(address);
        out
    }

    /// The same configuration with tracing on or off.
    pub fn with_tracing(self, enable: bool) -> (r: ObservabilityConfig)
        ensures
            r == (ObservabilityConfig { enable_tracing: enable, ..self }),
    {
        let mut out = self;
        out.enable_tracing = enable;
        out
    }

    /// The same configuration with the metrics of batch processing set.
    pub fn with_batch_metrics(self, config: BatchMetricsConfig) -> (r: ObservabilityConfig)
        ensures
            r == (ObservabilityConfig { batch_metrics: config, ..self }),
    {
        let mut out = self;
        out.batch_metrics = config;
        out
    }

    /// The same configuration with the metrics of finality set.
    pub fn with_finality_metrics(self, config: FinalityMetricsConfig) -> (r: ObservabilityConfig)
        ensures
            r == (ObservabilityConfig { finality_metrics: config, ..self }),
    {
        let mut out = self;
        out.finality_metrics = config;
        out
    }
}

} // verus!
