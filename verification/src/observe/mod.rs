//! Observability: configuration, log lines, and counts.

pub mod config;
pub mod error;
pub mod performance;
pub mod tracing;

pub use config::{BatchMetricsConfig, FinalityMetricsConfig, LogFormat, ObservabilityConfig};
pub use error::{ObservabilityError, ObservabilityResult};
pub use performance::CacheStats;
pub use tracing::{CdkTracing, LogLevel, TracingConfig};
