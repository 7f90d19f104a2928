//! The error of observability.

use vstd::prelude::*;

verus! {

/// What can go wrong while the pipeline is observed.
#[derive(Debug, Clone, PartialEq, Eq)]
pub enum ObservabilityError {
    /// A metric could not be made or updated.
    MetricsError(String),
    /// Tracing could not be set up.
    TracingError(String),
    /// The configuration is wrong.
    ConfigError(String),
    /// Performance monitoring failed.
    PerformanceError(String),
    /// The cache failed.
    CacheError(String),
    /// Anything else.
    InternalError(String),
}

/// Result of an operation of observability.
pub type ObservabilityResult<T> = Result<T, ObservabilityError>;

} // verus!
