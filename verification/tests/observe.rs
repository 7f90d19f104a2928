use cdk_pipeline::observe::performance::{count_successes, gauge_height};
use cdk_pipeline::observe::{
    BatchMetricsConfig, CacheStats, CdkTracing, FinalityMetricsConfig, LogFormat, LogLevel,
    ObservabilityConfig, ObservabilityError, TracingConfig,
};
use cdk_pipeline::types::U256;

#[test]
fn test_batch_metrics_config() {
    let config = BatchMetricsConfig::default();
    assert!(config.enable_batch_height);
    assert!(config.enable_epoch_height);
    assert!(config.enable_ingest_tps);
    assert!(config.enable_processing_time);
}

#[test]
fn test_finality_metrics_config() {
    let config = FinalityMetricsConfig::default();
    assert!(config.enable_l1_lag);
    assert!(config.enable_reorg_count);
    assert!(config.enable_finality_status);
    assert!(config.enable_rollback_metrics);
}

#[test]
fn test_log_format_enum() {
    let json_format = LogFormat::Json;
    let pretty_format = LogFormat::Pretty;
    let compact_format = LogFormat::Compact;

    // Test that enum variants can be created without panicking
    assert!(matches!(json_format, LogFormat::Json));
    assert!(matches!(pretty_format, LogFormat::Pretty));
    assert!(matches!(compact_format, LogFormat::Compact));
}

#[test]
fn test_default_config() {
    let config = ObservabilityConfig::default();
    assert!(config.enable_logging);
    assert!(config.enable_metrics);
    assert!(config.enable_tracing);
    assert_eq!(config.log_level, "info");
    assert!(matches!(config.log_format, LogFormat::Pretty));
}

#[test]
fn test_config_builder() {
    let config = ObservabilityConfig::new()
        .with_logging("debug", LogFormat::Json)
        .with_metrics("127.0.0.1:9090")
        .with_tracing(true);

    assert_eq!(config.log_level, "debug");
    assert!(matches!(config.log_format, LogFormat::Json));
    assert_eq!(config.metrics_address.to_string(), "127.0.0.1:9090");
    assert!(config.enable_tracing);
}

#[test]
fn test_observability_config_creation() {
    let config = ObservabilityConfig::default();
    assert!(config.enable_logging);
    assert!(config.enable_metrics);
    assert!(config.enable_tracing);
    assert_eq!(config.log_level, "info");
}

#[test]
fn test_config_builder_pattern() {
    let config = ObservabilityConfig::new()
        .with_logging("debug", LogFormat::Json)
        .with_metrics("127.0.0.1:9090")
        .with_tracing(true);

    assert_eq!(config.log_level, "debug");
    assert!(matches!(config.log_format, LogFormat::Json));
    assert_eq!(config.metrics_address.to_string(), "127.0.0.1:9090");
    assert!(config.enable_tracing);
}

#[test]
fn tracing_test_tracing_config_creation() {
    let config = ObservabilityConfig::default();
    let tracing_config = TracingConfig::new(&config);

    assert_eq!(tracing_config.level, LogLevel::Info);
}

#[test]
fn integration_test_tracing_config_creation() {
    let config = ObservabilityConfig::default();
    let _tracing_config = TracingConfig::new(&config);
}

#[test]
fn tracing_test_logging_functions() {
    let batch_id = U256::from(1);

    assert_eq!(
        CdkTracing::log_ingestion_start(batch_id, 10),
        "Starting ingestion for batch 1 with 10 blocks"
    );
    assert_eq!(
        CdkTracing::log_ingestion_complete(batch_id, 100),
        "Completed ingestion for batch 1 in 100ms"
    );
    assert_eq!(
        CdkTracing::log_finality_update(batch_id, "finalized"),
        "Finality update for batch 1: finalized"
    );
    assert_eq!(
        CdkTracing::log_reorg_detected(U256::from(1), U256::from(2)),
        "Reorg detected: batch 1 replaced by 2"
    );
    assert_eq!(
        CdkTracing::log_error("test_operation", "test_error"),
        "Error in test_operation: test_error"
    );
}

#[test]
fn test_cache_stats() {
    let stats = CacheStats {
        hits: 80,
        misses: 20,
        inserts: 100,
        evictions: 10,
    };

    assert_eq!(stats.hit_rate_basis_points(), 8000);
}

#[test]
fn log_levels_by_word() {
    let level = |word: &str| {
        TracingConfig::new(&ObservabilityConfig::new().with_logging(word, LogFormat::Compact)).level
    };
    assert_eq!(level("trace"), LogLevel::Trace);
    assert_eq!(level("debug"), LogLevel::Debug);
    assert_eq!(level("info"), LogLevel::Info);
    assert_eq!(level("warn"), LogLevel::Warn);
    assert_eq!(level("error"), LogLevel::Error);
    assert_eq!(level("loud"), LogLevel::Info);
    assert_eq!(level("INFO"), LogLevel::Info);
    assert_eq!(level("WARN"), LogLevel::Info);
    assert_eq!(TracingConfig { level: LogLevel::Warn }.directive(), "WARN");
    assert_eq!(TracingConfig { level: LogLevel::Trace }.directive(), "TRACE");
}

#[test]
fn config_builders_keep_the_rest() {
    let batch = BatchMetricsConfig { enable_batch_height: false, ..BatchMetricsConfig::default() };
    let finality =
        FinalityMetricsConfig { enable_l1_lag: false, ..FinalityMetricsConfig::default() };
    let config = ObservabilityConfig::new()
        .with_tracing(false)
        .with_batch_metrics(batch)
        .with_finality_metrics(finality);
    assert!(!config.enable_tracing);
    assert_eq!(config.batch_metrics, batch);
    assert_eq!(config.finality_metrics, finality);
    assert_eq!(config.metrics_address, "127.0.0.1:9000");
    assert_eq!(config.log_level, "info");
}

#[test]
fn cache_counts() {
    let mut stats = CacheStats::new();
    assert_eq!(stats.hit_rate_basis_points(), 0);
    stats.record_lookup(true);
    stats.record_lookup(false);
    stats.record_lookup(false);
    stats.record_insert();
    assert_eq!(stats, CacheStats { hits: 1, misses: 2, inserts: 1, evictions: 0 });
    assert_eq!(stats.hit_rate_basis_points(), 3333);
    let full = CacheStats { hits: u64::MAX, misses: u64::MAX, inserts: u64::MAX, evictions: 0 };
    assert_eq!(full.hit_rate_basis_points(), 5000);
    let mut top = full;
    top.record_lookup(true);
    top.record_insert();
    assert_eq!(top, full);
    assert_eq!(CacheStats::default(), CacheStats::new());
}

#[test]
fn gauges_and_counts() {
    assert_eq!(gauge_height(U256::from(100)), Some(100));
    assert_eq!(gauge_height(U256::from_limbs([0, 1, 0, 0])), None);
    let results = vec![
        Ok(()),
        Err(ObservabilityError::CacheError("x".to_string())),
        Ok(()),
        Ok(()),
    ];
    assert_eq!(count_successes(&results), 3);
    assert_eq!(count_successes(&vec![]), 0);
}

#[test]
fn integration_test_logging_functions() {
    let batch_id = U256::from(1);

    // the lines are made without panicking, even for the largest number
    CdkTracing::log_ingestion_start(batch_id, 10);
    CdkTracing::log_ingestion_complete(batch_id, 100);
    CdkTracing::log_finality_update(batch_id, "finalized");
    CdkTracing::log_reorg_detected(U256::from(1), U256::from(2));
    CdkTracing::log_error("test_operation", "test_error");
    assert_eq!(
        CdkTracing::log_ingestion_start(U256::from_limbs([0, 1, 0, 0]), usize::MAX),
        format!("Starting ingestion for batch 18446744073709551616 with {} blocks", usize::MAX)
    );
}
