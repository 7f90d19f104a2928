use cdk_pipeline::cli::common::{
    format_duration, parse_checkpoint, retry_delay, retry_delay_secs, starts_with, validate_url,
};
use cdk_pipeline::cli::{ExitCode, FinalityCommand, IngestCommand};
use cdk_pipeline::types::CdkError;
use std::time::Duration;

#[test]
fn common_test_parse_checkpoint() {
    assert!(parse_checkpoint("auto").unwrap().is_none());
    assert!(parse_checkpoint("latest").unwrap().is_none());
}

#[test]
fn common_test_validate_url() {
    assert!(validate_url("http://localhost:8080").is_ok());
    assert!(validate_url("https://example.com").is_ok());
    assert!(validate_url("invalid-url").is_err());
}

#[test]
fn common_test_retry_delay() {
    let delay1 = retry_delay(0);
    let delay2 = retry_delay(1);
    let delay3 = retry_delay(10);

    assert!(delay2 > delay1);
    assert_eq!(delay3, Duration::from_secs(60)); // Max delay
}

#[test]
fn common_test_format_duration() {
    assert_eq!(format_duration(Duration::from_secs(30)), "30s");
    assert_eq!(format_duration(Duration::from_secs(90)), "1m 30s");
    assert_eq!(format_duration(Duration::from_secs(3661)), "1h 1m 1s");
}

#[test]
fn test_ingest_command_creation() {
    let cmd = IngestCommand {
        datastream: "http://localhost:8080/batches".to_string(),
        from_checkpoint: "auto".to_string(),
        reth_rpc: "http://localhost:8545".to_string(),
        max_batches: 10,
        enable_metrics: true,
    };

    assert_eq!(cmd.datastream, "http://localhost:8080/batches");
    assert_eq!(cmd.from_checkpoint, "auto");
    assert_eq!(cmd.reth_rpc, "http://localhost:8545");
    assert_eq!(cmd.max_batches, 10);
    assert!(cmd.enable_metrics);
}

#[test]
fn test_finality_command_creation() {
    let cmd = FinalityCommand {
        l1_rpc: "http://localhost:8545".to_string(),
        bridge: "0x1234567890123456789012345678901234567890".to_string(),
        reth_rpc: "http://localhost:8545".to_string(),
        poll_interval: 30,
        enable_metrics: true,
    };

    assert_eq!(cmd.l1_rpc, "http://localhost:8545");
    assert_eq!(cmd.bridge, "0x1234567890123456789012345678901234567890");
    assert_eq!(cmd.reth_rpc, "http://localhost:8545");
    assert_eq!(cmd.poll_interval, 30);
    assert!(cmd.enable_metrics);
}

#[test]
fn integration_test_parse_checkpoint() {
    assert!(parse_checkpoint("auto").unwrap().is_none());
    assert!(parse_checkpoint("latest").unwrap().is_none());
}

#[test]
fn integration_test_validate_url() {
    assert!(validate_url("http://localhost:8080").is_ok());
    assert!(validate_url("https://example.com").is_ok());
    assert!(validate_url("invalid-url").is_err());
}

#[test]
fn integration_test_retry_delay() {
    let delay1 = retry_delay(0);
    let delay2 = retry_delay(1);
    let delay3 = retry_delay(10);

    assert!(delay2 > delay1);
    assert_eq!(delay3, Duration::from_secs(60)); // Max delay
}

#[test]
fn integration_test_format_duration() {
    assert_eq!(format_duration(Duration::from_secs(30)), "30s");
    assert_eq!(format_duration(Duration::from_secs(90)), "1m 30s");
    assert_eq!(format_duration(Duration::from_secs(3661)), "1h 1m 1s");
}

#[test]
fn retry_delay_doubles_up_to_the_cap() {
    let expected: [u64; 8] = [1, 2, 4, 8, 16, 32, 60, 60];
    for (attempt, secs) in expected.iter().enumerate() {
        assert_eq!(retry_delay_secs(attempt as u32), *secs);
        assert_eq!(retry_delay(attempt as u32), Duration::from_secs(*secs));
    }
    assert_eq!(retry_delay_secs(u32::MAX), 60);
}

#[test]
fn format_duration_edges() {
    assert_eq!(format_duration(Duration::from_secs(0)), "0s");
    assert_eq!(format_duration(Duration::from_secs(59)), "59s");
    assert_eq!(format_duration(Duration::from_secs(60)), "1m 0s");
    assert_eq!(format_duration(Duration::from_secs(3600)), "1h 0m 0s");
    assert_eq!(format_duration(Duration::from_secs(360000)), "100h 0m 0s");
    assert_eq!(format_duration(Duration::from_millis(1999)), "1s");
}

#[test]
fn validate_url_names_the_text_it_refuses() {
    assert_eq!(
        validate_url("ftp://example.com"),
        Err(CdkError::ConfigError("Invalid URL format: ftp://example.com".to_string()))
    );
    assert!(validate_url("http://").is_ok());
    assert!(validate_url("http:/").is_err());
    assert!(validate_url("").is_err());
    assert!(validate_url("HTTP://upper.case").is_err());
}

#[test]
fn starts_with_compares_whole_characters() {
    assert!(starts_with("héllo", "hé"));
    assert!(!starts_with("hello", "hé"));
    assert!(starts_with("abc", ""));
    assert!(!starts_with("ab", "abc"));
}

#[test]
fn parse_checkpoint_leaves_any_text_to_the_source() {
    assert_eq!(parse_checkpoint("12345"), Ok(None));
    assert_eq!(parse_checkpoint(""), Ok(None));
}

#[test]
fn exit_codes() {
    assert_eq!(ExitCode::Normal.code(), 0);
    assert_eq!(ExitCode::Error.code(), 1);
    assert_eq!(ExitCode::Config.code(), 2);
    assert_eq!(ExitCode::Cancelled.code(), 130);
}
