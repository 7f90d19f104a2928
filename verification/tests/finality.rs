use cdk_pipeline::finality::l1_client::{invalid_rpc_url, rpc_failed};
use cdk_pipeline::finality::l1_contract::{tag_from_event, tags_from_events};
use cdk_pipeline::finality::{
    BatchFinalized, BatchRolledBack, FinalityError, FinalityOracleConfig, L1Block, L1ClientConfig,
    OracleMetadata, PollPlan, RealFinalityOracle,
};
use cdk_pipeline::types::{FinalityStatus, FinalityTag, FixedBytes, U256};
use std::time::Duration;

fn finalized(batch: u64, block: u64, time: u64) -> BatchFinalized {
    BatchFinalized {
        batch_id: U256::from(batch),
        l1_block_number: U256::from(block),
        timestamp: U256::from(time),
    }
}

fn rolled_back(batch: u64, block: u64, time: u64) -> BatchRolledBack {
    BatchRolledBack {
        batch_id: U256::from(batch),
        l1_block_number: U256::from(block),
        timestamp: U256::from(time),
    }
}

fn tag(batch: u64, block: u64, time: u64, status: FinalityStatus) -> FinalityTag {
    FinalityTag::new(U256::from(batch), U256::from(block), FixedBytes::zero(), status, time, None)
}

#[test]
fn test_l1_client_config_default() {
    let config = L1ClientConfig::default();
    assert_eq!(config.rpc_url, "http://localhost:8545");
    assert_eq!(config.timeout, Duration::from_secs(30));
    assert_eq!(config.max_retries, 3);
}

#[test]
fn test_oracle_metadata_creation() {
    let metadata = OracleMetadata::new(
        "Test Oracle".to_string(),
        "1.0".to_string(),
        1,
        FixedBytes::zero(),
    );

    assert_eq!(metadata.name, "Test Oracle");
    assert_eq!(metadata.version, "1.0");
    assert_eq!(metadata.l1_chain_id, 1);
    assert!(metadata.active);
}

#[test]
fn test_oracle_metadata_update() {
    let metadata = OracleMetadata::new(
        "Test Oracle".to_string(),
        "1.0".to_string(),
        1,
        FixedBytes::zero(),
    ).update_l1_block(1000);

    assert_eq!(metadata.current_l1_block, 1000);
    assert!(metadata.last_check > 0);
}

#[test]
fn oracle_metadata_builders() {
    let metadata =
        OracleMetadata::new("o".to_string(), "1".to_string(), 5, FixedBytes::from([1u8; 20]));
    assert_eq!(metadata.current_l1_block, 0);
    assert_eq!(metadata.last_check, 0);
    let at = metadata.clone().update_l1_block_at(77, 1234);
    assert_eq!((at.current_l1_block, at.last_check), (77, 1234));
    assert_eq!(at.name, "o");
    assert!(!metadata.set_active(false).active);
}

#[test]
fn oracle_config_defaults() {
    let config = FinalityOracleConfig::default();
    assert_eq!(config.l1_rpc_url, "http://localhost:8545");
    assert!(config.bridge_address.is_zero());
    assert_eq!(config.polling_interval, Duration::from_secs(12));
    assert_eq!(config.max_retries, 3);
    assert_eq!(config.retry_delay, Duration::from_secs(1));
    assert_eq!(config.confirmation_blocks, 12);
    assert!(config.strict_mode);
    let client = L1ClientConfig::default();
    assert_eq!(client.retry_delay, Duration::from_secs(1));
    assert_eq!(client.api_key, None);
    assert_eq!(L1ClientConfig::from_rpc_url("http://node:1").rpc_url, "http://node:1");
}

#[test]
fn l1_calls_are_retried_three_times_with_backoff() {
    let config = L1ClientConfig::default();
    let passing = FinalityError::L1RpcError("down".to_string());
    assert_eq!(config.after_failure(0, &passing), Some(Duration::from_secs(1)));
    assert_eq!(config.after_failure(1, &passing), Some(Duration::from_secs(2)));
    assert_eq!(config.after_failure(2, &passing), Some(Duration::from_secs(4)));
    assert_eq!(config.after_failure(3, &passing), None);
    let fatal = FinalityError::RollbackError("deep".to_string());
    assert_eq!(config.after_failure(0, &fatal), None);
    assert!(FinalityError::ContractCallError(String::new()).is_retryable());
    assert!(FinalityError::NetworkError(String::new()).is_retryable());
    assert!(FinalityError::TimeoutError(String::new()).is_retryable());
    assert!(!FinalityError::ConfigError(String::new()).is_retryable());
    assert!(!FinalityError::InvalidFinalityData(String::new()).is_retryable());
}

#[test]
fn l1_error_texts() {
    assert_eq!(
        invalid_rpc_url("empty host"),
        FinalityError::ConfigError("Invalid RPC URL: empty host".to_string())
    );
    assert_eq!(
        rpc_failed("get block number", "timeout"),
        FinalityError::L1RpcError("Failed to get block number: timeout".to_string())
    );
    let block =
        L1Block::from_header(5, FixedBytes::from([1u8; 32]), FixedBytes::zero(), 9, 30, 20, Some(7));
    assert_eq!(block.number, 5);
    assert_eq!(block.base_fee_per_gas, Some(7));
    assert!(block.transactions.is_empty());
}

#[test]
fn tags_list_finalizations_before_rollbacks() {
    let tags = tags_from_events(
        &vec![finalized(2, 100, 1000), finalized(1, 101, 1001)],
        &vec![rolled_back(5, 99, 999), rolled_back(4, 102, 1002)],
    );
    assert_eq!(
        tags,
        Ok(vec![
            tag(2, 100, 1000, FinalityStatus::Finalized),
            tag(1, 101, 1001, FinalityStatus::Finalized),
            tag(5, 99, 999, FinalityStatus::RolledBack),
            tag(4, 102, 1002, FinalityStatus::RolledBack),
        ])
    );
    assert_eq!(tags_from_events(&vec![], &vec![]), Ok(vec![]));
}

#[test]
fn event_times_beyond_64_bits_are_refused() {
    let mut late = rolled_back(5, 99, 999);
    late.timestamp = U256::from_limbs([0, 1, 0, 0]);
    assert!(matches!(
        tags_from_events(&vec![finalized(2, 100, 1000)], &vec![late]),
        Err(FinalityError::InvalidFinalityData(_))
    ));
    assert_eq!(
        tag_from_event(U256::from(1), U256::from(2), late.timestamp, FinalityStatus::Finalized),
        None
    );
    assert_eq!(
        tag_from_event(U256::from(1), U256::from(2), U256::from(u64::MAX), FinalityStatus::Pending),
        Some(tag(1, 2, u64::MAX, FinalityStatus::Pending))
    );
}

#[test]
fn oracle_polls_no_more_often_than_its_interval() {
    let mut oracle = RealFinalityOracle::new(Duration::from_secs(12), 100);
    assert!(oracle.should_poll(0));
    assert_eq!(oracle.plan(50, 105), PollPlan::Query { from_block: 101, to_block: 105 });
    let tags = oracle
        .complete_poll(50, 105, &vec![finalized(2, 103, 40)], &vec![rolled_back(3, 104, 45)])
        .unwrap();
    assert_eq!(
        tags,
        vec![tag(2, 103, 40, FinalityStatus::Finalized), tag(3, 104, 45, FinalityStatus::RolledBack)]
    );
    assert_eq!(oracle.last_poll, Some(50));
    assert_eq!(oracle.last_poll_block, 105);

    assert!(!oracle.should_poll(50));
    assert!(!oracle.should_poll(61));
    assert_eq!(oracle.plan(61, 200), PollPlan::Wait);
    assert!(oracle.should_poll(62));
    assert_eq!(oracle.plan(62, 105), PollPlan::Idle);
    assert_eq!(oracle.plan(62, 90), PollPlan::Idle);
    assert_eq!(oracle.plan(62, 106), PollPlan::Query { from_block: 106, to_block: 106 });
    // a clock that went back does not hold the poll up
    assert!(oracle.should_poll(10));

    oracle.set_polling_interval(Duration::from_secs(0));
    assert_eq!(oracle.get_polling_interval(), Duration::from_secs(0));
    assert!(oracle.should_poll(50));
}

#[test]
fn a_poll_with_a_bad_event_is_not_remembered() {
    let mut oracle = RealFinalityOracle::new(Duration::from_secs(12), 100);
    let mut bad = finalized(2, 103, 40);
    bad.timestamp = U256::from_limbs([0, 0, 1, 0]);
    assert!(oracle.complete_poll(50, 105, &vec![bad], &vec![]).is_err());
    assert_eq!(oracle.last_poll, None);
    assert_eq!(oracle.last_poll_block, 100);
    // the block polled last never moves back
    oracle.complete_poll(60, 90, &vec![], &vec![]).unwrap();
    assert_eq!(oracle.last_poll_block, 100);
    assert_eq!(oracle.last_poll, Some(60));
}
