use cdk_pipeline::datastream::{
    Checkpoint, DatastreamError, FilesystemSource, FilesystemSourceConfig, GrpcSource,
    GrpcSourceConfig, HttpBatchSource, HttpBatchSourceConfig, SourceMetadata, WebSocketSource,
    WebSocketSourceConfig, WsMessage, WsStep,
};
use cdk_pipeline::types::{Batch, BatchId, FixedBytes, ProofMetadata, U256};
use std::time::Duration;

fn batch(number: u64) -> Batch {
    Batch::new(
        BatchId::new(U256::from(number), FixedBytes::from([number as u8; 32])),
        U256::from(100 + number),
        FixedBytes::from([2u8; 32]),
        vec![],
        ProofMetadata::default(),
        1,
    )
}

fn http() -> HttpBatchSource {
    HttpBatchSource::new(HttpBatchSourceConfig::default())
}

#[test]
fn source_metadata_builders() {
    let metadata = SourceMetadata::new("n".to_string(), "v".to_string(), "u".to_string(), false);
    assert_eq!(metadata.max_batch_size, None);
    assert!(metadata.available);
    assert!(!metadata.supports_checkpoints);
    let changed = metadata.clone().with_max_batch_size(50).with_availability(false);
    assert_eq!(changed.max_batch_size, Some(50));
    assert!(!changed.available);
    assert_eq!(changed.name, "n");
    assert_eq!(metadata.duplicate(), metadata);
}

#[test]
fn http_config_defaults() {
    let config = HttpBatchSourceConfig::default();
    assert_eq!(config.base_url, "http://localhost:8080");
    assert_eq!(config.api_key, None);
    assert_eq!(config.timeout, Duration::from_secs(30));
    assert_eq!(config.max_retries, 3);
    assert_eq!(config.retry_delay, Duration::from_secs(1));
    let source = HttpBatchSource::new(config);
    assert_eq!(source.metadata.version, "1.0");
    assert_eq!(source.metadata.url, "http://localhost:8080");
    assert!(source.metadata.supports_checkpoints);
}

#[test]
fn http_source_from_url() {
    let source = HttpBatchSource::from_url("https://example.com/base").unwrap();
    assert_eq!(source.config.base_url, "https://example.com/base");
    assert_eq!(source.metadata.url, "https://example.com/base");
    // the URL crate writes a bare host with its root path
    let bare = HttpBatchSource::from_url("http://localhost:8080").unwrap();
    assert_eq!(bare.config.base_url, "http://localhost:8080/");
    assert_eq!(
        HttpBatchSource::from_url("not a url").unwrap_err(),
        DatastreamError::ConfigError("Invalid URL: relative URL without a base".to_string())
    );
}

#[test]
fn http_request_urls_are_joined_to_the_base() {
    let source = HttpBatchSource::from_url("https://example.com/a/b").unwrap();
    assert_eq!(
        source.request_url("/api/v1/batches?from=4"),
        Ok("https://example.com/api/v1/batches?from=4".to_string())
    );
    assert_eq!(source.request_url("c"), Ok("https://example.com/a/c".to_string()));
    assert!(matches!(source.request_url("http://[bad"), Err(DatastreamError::ConfigError(_))));
    let mut broken = http();
    broken.config.base_url = "nowhere".to_string();
    assert_eq!(
        broken.request_url("/x"),
        Err(DatastreamError::ConfigError("Invalid path: relative URL without a base".to_string()))
    );
}

#[test]
fn http_authorization_header() {
    let mut source = http();
    assert_eq!(source.authorization(), None);
    source.config.api_key = Some("secret".to_string());
    assert_eq!(source.authorization(), Some("Bearer secret".to_string()));
}

#[test]
fn http_status_is_a_success_from_200_to_299() {
    assert_eq!(HttpBatchSource::check_status(200, "OK".to_string()), Ok(()));
    assert_eq!(HttpBatchSource::check_status(299, "".to_string()), Ok(()));
    assert_eq!(
        HttpBatchSource::check_status(199, "Early".to_string()),
        Err(DatastreamError::HttpError { status: 199, message: "Early".to_string() })
    );
    assert_eq!(
        HttpBatchSource::check_status(300, "Multiple".to_string()),
        Err(DatastreamError::HttpError { status: 300, message: "Multiple".to_string() })
    );
    assert_eq!(HttpBatchSource::health_from_status(204), Ok(()));
    assert_eq!(
        HttpBatchSource::health_from_status(503),
        Err(DatastreamError::SourceUnavailable("Health check failed".to_string()))
    );
}

#[test]
fn http_asks_for_the_batch_after_the_checkpoint() {
    let mut source = http();
    assert_eq!(source.batches_path(), "/api/v1/batches");
    source.set_checkpoint(Checkpoint::new(U256::from(41), FixedBytes::zero(), U256::zero(), 1)).unwrap();
    assert_eq!(source.batches_path(), "/api/v1/batches?from=42");
    source
        .set_checkpoint(Checkpoint::new(
            U256::from_limbs([u64::MAX; 4]),
            FixedBytes::zero(),
            U256::zero(),
            1,
        ))
        .unwrap();
    assert_eq!(source.batches_path(), "/api/v1/batches?from=0");
}

#[test]
fn http_hands_out_batches_with_rising_numbers() {
    let mut source = http();
    assert_eq!(
        source.checkpoint(),
        Err(DatastreamError::CheckpointError("No checkpoint available".to_string()))
    );
    // without a checkpoint the first batch is taken
    assert_eq!(source.accept_batches(vec![batch(4), batch(5)], 10), Ok(Some(batch(4))));
    assert_eq!(
        source.checkpoint(),
        Ok(Checkpoint::new(U256::from(4), FixedBytes::from([4u8; 32]), U256::from(104), 10))
    );
    // batches at or below the checkpoint are passed over
    assert_eq!(source.accept_batches(vec![batch(3), batch(4), batch(5), batch(6)], 11), Ok(Some(batch(5))));
    assert_eq!(source.checkpoint().unwrap().last_batch_id, U256::from(5));
    assert_eq!(source.checkpoint().unwrap().timestamp, 11);
    assert_eq!(source.accept_batches(vec![batch(5), batch(1)], 12), Ok(None));
    assert_eq!(source.accept_batches(vec![], 12), Ok(None));
    assert_eq!(source.checkpoint().unwrap().last_batch_id, U256::from(5));
    assert_eq!(source.checkpoint().unwrap().timestamp, 11);
}

#[test]
fn http_refuses_a_gap_after_a_valid_checkpoint() {
    let mut source = http();
    source.accept_batches(vec![batch(4)], 10).unwrap();
    assert_eq!(
        source.accept_batches(vec![batch(4), batch(6), batch(5)], 11),
        Err(DatastreamError::InvalidBatchData(
            "Gap in batch numbers: expected 5, got 6".to_string()
        ))
    );
    assert_eq!(source.checkpoint().unwrap().last_batch_id, U256::from(4));
    assert_eq!(source.accept_batches(vec![batch(5)], 12), Ok(Some(batch(5))));
    // a checkpoint that is not valid says nothing of what has to follow
    source
        .set_checkpoint(Checkpoint::new(U256::from(5), FixedBytes::zero(), U256::zero(), 1))
        .unwrap();
    assert_eq!(source.accept_batches(vec![batch(5), batch(9)], 13), Ok(Some(batch(9))));
    source
        .set_checkpoint(Checkpoint::new(U256::from(9), FixedBytes::from([1u8; 32]), U256::zero(), 0))
        .unwrap();
    assert_eq!(source.accept_batches(vec![batch(20)], 14), Ok(Some(batch(20))));
    // nothing follows the largest number
    source
        .set_checkpoint(Checkpoint::new(
            U256::from_limbs([u64::MAX; 4]),
            FixedBytes::from([1u8; 32]),
            U256::zero(),
            1,
        ))
        .unwrap();
    assert_eq!(source.accept_batches(vec![batch(20)], 15), Ok(None));
}

#[test]
fn http_metadata_falls_back_to_what_the_source_holds() {
    let source = http();
    let fetched = SourceMetadata::new("remote".to_string(), "2".to_string(), "x".to_string(), false);
    assert_eq!(source.metadata_or_cached(Ok(fetched.clone())), fetched);
    assert_eq!(
        source.metadata_or_cached(Err(DatastreamError::NetworkError("down".to_string()))),
        source.metadata
    );
}

#[test]
fn retryable_datastream_errors() {
    let text = || "x".to_string();
    assert!(DatastreamError::NetworkError(text()).is_retryable());
    assert!(DatastreamError::HttpError { status: 500, message: text() }.is_retryable());
    assert!(DatastreamError::TimeoutError(text()).is_retryable());
    assert!(DatastreamError::ConnectionError(text()).is_retryable());
    assert!(DatastreamError::SourceUnavailable(text()).is_retryable());
    assert!(!DatastreamError::DeserializationError(text()).is_retryable());
    assert!(!DatastreamError::InvalidBatchData(text()).is_retryable());
    assert!(!DatastreamError::SerializationError(text()).is_retryable());
    assert!(!DatastreamError::CheckpointError(text()).is_retryable());
    assert!(!DatastreamError::ConfigError(text()).is_retryable());
    assert!(!DatastreamError::InternalError(text()).is_retryable());
    assert!(!DatastreamError::CommunicationError(text()).is_retryable());
    assert!(!DatastreamError::IoError(text()).is_retryable());
}

#[test]
fn websocket_messages() {
    assert_eq!(
        WebSocketSource::subscribe_message(),
        r#"{"jsonrpc":"2.0","method":"cdk_subscribeBatches","params":[],"id":1}"#
    );
    assert_eq!(
        WebSocketSource::on_message(WsMessage::Text("{}".to_string())),
        WsStep::DecodeText("{}".to_string())
    );
    assert_eq!(
        WebSocketSource::on_message(WsMessage::Binary(vec![1, 2])),
        WsStep::DecodeBinary(vec![1, 2])
    );
    assert_eq!(WebSocketSource::on_message(WsMessage::Ping(vec![7])), WsStep::Pong(vec![7]));
    assert_eq!(WebSocketSource::on_message(WsMessage::Pong(vec![7])), WsStep::Skip);
    assert_eq!(WebSocketSource::on_message(WsMessage::Frame), WsStep::Skip);
    assert_eq!(WebSocketSource::on_message(WsMessage::Close), WsStep::Stop);
    assert_eq!(WebSocketSource::on_decoded(Ok(batch(1))), Ok(batch(1)));
    assert_eq!(
        WebSocketSource::on_decoded(Err("bad json".to_string())),
        Err(DatastreamError::DeserializationError("bad json".to_string()))
    );
    assert_eq!(
        WebSocketSource::on_read_error("reset".to_string()),
        DatastreamError::ConnectionError("reset".to_string())
    );
    assert_eq!(
        WebSocketSource::on_pong_error("closed".to_string()),
        DatastreamError::CommunicationError("closed".to_string())
    );
    let source = WebSocketSource::new(WebSocketSourceConfig { url: "ws://host/".to_string() });
    let metadata = source.metadata();
    assert_eq!(metadata.name, "WebSocket Source");
    assert_eq!(metadata.url, "ws://host/");
}

#[test]
fn grpc_source() {
    let source = GrpcSource::new(GrpcSourceConfig { url: "http://host:50051".to_string() });
    let metadata = source.metadata();
    assert_eq!(metadata.name, "gRPC Source");
    assert_eq!(metadata.version, "1.0");
    assert_eq!(metadata.url, "http://host:50051");
    assert!(metadata.supports_checkpoints);
    assert_eq!(
        GrpcSource::invalid_url("no scheme"),
        DatastreamError::ConnectionError("Invalid gRPC URL: no scheme".to_string())
    );
    assert_eq!(
        GrpcSource::connect_failed("refused"),
        DatastreamError::ConnectionError("Failed to connect to gRPC: refused".to_string())
    );
}

#[test]
fn filesystem_extension_matching() {
    assert!(FilesystemSource::has_extension("batch_001.json", "json"));
    assert!(!FilesystemSource::has_extension("batch_001.json", "rlp"));
    assert!(!FilesystemSource::has_extension("batch_001.json", "jso"));
    assert!(!FilesystemSource::has_extension("batch_001.json", "son"));
    assert!(FilesystemSource::has_extension("a.tar.json", "json"));
    assert!(!FilesystemSource::has_extension("a.json.bak", "json"));
    assert!(!FilesystemSource::has_extension("json", "json"));
    assert!(!FilesystemSource::has_extension(".json", "json"));
    assert!(FilesystemSource::has_extension("a.", ""));
    assert!(!FilesystemSource::has_extension("a", ""));
    assert!(!FilesystemSource::has_extension("", ""));
    assert!(FilesystemSource::has_extension("é.ján", "ján"));
    let source = FilesystemSource::new(FilesystemSourceConfig {
        path: "/data/batches".to_string(),
        file_extension: "json".to_string(),
    });
    assert!(source.wants_file("1.json"));
    assert!(!source.wants_file("1.txt"));
}

#[test]
fn filesystem_batches_from_the_start_on() {
    assert!(FilesystemSource::wants_batch(&batch(5), None));
    assert!(FilesystemSource::wants_batch(&batch(5), Some(5)));
    assert!(FilesystemSource::wants_batch(&batch(5), Some(0)));
    assert!(!FilesystemSource::wants_batch(&batch(5), Some(6)));
    assert_eq!(FilesystemSource::on_file(Ok(batch(5)), Some(5)), Some(Ok(batch(5))));
    assert_eq!(FilesystemSource::on_file(Ok(batch(5)), Some(6)), None);
    let failure = DatastreamError::IoError("Failed to open file".to_string());
    assert_eq!(FilesystemSource::on_file(Err(failure.clone()), Some(6)), Some(Err(failure)));
}

#[test]
fn filesystem_source_describes_itself() {
    let source = FilesystemSource::new(FilesystemSourceConfig {
        path: "/data/batches".to_string(),
        file_extension: "json".to_string(),
    });
    let metadata = source.metadata();
    assert_eq!(metadata.name, "Filesystem Source");
    assert_eq!(metadata.url, "/data/batches");
    assert_eq!(
        source.missing_directory(),
        DatastreamError::IoError("Directory does not exist: /data/batches".to_string())
    );
    assert_eq!(
        source.not_a_directory(),
        DatastreamError::IoError("Path is not a directory: /data/batches".to_string())
    );
}

#[test]
fn filesystem_files_are_read_in_the_order_of_their_names() {
    let source = FilesystemSource::new(FilesystemSourceConfig {
        path: "/data/batches".to_string(),
        file_extension: "json".to_string(),
    });
    let names: Vec<String> = [
        "batch_10.json",
        "notes.txt",
        "batch_2.json",
        "batch_1.json",
        "Batch_3.json",
        "batch_1.json.bak",
        ".json",
        "batch_1.json",
        "batch_.json",
        "é.json",
        "batch_1",
    ]
    .iter()
    .map(|n| n.to_string())
    .collect();
    let mut expected: Vec<String> =
        names.iter().filter(|n| n.ends_with(".json") && n.len() > 5).cloned().collect();
    expected.sort_unstable();
    assert_eq!(source.select_files(names), expected);
    assert_eq!(
        expected,
        vec!["Batch_3.json", "batch_.json", "batch_1.json", "batch_1.json", "batch_10.json", "batch_2.json", "é.json"]
    );
    assert_eq!(source.select_files(vec![]), Vec::<String>::new());
    assert!(FilesystemSource::text_less("a", "b"));
    assert!(FilesystemSource::text_less("", "a"));
    assert!(FilesystemSource::text_less("a", "ab"));
    assert!(!FilesystemSource::text_less("ab", "a"));
    assert!(!FilesystemSource::text_less("a", "a"));
    assert!(!FilesystemSource::text_less("", ""));
    assert!(FilesystemSource::text_less("Z", "a"));
    assert!(FilesystemSource::text_less("z", "é"));
}
