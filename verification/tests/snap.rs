use cdk_pipeline::snap::converter::conversion_metadata;
use cdk_pipeline::snap::{
    ConversionOptions, DatabaseType, ErigonToRethConverter, RecordType, RethToErigonConverter,
    SnapError, SnapMetadata, SnapRecord, SnapValidator, CDK_SNAP_VERSION,
};
use cdk_pipeline::types::U256;

fn record(key: &[u8], value: &[u8]) -> SnapRecord {
    SnapRecord {
        key: key.to_vec(),
        value: value.to_vec(),
        record_type: RecordType::BlockHeader,
        block_number: Some(U256::from(123)),
    }
}

#[test]
fn test_metadata_validation() {
    let validator = SnapValidator;

    // Valid metadata
    let valid_metadata = SnapMetadata {
        version: 1,
        timestamp: 1234567890,
        source_type: DatabaseType::Reth,
        target_type: DatabaseType::ErigonMdbx,
        checksum: "test_checksum".to_string(),
        record_count: 100,
        total_size: 1024,
    };

    let result = validator.validate_metadata(&valid_metadata);
    assert!(result.is_ok());

    // Invalid metadata - wrong version
    let invalid_metadata = SnapMetadata {
        version: 2,
        timestamp: 1234567890,
        source_type: DatabaseType::Reth,
        target_type: DatabaseType::ErigonMdbx,
        checksum: "test_checksum".to_string(),
        record_count: 100,
        total_size: 1024,
    };

    let result = validator.validate_metadata(&invalid_metadata);
    assert!(result.is_err());
}

#[test]
fn test_record_validation() {
    let validator = SnapValidator;

    // Valid record
    let valid_record = SnapRecord {
        key: b"test_key".to_vec(),
        value: b"test_value".to_vec(),
        record_type: RecordType::BlockHeader,
        block_number: Some(U256::from(123)),
    };

    let result = validator.validate_record(&valid_record);
    assert!(result.is_ok());

    // Invalid record - empty key
    let invalid_record = SnapRecord {
        key: vec![],
        value: b"test_value".to_vec(),
        record_type: RecordType::BlockHeader,
        block_number: Some(U256::from(123)),
    };

    let result = validator.validate_record(&invalid_record);
    assert!(result.is_err());
}

#[test]
fn test_conversion_options_default() {
    let options = ConversionOptions::default();
    assert!(options.compress);
    assert_eq!(options.compression_level, 6);
    assert_eq!(options.batch_size, 1000);
    assert!(options.validate_checksums);
    assert_eq!(options.progress_interval, 1000);
}

#[test]
fn test_reth_to_erigon_conversion() {
    let converter = RethToErigonConverter;
    let metadata = converter.metadata_at(1234);
    assert_eq!(metadata.version, 1);
    assert_eq!(metadata.source_type, DatabaseType::Reth);
    assert_eq!(metadata.target_type, DatabaseType::ErigonMdbx);
}

#[test]
fn test_erigon_to_reth_conversion() {
    let converter = ErigonToRethConverter;
    let metadata = converter.metadata_at(1234);
    assert_eq!(metadata.version, 1);
    assert_eq!(metadata.source_type, DatabaseType::ErigonMdbx);
    assert_eq!(metadata.target_type, DatabaseType::Reth);
}

#[test]
fn test_snapshot_validation() {
    let validator = SnapValidator;
    let result = validator.validate_content(b"test snapshot data");
    assert!(result.is_ok());
}

#[test]
fn snapshot_metadata_errors() {
    let validator = SnapValidator;
    let mut metadata = conversion_metadata(DatabaseType::Reth, DatabaseType::Snapshot, 5);
    assert_eq!(
        metadata.checksum,
        "e3b0c44298fc1c149afbf4c8996fb92427ae41e4649b934ca495991b7852b855"
    );
    assert_eq!((metadata.version, metadata.timestamp), (CDK_SNAP_VERSION, 5));
    assert_eq!(
        validator.validate_metadata(&metadata),
        Err(SnapError::Validation("Empty snapshot".to_string()))
    );
    metadata.version = 0;
    assert_eq!(
        validator.validate_metadata(&metadata),
        Err(SnapError::VersionMismatch { expected: 1, actual: 0 })
    );
    metadata.version = 1;
    metadata.record_count = 1;
    assert_eq!(validator.validate_metadata(&metadata), Ok(()));
}

#[test]
fn snapshot_content_checksum_is_sha256() {
    let validator = SnapValidator;
    assert_eq!(
        validator.validate_content(b"abc"),
        Ok("ba7816bf8f01cfea414140de5dae2223b00361a396177a9cb410ff61f20015ad".to_string())
    );
    assert_eq!(
        validator.validate_content(b""),
        Err(SnapError::Validation("Empty snapshot file".to_string()))
    );
    assert_eq!(
        SnapValidator::missing_file(),
        SnapError::Io("Snapshot file not found".to_string())
    );
}

#[test]
fn records_are_checked_in_order() {
    let validator = SnapValidator;
    assert_eq!(
        validator.validate_record(&record(b"", b"")),
        Err(SnapError::Validation("Empty record key".to_string()))
    );
    assert_eq!(
        validator.validate_record(&record(b"k", b"")),
        Err(SnapError::Validation("Empty record value".to_string()))
    );
    assert_eq!(validator.validate_records(&vec![]), Ok(()));
    assert_eq!(validator.validate_records(&vec![record(b"a", b"b"), record(b"c", b"d")]), Ok(()));
    assert_eq!(
        validator.validate_records(&vec![record(b"a", b"b"), record(b"c", b""), record(b"", b"d")]),
        Err(SnapError::Validation("Record 1: Validation error: Empty record value".to_string()))
    );
}
