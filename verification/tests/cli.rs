use cdk_pipeline::cli::{
    ExitCode, FinalityCommand, FinalityStep, IngestCommand, IngestLoop, LoopStep, SourceEvent,
};
use cdk_pipeline::datastream::DatastreamError;
use cdk_pipeline::engine::{EngineFacadeError, ImportResult};
use cdk_pipeline::finality::FinalityError;
use cdk_pipeline::ingest::IngestError;
use cdk_pipeline::pipeline::{FinalityFailure, IngestFailure, IngestOutcome};
use cdk_pipeline::types::{Batch, BatchId, FixedBytes, ProofMetadata, U256};
use std::time::Duration;

fn batch(number: u64) -> Batch {
    Batch::new(
        BatchId::new(U256::from(number), FixedBytes::from([number as u8; 32])),
        U256::from(100),
        FixedBytes::from([2u8; 32]),
        vec![],
        ProofMetadata::default(),
        1,
    )
}

fn committed() -> Result<IngestOutcome, IngestFailure> {
    Ok(IngestOutcome::Committed(ImportResult {
        blocks_imported: 0,
        highest_block: U256::zero(),
        blocks_skipped: false,
    }))
}

#[test]
fn ingest_command_defaults() {
    let cmd = IngestCommand::default();
    assert_eq!(cmd.datastream, "http://localhost:8080/batches");
    assert_eq!(cmd.from_checkpoint, "auto");
    assert_eq!(cmd.reth_rpc, "http://localhost:8545");
    assert_eq!(cmd.max_batches, 0);
    assert!(cmd.enable_metrics);
    let finality = FinalityCommand::new("0xabc".to_string());
    assert_eq!(finality.l1_rpc, "http://localhost:8545");
    assert_eq!(finality.bridge, "0xabc");
    assert_eq!(finality.poll_interval, 30);
    assert_eq!(finality.interval(), Duration::from_secs(30));
}

#[test]
fn ingest_loop_ends_when_cancelled_or_at_the_limit() {
    let mut cmd = IngestCommand::default();
    let mut state = IngestLoop::new();
    assert_eq!(cmd.before_fetch(&state, false), None);
    assert_eq!(cmd.before_fetch(&state, true), Some(ExitCode::Cancelled));
    state.processed = 1_000_000;
    assert_eq!(cmd.before_fetch(&state, false), None);
    cmd.max_batches = 2;
    state.processed = 1;
    assert_eq!(cmd.before_fetch(&state, false), None);
    state.processed = 2;
    assert_eq!(cmd.before_fetch(&state, false), Some(ExitCode::Normal));
    assert_eq!(cmd.before_fetch(&state, true), Some(ExitCode::Cancelled));
}

#[test]
fn ingest_loop_backs_off_after_failures_that_may_pass() {
    let cmd = IngestCommand::default();
    let mut state = IngestLoop::new();
    let down = || SourceEvent::Failed(DatastreamError::NetworkError("down".to_string()));
    for secs in [1u64, 2, 4, 8, 16, 32, 60, 60] {
        assert_eq!(cmd.after_fetch(&mut state, down()), LoopStep::Sleep(Duration::from_secs(secs)));
    }
    assert_eq!(state.attempt, 8);
    assert_eq!(state.error_count, 8);
    // a batch resets the delay
    assert_eq!(cmd.after_fetch(&mut state, SourceEvent::Batch(batch(1))), LoopStep::Ingest(batch(1)));
    assert_eq!(state.attempt, 0);
    assert_eq!(cmd.after_fetch(&mut state, down()), LoopStep::Sleep(Duration::from_secs(1)));
    assert_eq!(
        cmd.after_fetch(&mut state, SourceEvent::Drained),
        LoopStep::Sleep(Duration::from_secs(5))
    );
    assert_eq!(state.attempt, 0);
    assert_eq!(state.error_count, 9);
    assert_eq!(
        cmd.after_fetch(
            &mut state,
            SourceEvent::Failed(DatastreamError::DeserializationError("bad".to_string()))
        ),
        LoopStep::Exit(ExitCode::Error)
    );
    assert_eq!(state.error_count, 10);
    assert_eq!(state.processed, 0);
}

#[test]
fn ingest_loop_counts_commits_and_retries_storage() {
    let cmd = IngestCommand::default();
    let mut state = IngestLoop::new();
    assert_eq!(cmd.after_ingest(&mut state, &committed()), None);
    assert_eq!(cmd.after_ingest(&mut state, &Ok(IngestOutcome::AlreadyIngested)), None);
    assert_eq!(state.processed, 1);

    let storage = Err(IngestFailure::Index(IngestError::StorageError("busy".to_string())));
    for secs in [1u64, 2, 4] {
        assert_eq!(
            cmd.after_ingest(&mut state, &storage),
            Some(LoopStep::Sleep(Duration::from_secs(secs)))
        );
    }
    assert_eq!(cmd.after_ingest(&mut state, &storage), Some(LoopStep::Exit(ExitCode::Error)));
    assert_eq!(state.error_count, 4);

    let mut fresh = IngestLoop::new();
    let engine = Err(IngestFailure::Engine(EngineFacadeError::DatabaseError("x".to_string())));
    assert_eq!(cmd.after_ingest(&mut fresh, &engine), Some(LoopStep::Sleep(Duration::from_secs(1))));
    for fatal in [
        IngestFailure::Invalid(IngestError::InvalidBatchData("x".to_string())),
        IngestFailure::Assembly(IngestError::AssemblyError("x".to_string())),
        IngestFailure::Conflict(3),
        IngestFailure::Stale(3),
        IngestFailure::OutOfOrder(3),
        IngestFailure::Checkpoint(DatastreamError::CheckpointError("x".to_string())),
    ] {
        let mut state = IngestLoop::new();
        assert_eq!(cmd.after_ingest(&mut state, &Err(fatal)), Some(LoopStep::Exit(ExitCode::Error)));
        assert_eq!(state.processed, 0);
    }
}

#[test]
fn finality_loop_steps() {
    let cmd = FinalityCommand::new("0xabc".to_string());
    assert_eq!(cmd.after_turn(true, 0, &Ok(())), FinalityStep::Exit(ExitCode::Cancelled));
    assert_eq!(cmd.after_turn(false, 0, &Ok(())), FinalityStep::Sleep(Duration::from_secs(30)));
    let passing = Err(FinalityFailure::Manager(FinalityError::L1RpcError("x".to_string())));
    assert_eq!(cmd.after_turn(false, 2, &passing), FinalityStep::Sleep(Duration::from_secs(4)));
    assert_eq!(cmd.after_turn(true, 2, &passing), FinalityStep::Exit(ExitCode::Cancelled));
    let too_deep = Err(FinalityFailure::Manager(FinalityError::RollbackError("x".to_string())));
    assert_eq!(cmd.after_turn(false, 0, &too_deep), FinalityStep::Exit(ExitCode::Error));
    let missing = Err(FinalityFailure::MissingMapping(3));
    assert_eq!(cmd.after_turn(false, 0, &missing), FinalityStep::Exit(ExitCode::Error));
}
