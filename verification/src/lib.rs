//! Batch ingestion and finality pipeline between a data-availability layer,
//! an L1 settlement contract and an execution engine.
//!
//! The crate holds the pipeline's rules: validation of batches, assembly of
//! block inputs, the block/batch/epoch index, checkpoints, the finality oracle's
//! polling decisions and the rollback state machine. Network and disk access
//! are left to the caller, which hands in plain values.

pub mod cli;
pub mod datastream;
pub mod engine;
pub mod finality;
pub mod ingest;
pub mod observe;
pub mod pipeline;
pub mod rpc;
pub mod snap;
pub mod text;
pub mod time;
pub mod types;
pub mod util;
