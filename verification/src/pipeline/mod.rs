//! The two pipelines: ingestion of batches, and finality with rollback.

pub mod finality;
pub mod ingest;

pub use finality::{FinalityFailure, FinalityPipeline, FinalityStats};
pub use ingest::{Admission, IngestFailure, IngestOutcome, IngestPipeline, IngestStats};
