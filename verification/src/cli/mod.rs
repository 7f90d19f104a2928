//! What the command line tools decide: arguments, retries, and the steps of
//! the two loops.

pub mod common;
pub mod finality;
pub mod ingest;

pub use common::{format_duration, parse_checkpoint, retry_delay, validate_url};
pub use finality::{FinalityCommand, FinalityStep};
pub use ingest::{ExitCode, IngestCommand, IngestLoop, LoopStep, SourceEvent};
