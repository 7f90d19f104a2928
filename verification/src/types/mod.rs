//! Core data types: 256-bit integers, fixed-size hashes, batches, epochs and
//! finality tags.

pub mod batch;
pub mod bytes;
pub mod epoch;
pub mod error;
pub mod finality;
pub mod u256;

pub use batch::{Batch, BatchId, BlockInBatch, ProofMetadata};
pub use bytes::{Address, Bytes, FixedBytes, B256};
pub use epoch::{Epoch, EpochId};
pub use error::{CdkError, CdkResult};
pub use finality::{FinalityStatus, FinalityTag};
pub use u256::U256;
