//! Batch sources: where batches come from, and how ingestion resumes.

pub mod checkpoint;
pub mod error;
pub mod filesystem_source;
pub mod grpc_source;
pub mod http_source;
pub mod source;
pub mod websocket_source;

pub use checkpoint::{Checkpoint, CheckpointStorage, MemoryCheckpointStorage, Metadata};
pub use error::{DataStreamError, DataStreamResult, DatastreamError, DatastreamResult};
pub use filesystem_source::{FilesystemSource, FilesystemSourceConfig};
pub use grpc_source::{GrpcSource, GrpcSourceConfig};
pub use http_source::{HttpBatchSource, HttpBatchSourceConfig};
pub use source::SourceMetadata;
pub use websocket_source::{WebSocketSource, WebSocketSourceConfig, WsMessage, WsStep};
