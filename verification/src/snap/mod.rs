//! Snapshots for moving data between database formats.

pub mod converter;
pub mod error;
pub mod types;
pub mod validator;

pub use converter::{ErigonToRethConverter, RethToErigonConverter};
pub use error::{SnapError, SnapResult};
pub use types::{ConversionOptions, DatabaseType, RecordType, SnapMetadata, SnapRecord};
pub use validator::{SnapValidator, CDK_SNAP_VERSION};
