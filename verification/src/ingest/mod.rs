//! Validation of batches, assembly of block inputs, and the index that ties
//! blocks, batches and epochs together.

pub mod assembler;
pub mod error;
pub mod mapping;
pub mod validator;

pub use assembler::{
    AccessListItem, Assembled, BatchAssembler, BatchMapping, BlockInputs, BlockMapping,
    EpochMapping, TransactionInput,
};
pub use error::{IngestError, IngestResult};
pub use mapping::{
    AssemblyStats, IndexState, MappingManager, MappingStorage, MemoryMappingStorage,
};
pub use validator::{
    BatchFault, BatchValidator, BlockFault, BlockInputsFault, TransactionFault,
};
