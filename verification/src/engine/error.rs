//! The error of the engine facade.

use vstd::prelude::*;

verus! {

/// What can go wrong at the execution engine.
#[derive(Debug, Clone, PartialEq, Eq)]
pub enum EngineFacadeError {
    /// A block could not be imported.
    BlockImportFailed(String),
    /// A block could not be marked final.
    FinalityMarkingFailed(String),
    /// The chain could not be unwound.
    RollbackFailed(String),
    /// The engine is not ready.
    EngineNotInitialized(String),
    /// A block is not well formed.
    InvalidBlockData(String),
    /// The database failed.
    DatabaseError(String),
    /// The configuration is wrong.
    ConfigError(String),
    /// Anything else.
    InternalError(String),
}

/// Result of an operation at the engine facade.
pub type EngineFacadeResult<T> = Result<T, EngineFacadeError>;

} // verus!
