//! The narrow contract to the execution engine: import blocks, mark blocks
//! final, unwind the chain.

pub mod block_import;
pub mod engine;
pub mod error;
pub mod finality;
pub mod types;

pub use block_import::{BlockImporter, ChainState, DefaultBlockImporter};
pub use engine::EngineFacade;
pub use error::{EngineFacadeError, EngineFacadeResult};
pub use finality::{DefaultFinalityManager, FinalityManager};
pub use types::{BatchInfo, FinalityResult, ForkChoice, ImportResult, ImportableBlock, RollbackResult};
