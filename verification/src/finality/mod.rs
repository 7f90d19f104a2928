//! L1 finality: the oracle's events and the rollback state machine.

pub mod error;
pub mod l1_client;
pub mod l1_contract;
pub mod oracle;
pub mod rollback;

pub use error::{FinalityError, FinalityResult};
pub use l1_client::{L1Block, L1ClientConfig, L1Log, L1Transaction, L1TransactionReceipt};
pub use l1_contract::{
    BatchFinalized, BatchRolledBack, CdkBridgeContract, PollPlan, RealFinalityOracle,
};
pub use oracle::{FinalityEventType, FinalityOracleConfig, FinalityUpdate, OracleMetadata};
pub use rollback::{
    PendingRollback, RollbackAction, RollbackConfig, RollbackContext, RollbackManager,
    RollbackRecord,
};
