//! Admission and gas estimation for account-abstraction user operations.
//!
//! The library holds the decisions of a bundler: which operations are admitted,
//! how much gas each phase is given, and which entry points are served. Talking
//! to a chain node is left to the caller, who feeds the outcomes of simulation
//! calls back into [`pipeline::step`].

pub mod error;
pub mod types;
pub mod simulation;
pub mod pipeline;
pub mod service;
pub mod gas;
pub mod fee_cache;

pub use error::BundlerError;
pub use types::{Address, UserOperation, UserOperationModel, UserOperationGasEstimation};
pub use gas::{
    calculate_call_gas_limit, calculate_pre_verification_gas, effective_gas_price, is_encodable,
    pre_verification_gas_of_packed,
};
pub use simulation::{
    check_admission, detect_forbidden_access, estimate_from_results, estimate_user_operation_gas, estimate_validated, is_banned,
    simulation_failure, ExecutionResult, SimulationError, SimulationResult,
};
pub use pipeline::{step, Action, Event, Purpose, Stage};
pub use service::{DumbBundler, EstimateUserOperationGasResponse, Pipeline};
pub use fee_cache::{BaseFeeCache, BaseFeeReading};
