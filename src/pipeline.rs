use vstd::prelude::*;

use crate::error::BundlerError;
use crate::gas::calculate_pre_verification_gas;
use crate::simulation::{
    admitted, check_admission, estimate_validated, full_estimation_spec, rejection_reason,
    simulation_failure, ExecutionResult, SimulationError, SimulationResult,
};
use crate::types::{UserOperation, UserOperationGasEstimation, UserOperationModel};

verus! {

/// What a run of the pipeline is for.
#[derive(Clone, Copy, Debug, PartialEq, Eq, Structural)]
pub enum Purpose {
    /// Estimate the operation's gas.
    Estimate,
    /// Accept the operation into the mempool.
    Send,
}

/// Where a run of the pipeline on one operation stands.
#[derive(Clone, Debug)]
pub enum Stage {
    /// The operation has arrived; nothing has been simulated.
    Received,
    /// Waiting for the validation simulation.
    Validating,
    /// Validation reverted or touched forbidden state. Terminal.
    Rejected { reason: String },
    /// Validation passed; a run that sends ends here. Terminal.
    ValidSimulated { verification_gas: u128 },
    /// Waiting for the handle-op simulation.
    Estimating { verification_gas: u128 },
    /// The estimate is done. Terminal.
    Estimated { estimation: UserOperationGasEstimation },
    /// A simulation or a computation failed. Terminal.
    Failed { error: BundlerError },
}

/// What the caller reports back to the pipeline.
#[derive(Debug)]
pub enum Event {
    /// Begin the run.
    Start,
    /// The validation simulation answered.
    ValidationSimulated { outcome: Result<SimulationResult, SimulationError> },
    /// The handle-op simulation answered, at the given base fee.
    HandleOpSimulated { outcome: Result<ExecutionResult, SimulationError>, base_fee: u128 },
}

/// What the caller must do next.
#[derive(Clone, Copy, Debug, PartialEq, Eq, Structural)]
pub enum Action {
    /// Run the validation simulation and report it.
    SimulateValidation,
    /// Fetch the base fee, run the handle-op simulation and report both.
    SimulateHandleOp,
    /// Hand the operation to the mempool; the run is over.
    SubmitToMempool,
    /// The run is over.
    Finish,
}

pub open spec fn is_terminal(stage: Stage) -> bool {
    stage is Rejected || stage is ValidSimulated || stage is Estimated || stage is Failed
}

/// The failure a simulation error leaves the pipeline in.
pub open spec fn failed_with(next: Stage, e: SimulationError) -> bool {
    &&& next is Failed
    &&& e is Transport ==> next->error is Transport && next->error->Transport_message@ == e->Transport_message@
    &&& e is Malformed ==> next->error is EstimationCompute
        && next->error->EstimationCompute_message@ == e->Malformed_message@
}

/// One transition of the pipeline on operation `op`: from `stage`, on
/// `event`, to `next`, asking for `action`.
pub open spec fn step_relation(
    op: UserOperationModel,
    purpose: Purpose,
    stage: Stage,
    event: Event,
    next: Stage,
    action: Action,
) -> bool {
    match (stage, event) {
        (Stage::Received, Event::Start) => next is Validating && action == Action::SimulateValidation,
        (Stage::Validating, Event::ValidationSimulated { outcome }) => match outcome {
            Err(e) => failed_with(next, e) && action == Action::Finish,
            Ok(sim) => if !admitted(sim) {
                next is Rejected && next->reason@ == rejection_reason(sim) && action == Action::Finish
            } else if purpose == Purpose::Send {
                next == (Stage::ValidSimulated { verification_gas: sim.verification_gas })
                    && action == Action::SubmitToMempool
            } else {
                next == (Stage::Estimating { verification_gas: sim.verification_gas })
                    && action == Action::SimulateHandleOp
            },
        },
        (Stage::Estimating { verification_gas }, Event::HandleOpSimulated { outcome, base_fee }) => match outcome {
            Err(e) => failed_with(next, e) && action == Action::Finish,
            Ok(exec) => action == Action::Finish && match full_estimation_spec(op, verification_gas, exec, base_fee) {
                Ok(est) => next == (Stage::Estimated { estimation: est }),
                Err(m) => next is Failed && next->error is EstimationCompute
                    && next->error->EstimationCompute_message@ == m,
            },
        },
        _ => next == stage && action == Action::Finish,
    }
}

/// Advances the pipeline on one event. An event that does not fit the stage
/// leaves the stage as it is and ends the run.
pub fn step(op: &UserOperation, purpose: Purpose, stage: Stage, event: Event) -> (r: (Stage, Action))
    ensures
        step_relation(op@, purpose, stage, event, r.0, r.1),
{
    match (stage, event) {
        (Stage::Received, Event::Start) => (Stage::Validating, Action::SimulateValidation),
        (Stage::Validating, Event::ValidationSimulated { outcome }) => match outcome {
            Err(e) => (Stage::Failed { error: simulation_failure(&e) }, Action::Finish),
            Ok(sim) => match check_admission(&sim) {
                Err(BundlerError::ValidationRejected { reason }) => (Stage::Rejected { reason }, Action::Finish),
                Err(error) => (Stage::Failed { error }, Action::Finish),
                Ok(verification_gas) => match purpose {
                    Purpose::Send => (Stage::ValidSimulated { verification_gas }, Action::SubmitToMempool),
                    Purpose::Estimate => (Stage::Estimating { verification_gas }, Action::SimulateHandleOp),
                },
            },
        },
        (Stage::Estimating { verification_gas }, Event::HandleOpSimulated { outcome, base_fee }) => match outcome {
            Err(e) => (Stage::Failed { error: simulation_failure(&e) }, Action::Finish),
            Ok(exec) => match calculate_pre_verification_gas(op) {
                Err(error) => (Stage::Failed { error }, Action::Finish),
                Ok(pre_verification_gas) => match estimate_validated(
                    op,
                    pre_verification_gas,
                    verification_gas,
                    &exec,
                    base_fee,
                ) {
                    Ok(estimation) => (Stage::Estimated { estimation }, Action::Finish),
                    Err(error) => (Stage::Failed { error }, Action::Finish),
                },
            },
        },
        (stage, _) => (stage, Action::Finish),
    }
}

/// A validation simulation that reports forbidden access rejects the
/// operation, whether it is being estimated or sent: the run ends there and
/// never reaches estimation or the mempool.
pub proof fn forbidden_access_is_rejected(
    op: UserOperationModel,
    purpose: Purpose,
    sim: SimulationResult,
    next: Stage,
    action: Action,
)
    requires
        sim.forbidden_access,
        step_relation(
            op,
            purpose,
            Stage::Validating,
            Event::ValidationSimulated { outcome: Ok(sim) },
            next,
            action,
        ),
    ensures
        next is Rejected,
        next->reason@ == rejection_reason(sim),
        action == Action::Finish,
{
}

/// Whether two errors are of the same kind and carry the same text.
pub open spec fn same_error(a: BundlerError, b: BundlerError) -> bool {
    match (a, b) {
        (BundlerError::Transport { message: x }, BundlerError::Transport { message: y }) => x@ == y@,
        (BundlerError::ValidationRejected { reason: x }, BundlerError::ValidationRejected { reason: y }) => x@ == y@,
        (BundlerError::EstimationCompute { message: x }, BundlerError::EstimationCompute { message: y }) => x@ == y@,
        (BundlerError::UnsupportedEntryPoint, BundlerError::UnsupportedEntryPoint) => true,
        _ => false,
    }
}

/// Whether two stages are the same stage with the same contents.
pub open spec fn same_stage(a: Stage, b: Stage) -> bool {
    match (a, b) {
        (Stage::Received, Stage::Received) => true,
        (Stage::Validating, Stage::Validating) => true,
        (Stage::Rejected { reason: x }, Stage::Rejected { reason: y }) => x@ == y@,
        (Stage::ValidSimulated { verification_gas: x }, Stage::ValidSimulated { verification_gas: y }) => x == y,
        (Stage::Estimating { verification_gas: x }, Stage::Estimating { verification_gas: y }) => x == y,
        (Stage::Estimated { estimation: x }, Stage::Estimated { estimation: y }) => x == y,
        (Stage::Failed { error: x }, Stage::Failed { error: y }) => same_error(x, y),
        _ => false,
    }
}

/// Runs of the pipeline do not interfere: where two runs, on two entry
/// points or at two times, hold the same operation at the same stage and see
/// the same answer from their own simulations, they move to the same stage
/// and ask for the same action. Nothing outside the run enters a step.
pub proof fn runs_do_not_interfere(
    op: UserOperationModel,
    purpose: Purpose,
    stage: Stage,
    event: Event,
    next_a: Stage,
    action_a: Action,
    next_b: Stage,
    action_b: Action,
)
    requires
        step_relation(op, purpose, stage, event, next_a, action_a),
        step_relation(op, purpose, stage, event, next_b, action_b),
    ensures
        same_stage(next_a, next_b),
        action_a == action_b,
{
}

} // verus!
