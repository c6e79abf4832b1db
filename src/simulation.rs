use vstd::prelude::*;

use crate::error::BundlerError;
use crate::gas::{
    abi_packed, calculate_call_gas_limit, calculate_pre_verification_gas, call_gas_limit_spec,
    effective_gas_price, effective_gas_price_spec, encodable, pre_verification_gas_result,
};
use crate::types::{Address, UserOperation, UserOperationGasEstimation, UserOperationModel};

verus! {

/// What a validation-only simulation reported.
#[derive(Clone, Debug)]
pub struct SimulationResult {
    /// Verification gas the account's validation actually consumed.
    pub verification_gas: u128,
    /// The revert reason, where validation reverted.
    pub revert_reason: Option<String>,
    /// Whether validation touched state or opcodes it may not.
    pub forbidden_access: bool,
}

/// What a handle-op simulation reported.
#[derive(Clone, Copy, Debug, PartialEq, Eq, Structural)]
pub struct ExecutionResult {
    /// Wei paid for the whole operation.
    pub paid: u128,
    /// Gas consumed before the call phase.
    pub pre_op_gas: u128,
    /// Whether the simulated execution succeeded.
    pub success: bool,
}

/// Why a simulation call gave no result.
#[derive(Clone, Debug)]
pub enum SimulationError {
    /// The node could not be reached, or the call timed out.
    Transport { message: String },
    /// The node answered with something that cannot be decoded.
    Malformed { message: String },
}

/// Reason carried by a rejection for forbidden access.
pub const FORBIDDEN_ACCESS_REASON: &'static str = "forbidden opcode or storage access during validation";

/// Opcodes that validation code may not execute, because their result
/// differs between simulation and inclusion.
pub open spec fn is_banned_opcode(op: u8) -> bool {
    op == 0x31u8 || op == 0x32u8 || op == 0x3Au8 || op == 0x40u8 || op == 0x41u8
        || op == 0x42u8 || op == 0x43u8 || op == 0x44u8 || op == 0x45u8 || op == 0x47u8
        || op == 0x48u8 || op == 0x5Au8 || op == 0xF0u8 || op == 0xFFu8
}

/// Whether a validation trace breaks the access rules: it read or wrote the
/// storage of an account other than the sender, or ran a banned opcode.
pub open spec fn forbidden_access_spec(sender: Seq<u8>, storage_owners: Seq<Seq<u8>>, opcodes: Seq<u8>) -> bool {
    (exists|i: int| 0 <= i < storage_owners.len() && storage_owners[i] != sender)
        || (exists|j: int| 0 <= j < opcodes.len() && is_banned_opcode(opcodes[j]))
}

pub fn is_banned(op: u8) -> (r: bool)
    ensures
        r == is_banned_opcode(op),
{
    op == 0x31u8 || op == 0x32u8 || op == 0x3Au8 || op == 0x40u8 || op == 0x41u8
        || op == 0x42u8 || op == 0x43u8 || op == 0x44u8 || op == 0x45u8 || op == 0x47u8
        || op == 0x48u8 || op == 0x5Au8 || op == 0xF0u8 || op == 0xFFu8
}

/// Applies the access rules to a validation trace: the owners of the storage
/// slots touched and the opcodes run.
pub fn detect_forbidden_access(sender: &Address, storage_owners: &Vec<Address>, opcodes: &Vec<u8>) -> (r: bool)
    ensures
        r == forbidden_access_spec(sender.bytes@, storage_owners@.map_values(|a: Address| a.bytes@), opcodes@),
{
    let ghost owners = storage_owners@.map_values(|a: Address| a.bytes@);
    let mut i: usize = 0;
    while i < storage_owners.len()
        invariant
            i <= storage_owners@.len(),
            owners == storage_owners@.map_values(|a: Address| a.bytes@),
            forall|k: int| 0 <= k < i ==> owners[k] == sender.bytes@,
        decreases storage_owners@.len() - i,
    {
        if !storage_owners[i].same_as(sender) {
            assert(owners[i as int] != sender.bytes@);
            return true;
        }
        i = i + 1;
    }
    let mut j: usize = 0;
    while j < opcodes.len()
        invariant
            j <= opcodes@.len(),
            forall|k: int| 0 <= k < j ==> !is_banned_opcode(opcodes@[k]),
        decreases opcodes@.len() - j,
    {
        if is_banned(opcodes[j]) {
            return true;
        }
        j = j + 1;
    }
    false
}

/// Whether a validation simulation admits the operation.
pub open spec fn admitted(sim: SimulationResult) -> bool {
    sim.revert_reason is None && !sim.forbidden_access
}

/// The reason a validation simulation gives for rejecting an operation.
pub open spec fn rejection_reason(sim: SimulationResult) -> Seq<char> {
    match sim.revert_reason {
        Some(r) => r@,
        None => FORBIDDEN_ACCESS_REASON@,
    }
}

/// The admission decision on a validation simulation: the verification gas
/// to allot where it passed, a rejection where it reverted or touched
/// forbidden state.
pub fn check_admission(sim: &SimulationResult) -> (r: Result<u128, BundlerError>)
    ensures
        admitted(*sim) ==> r == Ok::<u128, BundlerError>(sim.verification_gas),
        !admitted(*sim) ==> r is Err && r->Err_0 is ValidationRejected
            && r->Err_0->ValidationRejected_reason@ == rejection_reason(*sim),
{
    match &sim.revert_reason {
        Some(reason) => Err(BundlerError::ValidationRejected { reason: reason.clone() }),
        None => {
            if sim.forbidden_access {
                Err(BundlerError::ValidationRejected { reason: FORBIDDEN_ACCESS_REASON.to_owned() })
            } else {
                Ok(sim.verification_gas)
            }
        },
    }
}

/// Maps a failed simulation call to the error it surfaces as.
pub fn simulation_failure(e: &SimulationError) -> (r: BundlerError)
    ensures
        *e is Transport ==> r is Transport && r->Transport_message@ == e->Transport_message@,
        *e is Malformed ==> r is EstimationCompute && r->EstimationCompute_message@ == e->Malformed_message@,
{
    match e {
        SimulationError::Transport { message } => BundlerError::Transport { message: message.clone() },
        SimulationError::Malformed { message } => BundlerError::EstimationCompute { message: message.clone() },
    }
}

/// Message of the error for an execution simulation that reverted.
pub const EXECUTION_REVERTED_MESSAGE: &'static str = "execution simulation reverted";

/// The estimate owed for an admitted operation with the given
/// pre-verification gas, or the message of the computation error where the
/// call gas limit cannot be computed or the execution failed.
pub open spec fn estimation_spec(
    pre_verification_gas: int,
    op: UserOperationModel,
    verification_gas: u128,
    exec: ExecutionResult,
    base_fee: u128,
) -> Result<UserOperationGasEstimation, Seq<char>> {
    let price = effective_gas_price_spec(op.max_fee_per_gas as int, op.max_priority_fee_per_gas as int, base_fee as int);
    match call_gas_limit_spec(exec.paid as int, exec.pre_op_gas as int, price) {
        Ok(call) => if exec.success {
            Ok(UserOperationGasEstimation {
                pre_verification_gas: pre_verification_gas as u128,
                verification_gas_limit: verification_gas,
                call_gas_limit: call as u128,
            })
        } else {
            Err(EXECUTION_REVERTED_MESSAGE@)
        },
        Err(m) => Err(m),
    }
}

/// The estimate owed for an admitted operation, its pre-verification gas
/// included, or the message of the computation error.
pub open spec fn full_estimation_spec(
    op: UserOperationModel,
    verification_gas: u128,
    exec: ExecutionResult,
    base_fee: u128,
) -> Result<UserOperationGasEstimation, Seq<char>> {
    match pre_verification_gas_result(op) {
        Ok(pre_verification_gas) => estimation_spec(pre_verification_gas, op, verification_gas, exec, base_fee),
        Err(m) => Err(m),
    }
}

/// Whether `r` is the outcome that `spec` describes: the estimate itself, or
/// a computation error with the message given.
pub open spec fn estimation_outcome(
    r: Result<UserOperationGasEstimation, BundlerError>,
    spec: Result<UserOperationGasEstimation, Seq<char>>,
) -> bool {
    match spec {
        Ok(est) => r == Ok::<UserOperationGasEstimation, BundlerError>(est),
        Err(m) => r is Err && r->Err_0 is EstimationCompute && r->Err_0->EstimationCompute_message@ == m,
    }
}

/// Puts the three gas components together from the simulation results, the
/// base fee and the pre-verification gas already computed for the operation.
///
/// An operation that validation did not accept gets no estimate.
pub fn estimate_from_results(
    op: &UserOperation,
    pre_verification_gas: u128,
    sim: &SimulationResult,
    exec: &ExecutionResult,
    base_fee: u128,
) -> (r: Result<UserOperationGasEstimation, BundlerError>)
    ensures
        !admitted(*sim) ==> r is Err && r->Err_0 is ValidationRejected
            && r->Err_0->ValidationRejected_reason@ == rejection_reason(*sim),
        admitted(*sim) ==> estimation_outcome(
            r,
            estimation_spec(pre_verification_gas as int, op@, sim.verification_gas, *exec, base_fee),
        ),
{
    let verification_gas = match check_admission(sim) {
        Ok(g) => g,
        Err(e) => return Err(e),
    };
    estimate_validated(op, pre_verification_gas, verification_gas, exec, base_fee)
}

/// Puts the three gas components together for an operation that validation
/// has already accepted, with the verification gas it consumed.
pub fn estimate_validated(
    op: &UserOperation,
    pre_verification_gas: u128,
    verification_gas: u128,
    exec: &ExecutionResult,
    base_fee: u128,
) -> (r: Result<UserOperationGasEstimation, BundlerError>)
    ensures
        estimation_outcome(r, estimation_spec(pre_verification_gas as int, op@, verification_gas, *exec, base_fee)),
{
    let price = effective_gas_price(op.max_fee_per_gas, op.max_priority_fee_per_gas, base_fee);
    let call_gas_limit = match calculate_call_gas_limit(exec.paid, exec.pre_op_gas, price) {
        Ok(c) => c,
        Err(e) => return Err(e),
    };
    if !exec.success {
        return Err(BundlerError::EstimationCompute { message: EXECUTION_REVERTED_MESSAGE.to_owned() });
    }
    Ok(UserOperationGasEstimation { pre_verification_gas, verification_gas_limit: verification_gas, call_gas_limit })
}

/// Estimates the gas of an operation from its simulation results and the
/// current base fee.
pub fn estimate_user_operation_gas(
    op: &UserOperation,
    sim: &SimulationResult,
    exec: &ExecutionResult,
    base_fee: u128,
) -> (r: Result<UserOperationGasEstimation, BundlerError>)
    ensures
        !admitted(*sim) ==> r is Err && r->Err_0 is ValidationRejected
            && r->Err_0->ValidationRejected_reason@ == rejection_reason(*sim),
        admitted(*sim) ==> estimation_outcome(r, full_estimation_spec(op@, sim.verification_gas, *exec, base_fee)),
{
    let verification_gas = match check_admission(sim) {
        Ok(g) => g,
        Err(e) => return Err(e),
    };
    let pre_verification_gas = match calculate_pre_verification_gas(op) {
        Ok(g) => g,
        Err(e) => return Err(e),
    };
    estimate_validated(op, pre_verification_gas, verification_gas, exec, base_fee)
}

/// The estimate depends on nothing but the operation's canonical encoding,
/// its fee fields, the simulation results and the base fee supplied: the
/// estimate, or the error and its message, is the same for any two such
/// operations.
pub proof fn estimation_is_determined_by_its_inputs(
    a: UserOperationModel,
    b: UserOperationModel,
    sim: SimulationResult,
    exec: ExecutionResult,
    base_fee: u128,
)
    requires
        encodable(a) == encodable(b),
        abi_packed(a) == abi_packed(b),
        a.max_fee_per_gas == b.max_fee_per_gas,
        a.max_priority_fee_per_gas == b.max_priority_fee_per_gas,
    ensures
        full_estimation_spec(a, sim.verification_gas, exec, base_fee)
            == full_estimation_spec(b, sim.verification_gas, exec, base_fee),
{
}

} // verus!
