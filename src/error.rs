use vstd::prelude::*;

verus! {

/// Why an operation could not be admitted or estimated.
///
/// Every failure concerns the single operation being processed.
#[derive(Clone, Debug)]
pub enum BundlerError {
    /// The chain node could not be reached or timed out; the caller may retry.
    Transport { message: String },
    /// Validation reverted or touched forbidden state; never retried.
    ValidationRejected { reason: String },
    /// A gas component would be negative or overflow, or a simulation answered
    /// with something that cannot be used.
    EstimationCompute { message: String },
    /// The entry point (or chain) is not one this bundler serves.
    UnsupportedEntryPoint,
}

/// Error code of a transport failure.
pub const TRANSPORT_ERROR_CODE: i64 = -32603;

/// Error code of a rejected validation.
pub const VALIDATION_REJECTED_CODE: i64 = -32500;

/// Error code of a failed gas computation.
pub const ESTIMATION_COMPUTE_CODE: i64 = -32000;

/// Error code of an entry point that is not served.
pub const UNSUPPORTED_ENTRY_POINT_CODE: i64 = -32602;

pub open spec fn error_code_spec(e: BundlerError) -> i64 {
    match e {
        BundlerError::Transport { .. } => TRANSPORT_ERROR_CODE,
        BundlerError::ValidationRejected { .. } => VALIDATION_REJECTED_CODE,
        BundlerError::EstimationCompute { .. } => ESTIMATION_COMPUTE_CODE,
        BundlerError::UnsupportedEntryPoint => UNSUPPORTED_ENTRY_POINT_CODE,
    }
}

impl BundlerError {
    /// The stable JSON-RPC error code of this kind of error.
    pub fn code(&self) -> (r: i64)
        ensures
            r == error_code_spec(*self),
    {
        match self {
            BundlerError::Transport { .. } => TRANSPORT_ERROR_CODE,
            BundlerError::ValidationRejected { .. } => VALIDATION_REJECTED_CODE,
            BundlerError::EstimationCompute { .. } => ESTIMATION_COMPUTE_CODE,
            BundlerError::UnsupportedEntryPoint => UNSUPPORTED_ENTRY_POINT_CODE,
        }
    }

    /// Whether the caller may try the same request again.
    pub fn is_retryable(&self) -> (r: bool)
        ensures
            r == (*self is Transport),
    {
        match self {
            BundlerError::Transport { .. } => true,
            _ => false,
        }
    }

    /// The human-readable message sent to the caller.
    pub fn message(&self) -> (r: String)
        ensures
            *self is Transport ==> r@ == self->Transport_message@,
            *self is ValidationRejected ==> r@ == self->ValidationRejected_reason@,
            *self is EstimationCompute ==> r@ == self->EstimationCompute_message@,
            *self is UnsupportedEntryPoint ==> r@ == "unsupported entry point"@,
    {
        match self {
            BundlerError::Transport { message } => message.clone(),
            BundlerError::ValidationRejected { reason } => reason.clone(),
            BundlerError::EstimationCompute { message } => message.clone(),
            BundlerError::UnsupportedEntryPoint => "unsupported entry point".to_owned(),
        }
    }
}

} // verus!
