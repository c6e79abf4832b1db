use vstd::prelude::*;

use crate::error::BundlerError;
use ethers::abi::Token;
use crate::types::{UserOperation, UserOperationModel};

verus! {

/// Gas every transaction pays before it does anything.
pub const FIXED_GAS_OVERHEAD: u128 = 21000;

/// Number of operations a bundle is assumed to share the fixed overhead with.
pub const BUNDLE_SIZE: u128 = 1;

/// Fixed cost of including one more operation in a bundle.
pub const PER_OPERATION_OVERHEAD: u128 = 18300;

/// Cost of each 32-byte word of an operation's encoding.
pub const PER_WORD_OVERHEAD: u128 = 4;

/// Calldata cost of a zero byte.
pub const ZERO_BYTE_COST: u128 = 4;

/// Calldata cost of a non-zero byte.
pub const NON_ZERO_BYTE_COST: u128 = 16;

/// Largest total length of an operation's four byte fields that is encoded.
///
/// The encoder keeps lengths and offsets in 32 bits; under this bound none of
/// them comes near overflowing.
pub const MAX_DYNAMIC_BYTES: u128 = 0x7fff_ffff;

/// Message of the error for an operation whose byte fields are too long.
pub const ENCODING_TOO_LARGE_MESSAGE: &'static str = "operation is too large to encode";

/// Message of the error for a zero gas price.
pub const ZERO_GAS_PRICE_MESSAGE: &'static str = "gas price is zero";

/// Message of the error for a call gas limit below zero.
pub const NEGATIVE_CALL_GAS_MESSAGE: &'static str = "call gas limit would be negative";

/// Message of the error for a call gas limit beyond `u128`.
pub const CALL_GAS_OVERFLOW_MESSAGE: &'static str = "call gas limit overflows";

/// Total length of the byte fields of an operation.
pub open spec fn dynamic_bytes_len(op: UserOperationModel) -> nat {
    op.init_code.len() + op.call_data.len() + op.paymaster_and_data.len() + op.signature.len()
}

/// Whether an operation is small enough to be encoded.
pub open spec fn encodable(op: UserOperationModel) -> bool {
    dynamic_bytes_len(op) <= MAX_DYNAMIC_BYTES
}

/// Number of 32-byte words a byte field takes in the tail of the encoding:
/// its length, then its bytes padded to whole words.
pub open spec fn tail_words(b: Seq<u8>) -> nat {
    1 + (b.len() + 31) / 32
}

/// Length of the encoding: the tuple's offset, eleven head words, and the
/// tails of the four byte fields.
pub open spec fn encoded_len(op: UserOperationModel) -> nat {
    32 * (12 + tail_words(op.init_code) + tail_words(op.call_data) + tail_words(op.paymaster_and_data)
        + tail_words(op.signature))
}

/// The canonical ABI encoding of an operation.
pub uninterp spec fn abi_packed(op: UserOperationModel) -> Seq<u8>;

/// Relies on ethers' `abi::encode`: the ABI encoding of the operation as one
/// tuple, which depends on the operation's fields alone. The encoder's 32-bit
/// length arithmetic is kept from overflowing by the bound on the byte fields.
#[verifier::external_body]
fn pack(op: &UserOperation) -> (r: Vec<u8>)
    requires
        encodable(op@),
    ensures
        r@ == abi_packed(op@),
        r@.len() == encoded_len(op@),
{
    ethers::abi::encode(&[Token::Tuple(vec![
        Token::Address(ethers::types::H160(op.sender.bytes)),
        Token::Uint(op.nonce.into()),
        Token::Bytes(op.init_code.clone()),
        Token::Bytes(op.call_data.clone()),
        Token::Uint(op.call_gas_limit.into()),
        Token::Uint(op.verification_gas_limit.into()),
        Token::Uint(op.pre_verification_gas.into()),
        Token::Uint(op.max_fee_per_gas.into()),
        Token::Uint(op.max_priority_fee_per_gas.into()),
        Token::Bytes(op.paymaster_and_data.clone()),
        Token::Bytes(op.signature.clone()),
    ])])
}

pub open spec fn byte_cost(b: u8) -> int {
    if b == 0 {
        ZERO_BYTE_COST as int
    } else {
        NON_ZERO_BYTE_COST as int
    }
}

/// Calldata cost of a byte string: a price for each zero and non-zero byte.
pub open spec fn calldata_cost(s: Seq<u8>) -> int
    decreases s.len(),
{
    if s.len() == 0 {
        0
    } else {
        calldata_cost(s.drop_last()) + byte_cost(s.last())
    }
}

/// Pre-verification gas of an operation whose canonical encoding is `packed`.
pub open spec fn pre_verification_gas_spec(packed: Seq<u8>) -> int {
    FIXED_GAS_OVERHEAD / BUNDLE_SIZE + calldata_cost(packed) + PER_OPERATION_OVERHEAD
        + PER_WORD_OVERHEAD * ((packed.len() + 31) / 32)
}

/// The price per gas an operation pays: its priority fee on top of the base
/// fee, but never more than its fee cap.
pub open spec fn effective_gas_price_spec(max_fee: int, max_priority_fee: int, base_fee: int) -> int {
    if max_priority_fee + base_fee < max_fee {
        max_priority_fee + base_fee
    } else {
        max_fee
    }
}

/// Pre-verification gas of an operation, or the message of the error where it
/// is too large to encode.
pub open spec fn pre_verification_gas_result(op: UserOperationModel) -> Result<int, Seq<char>> {
    if encodable(op) {
        Ok(pre_verification_gas_spec(abi_packed(op)))
    } else {
        Err(ENCODING_TOO_LARGE_MESSAGE@)
    }
}

/// Call gas limit derived from what the execution simulation paid, or the
/// message of the error where it would be undefined, negative or beyond
/// `u128`.
pub open spec fn call_gas_limit_spec(paid: int, pre_op_gas: int, fee_per_gas: int) -> Result<int, Seq<char>> {
    if fee_per_gas <= 0 {
        Err(ZERO_GAS_PRICE_MESSAGE@)
    } else if paid / fee_per_gas < pre_op_gas {
        Err(NEGATIVE_CALL_GAS_MESSAGE@)
    } else if paid / fee_per_gas - pre_op_gas + FIXED_GAS_OVERHEAD > u128::MAX {
        Err(CALL_GAS_OVERFLOW_MESSAGE@)
    } else {
        Ok(paid / fee_per_gas - pre_op_gas + FIXED_GAS_OVERHEAD)
    }
}

proof fn lemma_calldata_cost_bounds(s: Seq<u8>)
    ensures
        0 <= calldata_cost(s) <= NON_ZERO_BYTE_COST * s.len(),
    decreases s.len(),
{
    if s.len() > 0 {
        lemma_calldata_cost_bounds(s.drop_last());
    }
}

/// Pre-verification gas of an operation, given its canonical encoding.
pub fn pre_verification_gas_of_packed(packed: &Vec<u8>) -> (r: u128)
    ensures
        r == pre_verification_gas_spec(packed@),
        r >= FIXED_GAS_OVERHEAD + PER_OPERATION_OVERHEAD,
{
    let mut cost: u128 = 0;
    let mut i: usize = 0;
    while i < packed.len()
        invariant
            i <= packed@.len(),
            cost == calldata_cost(packed@.take(i as int)),
            cost <= NON_ZERO_BYTE_COST * i,
        decreases packed@.len() - i,
    {
        proof {
            assert(packed@.take(i + 1).drop_last() =~= packed@.take(i as int));
        }
        if packed[i] == 0 {
            cost = cost + ZERO_BYTE_COST;
        } else {
            cost = cost + NON_ZERO_BYTE_COST;
        }
        i = i + 1;
    }
    proof {
        assert(packed@.take(i as int) =~= packed@);
        lemma_calldata_cost_bounds(packed@);
    }
    let words: u128 = (packed.len() as u128 + 31) / 32;
    FIXED_GAS_OVERHEAD / BUNDLE_SIZE + cost + PER_OPERATION_OVERHEAD + PER_WORD_OVERHEAD * words
}

/// Whether the operation's byte fields are within the encoding bound.
pub fn is_encodable(op: &UserOperation) -> (r: bool)
    ensures
        r == encodable(op@),
{
    let total: u128 = op.init_code.len() as u128 + op.call_data.len() as u128
        + op.paymaster_and_data.len() as u128 + op.signature.len() as u128;
    total <= MAX_DYNAMIC_BYTES
}

/// Pre-verification gas of an operation: a function of its canonical
/// encoding alone, whatever the state of the chain. An operation too large to
/// encode fails with a computation error.
pub fn calculate_pre_verification_gas(op: &UserOperation) -> (r: Result<u128, BundlerError>)
    ensures
        match pre_verification_gas_result(op@) {
            Ok(g) => r == Ok::<u128, BundlerError>(g as u128),
            Err(m) => r is Err && r->Err_0 is EstimationCompute && r->Err_0->EstimationCompute_message@ == m,
        },
        r is Ok ==> r->Ok_0 >= FIXED_GAS_OVERHEAD + PER_OPERATION_OVERHEAD,
{
    if !is_encodable(op) {
        return Err(BundlerError::EstimationCompute { message: ENCODING_TOO_LARGE_MESSAGE.to_owned() });
    }
    let packed = pack(op);
    Ok(pre_verification_gas_of_packed(&packed))
}

/// The price per gas an operation pays at the given base fee.
pub fn effective_gas_price(max_fee_per_gas: u128, max_priority_fee_per_gas: u128, base_fee: u128) -> (r: u128)
    ensures
        r == effective_gas_price_spec(max_fee_per_gas as int, max_priority_fee_per_gas as int, base_fee as int),
        r <= max_fee_per_gas,
{
    if max_priority_fee_per_gas >= max_fee_per_gas || base_fee >= max_fee_per_gas - max_priority_fee_per_gas {
        max_fee_per_gas
    } else {
        max_priority_fee_per_gas + base_fee
    }
}

/// Gas to allot to the call phase: the gas the execution simulation paid
/// for, less what was spent before the call, plus the fixed overhead as a
/// safety margin.
pub fn calculate_call_gas_limit(paid: u128, pre_op_gas: u128, fee_per_gas: u128) -> (r: Result<u128, BundlerError>)
    ensures
        match call_gas_limit_spec(paid as int, pre_op_gas as int, fee_per_gas as int) {
            Ok(v) => r == Ok::<u128, BundlerError>(v as u128),
            Err(m) => r is Err && r->Err_0 is EstimationCompute && r->Err_0->EstimationCompute_message@ == m,
        },
{
    if fee_per_gas == 0 {
        return Err(BundlerError::EstimationCompute { message: ZERO_GAS_PRICE_MESSAGE.to_owned() });
    }
    let used = paid / fee_per_gas;
    if used < pre_op_gas {
        return Err(BundlerError::EstimationCompute { message: NEGATIVE_CALL_GAS_MESSAGE.to_owned() });
    }
    let margin = used - pre_op_gas;
    if margin > u128::MAX - FIXED_GAS_OVERHEAD {
        return Err(BundlerError::EstimationCompute { message: CALL_GAS_OVERFLOW_MESSAGE.to_owned() });
    }
    Ok(margin + FIXED_GAS_OVERHEAD)
}

/// Operations with the same canonical encoding get the same pre-verification
/// gas, and it never falls below the fixed per-transaction overhead: the
/// result depends on nothing but those bytes.
pub proof fn pre_verification_gas_depends_on_encoding_alone(a: UserOperationModel, b: UserOperationModel)
    requires
        abi_packed(a) == abi_packed(b),
    ensures
        pre_verification_gas_spec(abi_packed(a)) == pre_verification_gas_spec(abi_packed(b)),
        pre_verification_gas_spec(abi_packed(a)) >= FIXED_GAS_OVERHEAD + PER_OPERATION_OVERHEAD,
{
    lemma_calldata_cost_bounds(abi_packed(a));
}

/// The price an operation pays per gas never exceeds its fee cap, whatever
/// the base fee and priority fee.
pub proof fn effective_gas_price_is_capped(max_fee_per_gas: u128, max_priority_fee_per_gas: u128, base_fee: u128)
    ensures
        effective_gas_price_spec(max_fee_per_gas as int, max_priority_fee_per_gas as int, base_fee as int)
            <= max_fee_per_gas,
{
}

} // verus!
