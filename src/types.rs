use vstd::prelude::*;

verus! {

/// A 20-byte account or contract address.
#[derive(Clone, Copy, Debug)]
pub struct Address {
    pub bytes: [u8; 20],
}

impl Address {
    /// The address whose bytes are all zero.
    pub fn zero() -> (r: Address)
        ensures
            forall|i: int| 0 <= i < 20 ==> r.bytes@[i] == 0u8,
    {
        Address { bytes: [0u8; 20] }
    }

    /// Byte-wise equality of two addresses.
    pub fn same_as(&self, other: &Address) -> (r: bool)
        ensures
            r == (self.bytes@ == other.bytes@),
    {
        let mut i: usize = 0;
        while i < 20
            invariant
                0 <= i <= 20,
                self.bytes@.len() == 20,
                other.bytes@.len() == 20,
                forall|j: int| 0 <= j < i ==> self.bytes@[j] == other.bytes@[j],
            decreases 20 - i,
        {
            if self.bytes[i] != other.bytes[i] {
                return false;
            }
            i = i + 1;
        }
        assert(self.bytes@ =~= other.bytes@);
        true
    }
}

/// The mathematical content of a [`UserOperation`].
pub ghost struct UserOperationModel {
    pub sender: Seq<u8>,
    pub nonce: u128,
    pub init_code: Seq<u8>,
    pub call_data: Seq<u8>,
    pub call_gas_limit: u128,
    pub verification_gas_limit: u128,
    pub pre_verification_gas: u128,
    pub max_fee_per_gas: u128,
    pub max_priority_fee_per_gas: u128,
    pub paymaster_and_data: Seq<u8>,
    pub signature: Seq<u8>,
}

/// An operation that a smart-contract account asks a bundler to carry out.
///
/// Quantities of gas and wei are held as `u128`; an operation is never edited
/// in place once it has been received.
#[derive(Clone, Debug)]
pub struct UserOperation {
    pub sender: Address,
    pub nonce: u128,
    pub init_code: Vec<u8>,
    pub call_data: Vec<u8>,
    pub call_gas_limit: u128,
    pub verification_gas_limit: u128,
    pub pre_verification_gas: u128,
    pub max_fee_per_gas: u128,
    pub max_priority_fee_per_gas: u128,
    pub paymaster_and_data: Vec<u8>,
    pub signature: Vec<u8>,
}

impl View for UserOperation {
    type V = UserOperationModel;

    open spec fn view(&self) -> UserOperationModel {
        UserOperationModel {
            sender: self.sender.bytes@,
            nonce: self.nonce,
            init_code: self.init_code@,
            call_data: self.call_data@,
            call_gas_limit: self.call_gas_limit,
            verification_gas_limit: self.verification_gas_limit,
            pre_verification_gas: self.pre_verification_gas,
            max_fee_per_gas: self.max_fee_per_gas,
            max_priority_fee_per_gas: self.max_priority_fee_per_gas,
            paymaster_and_data: self.paymaster_and_data@,
            signature: self.signature@,
        }
    }
}

/// The three gas components handed back to a caller.
#[derive(Clone, Copy, Debug, PartialEq, Eq, Structural)]
pub struct UserOperationGasEstimation {
    pub pre_verification_gas: u128,
    pub verification_gas_limit: u128,
    pub call_gas_limit: u128,
}

} // verus!
