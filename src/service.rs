use vstd::prelude::*;

use crate::error::BundlerError;
use crate::types::{Address, UserOperationGasEstimation};

verus! {

/// Chain id of Goerli.
pub const GOERLI_CHAIN_ID: u64 = 5;

/// Chain id of Mumbai.
pub const MUMBAI_CHAIN_ID: u64 = 80001;

/// Address of the entry point contract, 0x5FF137D4b0FDCD49DcA30c7CF57E578a026d2789.
pub open spec fn entry_point_bytes() -> Seq<u8> {
    seq![
        0x5Fu8, 0xF1u8, 0x37u8, 0xD4u8, 0xB0u8, 0xFDu8, 0xCDu8, 0x49u8, 0xDCu8, 0xA3u8,
        0x0Cu8, 0x7Cu8, 0xF5u8, 0x7Eu8, 0x57u8, 0x8Au8, 0x02u8, 0x6Du8, 0x27u8, 0x89u8,
    ]
}

/// A bundler serving one entry point on two chains.
///
/// Its configuration is fixed when it is made; every request reads it and none
/// changes it.
#[derive(Clone, Copy, Debug)]
pub struct DumbBundler {
    /// Goerli chain id.
    pub eth_chain_id: u64,
    /// Mumbai chain id.
    pub poly_chain_id: u64,
    /// Entry point address.
    pub entry_point: Address,
    /// Max verification gas.
    pub max_verification_gas: u128,
    /// Call gas limit.
    pub call_gas_limit: u128,
}

/// The pipeline of one (chain, entry point) pair.
#[derive(Clone, Copy, Debug)]
pub struct Pipeline {
    pub chain_id: u64,
    pub entry_point: Address,
}

/// The gas estimate as the RPC answers it.
#[derive(Clone, Copy, Debug, PartialEq, Eq, Structural)]
pub struct EstimateUserOperationGasResponse {
    pub pre_verification_gas: u128,
    pub verification_gas_limit: u128,
    pub call_gas_limit: u128,
}

impl EstimateUserOperationGasResponse {
    pub fn from_estimation(e: UserOperationGasEstimation) -> (r: EstimateUserOperationGasResponse)
        ensures
            r.pre_verification_gas == e.pre_verification_gas,
            r.verification_gas_limit == e.verification_gas_limit,
            r.call_gas_limit == e.call_gas_limit,
    {
        EstimateUserOperationGasResponse {
            pre_verification_gas: e.pre_verification_gas,
            verification_gas_limit: e.verification_gas_limit,
            call_gas_limit: e.call_gas_limit,
        }
    }
}

impl DumbBundler {
    /// A bundler for the entry point on Goerli and Mumbai with the given gas
    /// limits.
    pub fn new(max_verification_gas: u128, call_gas_limit: u128) -> (r: DumbBundler)
        ensures
            r.eth_chain_id == GOERLI_CHAIN_ID,
            r.poly_chain_id == MUMBAI_CHAIN_ID,
            r.entry_point.bytes@ == entry_point_bytes(),
            r.max_verification_gas == max_verification_gas,
            r.call_gas_limit == call_gas_limit,
    {
        let bundler = DumbBundler {
            eth_chain_id: GOERLI_CHAIN_ID,
            poly_chain_id: MUMBAI_CHAIN_ID,
            entry_point: Address {
                bytes: [
                    0x5Fu8, 0xF1u8, 0x37u8, 0xD4u8, 0xB0u8, 0xFDu8, 0xCDu8, 0x49u8, 0xDCu8, 0xA3u8,
                    0x0Cu8, 0x7Cu8, 0xF5u8, 0x7Eu8, 0x57u8, 0x8Au8, 0x02u8, 0x6Du8, 0x27u8, 0x89u8,
                ],
            },
            max_verification_gas,
            call_gas_limit,
        };
        assert(bundler.entry_point.bytes@ =~= entry_point_bytes());
        bundler
    }

    /// The chain id this bundler answers with: the configured Goerli id.
    pub fn chain_id(&self) -> (r: u64)
        ensures
            r == self.eth_chain_id,
    {
        self.eth_chain_id
    }

    /// The entry points this bundler serves.
    pub fn supported_entry_points(&self) -> (r: Vec<Address>)
        ensures
            r@.len() == 1,
            r@[0] == self.entry_point,
    {
        vec![self.entry_point]
    }

    /// Whether the (chain, entry point) pair is one this bundler serves.
    pub open spec fn serves(&self, chain_id: u64, entry_point: Seq<u8>) -> bool {
        (chain_id == self.eth_chain_id || chain_id == self.poly_chain_id)
            && entry_point == self.entry_point.bytes@
    }

    /// The pipeline of a (chain, entry point) pair, or `UnsupportedEntryPoint`
    /// where the pair is not served.
    pub fn select_pipeline(&self, chain_id: u64, entry_point: &Address) -> (r: Result<Pipeline, BundlerError>)
        ensures
            self.serves(chain_id, entry_point.bytes@) <==> r is Ok,
            r is Ok ==> r->Ok_0.chain_id == chain_id && r->Ok_0.entry_point.bytes@ == entry_point.bytes@,
            r is Err ==> r->Err_0 is UnsupportedEntryPoint,
    {
        if (chain_id == self.eth_chain_id || chain_id == self.poly_chain_id) && entry_point.same_as(&self.entry_point) {
            Ok(Pipeline { chain_id, entry_point: *entry_point })
        } else {
            Err(BundlerError::UnsupportedEntryPoint)
        }
    }

    /// The pipeline that serves an RPC request naming `entry_point`, on the
    /// chain this bundler answers for.
    pub fn route(&self, entry_point: &Address) -> (r: Result<Pipeline, BundlerError>)
        ensures
            self.serves(self.eth_chain_id, entry_point.bytes@) <==> r is Ok,
            r is Ok ==> r->Ok_0.chain_id == self.eth_chain_id && r->Ok_0.entry_point.bytes@ == entry_point.bytes@,
            r is Err ==> r->Err_0 is UnsupportedEntryPoint,
    {
        self.select_pipeline(self.chain_id(), entry_point)
    }
}

} // verus!
