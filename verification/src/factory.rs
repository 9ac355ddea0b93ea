//! A handle to a deployed pair-creating factory contract: its address, its
//! protocol, and the derivation and call-building conveniences built on them.

use vstd::prelude::*;

use crate::abi::{CallKind, CallRequest};
use crate::address::{Address, Hash256};
use crate::errors::PairError;
use crate::library;
use crate::pair::Pair;
use crate::protocol::{Chain, ProtocolType};

verus! {

/// A pair-creating factory contract on some network.
#[derive(Clone, Copy, Debug, PartialEq, Eq)]
pub struct Factory {
    /// The factory's contract address.
    pub address: Address,
    /// The protocol family the factory belongs to.
    pub protocol: ProtocolType,
}

impl Factory {
    /// Creates a new instance using the provided address.
    pub fn new(address: Address, protocol: ProtocolType) -> (r: Factory)
        ensures
            r.address == address,
            r.protocol == protocol,
    {
        Factory { address, protocol }
    }

    /// Creates a new instance using the provided chain, when the protocol
    /// registry knows a factory address for the protocol there.
    pub fn new_with_chain(chain: Chain, protocol: ProtocolType) -> (r: Option<Factory>)
        ensures
            r is Some <==> protocol.factory_address_spec(chain) is Some,
            r is Some ==> {
                &&& r->0.address == protocol.factory_address_spec(chain)->0
                &&& r->0.protocol == protocol
            },
    {
        match protocol.factory_address(chain) {
            Some(address) => Some(Factory { address, protocol }),
            None => None,
        }
    }

    /// Returns the contract address of the factory.
    pub fn address(&self) -> (r: Address)
        ensures
            r == self.address,
    {
        self.address
    }

    /// Returns the protocol of the factory.
    pub fn protocol(&self) -> (r: ProtocolType)
        ensures
            r == self.protocol,
    {
        self.protocol
    }

    /// Returns the deployment code's hash of the pair that this factory
    /// deploys.
    pub fn pair_code_hash(&self) -> (r: Hash256)
        ensures
            r == self.protocol.pair_code_hash_spec(),
    {
        self.protocol.pair_code_hash()
    }

    /// Builds (but does not submit) the write call asking the factory to
    /// create the pair for two token addresses.
    pub fn create_pair(&self, token_a: Address, token_b: Address) -> (r: CallRequest)
        ensures
            r == (CallRequest {
                target: self.address,
                kind: CallKind::CreatePair(token_a, token_b),
                allow_failure: false,
            }),
    {
        CallRequest {
            target: self.address,
            kind: CallKind::CreatePair(token_a, token_b),
            allow_failure: false,
        }
    }

    /// Returns the pair for two token addresses, at its derived address,
    /// with nothing synced yet.
    pub fn pair_for(&self, token_a: Address, token_b: Address) -> (r: Result<Pair, PairError>)
        ensures
            r is Err <==> token_a@ == token_b@,
            r is Err ==> r->Err_0 == PairError::DegenerateTokenPair,
            r is Ok ==> {
                &&& r->Ok_0.address@ == library::pair_address(
                    self.address@,
                    self.protocol.pair_code_hash_spec()@,
                    token_a@,
                    token_b@,
                )
                &&& r->Ok_0.tokens is None
                &&& r->Ok_0.reserves is None
                &&& !r->Ok_0.deployed
                &&& r->Ok_0.protocol == self.protocol
            },
    {
        let code_hash = self.protocol.pair_code_hash();
        match library::pair_for(&self.address, &code_hash, token_a, token_b) {
            Ok(address) => Ok(Pair::new(address, self.protocol)),
            Err(e) => Err(e),
        }
    }
}

} // verus!
