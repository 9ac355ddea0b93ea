//! Protocol registry: each supported pair-deploying protocol's constant
//! deployment-code hash, and its factory address on each supported network.

use vstd::prelude::*;

use crate::address::{Address, Hash256};
use crate::errors::PairError;

verus! {

/// A supported network.
#[derive(Clone, Copy, Debug, PartialEq, Eq, Structural)]
pub enum Chain {
    Mainnet,
    Polygon,
    BinanceSmartChain,
}

/// A supported pair-deploying protocol family.
#[derive(Clone, Copy, Debug, PartialEq, Eq, Structural)]
pub enum ProtocolType {
    UniswapV2,
    Sushiswap,
    PancakeswapV2,
}

/// Deployment-code hash of the Uniswap V2 pair contract.
pub const UNISWAP_V2_PAIR_CODE_HASH: [u8; 32] = [
    0x96, 0xe8, 0xac, 0x42, 0x77, 0x19, 0x8f, 0xf8, 0xb6, 0xf7, 0x85, 0x47, 0x8a, 0xa9, 0xa3,
    0x9f, 0x40, 0x3c, 0xb7, 0x68, 0xdd, 0x02, 0xcb, 0xee, 0x32, 0x6c, 0x3e, 0x7d, 0xa3, 0x48,
    0x84, 0x5f,
];

/// Deployment-code hash of the SushiSwap pair contract.
pub const SUSHISWAP_PAIR_CODE_HASH: [u8; 32] = [
    0xe1, 0x8a, 0x34, 0xeb, 0x0e, 0x04, 0xb0, 0x4f, 0x7a, 0x0a, 0xc2, 0x9a, 0x6e, 0x80, 0x74,
    0x8d, 0xca, 0x96, 0x31, 0x9b, 0x42, 0xc5, 0x4d, 0x67, 0x9c, 0xb8, 0x21, 0xdc, 0xa9, 0x0c,
    0x63, 0x03,
];

/// Deployment-code hash of the PancakeSwap V2 pair contract.
pub const PANCAKESWAP_V2_PAIR_CODE_HASH: [u8; 32] = [
    0x00, 0xfb, 0x7f, 0x63, 0x07, 0x66, 0xe6, 0xa7, 0x96, 0x04, 0x8e, 0xa8, 0x7d, 0x01, 0xac,
    0xd3, 0x06, 0x8e, 0x8f, 0xf6, 0x7d, 0x07, 0x81, 0x48, 0xa3, 0xfa, 0x3f, 0x4a, 0x84, 0xf6,
    0x9b, 0xd5,
];

/// Uniswap V2 factory address on mainnet.
pub const UNISWAP_V2_FACTORY_MAINNET: [u8; 20] = [
    0x5c, 0x69, 0xbe, 0xe7, 0x01, 0xef, 0x81, 0x4a, 0x2b, 0x6a, 0x3e, 0xdd, 0x4b, 0x16, 0x52,
    0xcb, 0x9c, 0xc5, 0xaa, 0x6f,
];

/// SushiSwap factory address on mainnet.
pub const SUSHISWAP_FACTORY_MAINNET: [u8; 20] = [
    0xc0, 0xae, 0xe4, 0x78, 0xe3, 0x65, 0x8e, 0x26, 0x10, 0xc5, 0xf7, 0xa4, 0xa2, 0xe1, 0x77,
    0x7c, 0xe9, 0xe4, 0xf2, 0xac,
];

/// SushiSwap factory address on Polygon.
pub const SUSHISWAP_FACTORY_POLYGON: [u8; 20] = [
    0xc3, 0x5d, 0xad, 0xb6, 0x50, 0x12, 0xec, 0x57, 0x96, 0x53, 0x6b, 0xd9, 0x86, 0x4e, 0xd8,
    0x77, 0x3a, 0xbc, 0x74, 0xc4,
];

/// PancakeSwap V2 factory address on Binance Smart Chain.
pub const PANCAKESWAP_V2_FACTORY_BSC: [u8; 20] = [
    0xca, 0x14, 0x3c, 0xe3, 0x2f, 0xe7, 0x8f, 0x1f, 0x70, 0x19, 0xd7, 0xd5, 0x51, 0xa6, 0x40,
    0x2f, 0xc5, 0x35, 0x0c, 0x73,
];

impl ProtocolType {
    /// The deployment-code hash of the pair contract this protocol's factory
    /// deploys: a constant of the protocol family.
    pub open spec fn pair_code_hash_spec(self) -> Hash256 {
        match self {
            ProtocolType::UniswapV2 => Hash256(UNISWAP_V2_PAIR_CODE_HASH),
            ProtocolType::Sushiswap => Hash256(SUSHISWAP_PAIR_CODE_HASH),
            ProtocolType::PancakeswapV2 => Hash256(PANCAKESWAP_V2_PAIR_CODE_HASH),
        }
    }

    /// Returns the deployment-code hash of the pair contract this protocol's
    /// factory deploys.
    pub fn pair_code_hash(self) -> (r: Hash256)
        ensures
            r == self.pair_code_hash_spec(),
    {
        match self {
            ProtocolType::UniswapV2 => Hash256(UNISWAP_V2_PAIR_CODE_HASH),
            ProtocolType::Sushiswap => Hash256(SUSHISWAP_PAIR_CODE_HASH),
            ProtocolType::PancakeswapV2 => Hash256(PANCAKESWAP_V2_PAIR_CODE_HASH),
        }
    }

    /// The protocol's factory address on the given network, if the protocol
    /// is deployed there: a static table, looked up, never computed.
    pub open spec fn factory_address_spec(self, chain: Chain) -> Option<Address> {
        match (self, chain) {
            (ProtocolType::UniswapV2, Chain::Mainnet) => Some(
                Address(UNISWAP_V2_FACTORY_MAINNET),
            ),
            (ProtocolType::Sushiswap, Chain::Mainnet) => Some(Address(SUSHISWAP_FACTORY_MAINNET)),
            (ProtocolType::Sushiswap, Chain::Polygon) => Some(Address(SUSHISWAP_FACTORY_POLYGON)),
            (ProtocolType::PancakeswapV2, Chain::BinanceSmartChain) => Some(
                Address(PANCAKESWAP_V2_FACTORY_BSC),
            ),
            _ => None,
        }
    }

    /// Looks up the protocol's factory address on the given network.
    ///
    /// Returns `None` when the protocol has no known factory there: a
    /// recoverable "unsupported on this network" condition, not an error.
    pub fn factory_address(self, chain: Chain) -> (r: Option<Address>)
        ensures
            r == self.factory_address_spec(chain),
    {
        match (self, chain) {
            (ProtocolType::UniswapV2, Chain::Mainnet) => Some(
                Address(UNISWAP_V2_FACTORY_MAINNET),
            ),
            (ProtocolType::Sushiswap, Chain::Mainnet) => Some(Address(SUSHISWAP_FACTORY_MAINNET)),
            (ProtocolType::Sushiswap, Chain::Polygon) => Some(Address(SUSHISWAP_FACTORY_POLYGON)),
            (ProtocolType::PancakeswapV2, Chain::BinanceSmartChain) => Some(
                Address(PANCAKESWAP_V2_FACTORY_BSC),
            ),
            _ => None,
        }
    }

    /// Looks up the protocol's factory address on the given network,
    /// surfacing an absent entry as `UnsupportedNetwork`.
    pub fn require_factory_address(self, chain: Chain) -> (r: Result<Address, PairError>)
        ensures
            r is Ok <==> self.factory_address_spec(chain) is Some,
            r is Ok ==> r->Ok_0 == self.factory_address_spec(chain)->0,
            r is Err ==> r->Err_0 == PairError::UnsupportedNetwork,
    {
        match self.factory_address(chain) {
            Some(address) => Ok(address),
            None => Err(PairError::UnsupportedNetwork),
        }
    }
}

} // verus!
