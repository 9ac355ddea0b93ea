//! On-chain state tracking for two-asset liquidity pair contracts.
//!
//! The crate derives a pair's contract address deterministically from its two
//! token addresses and a factory's deployment parameters, and refreshes a
//! cached view of the pair's tokens and reserves from the results of one
//! batched, fault-tolerant read. The network transport itself is an external
//! collaborator: callers execute the batch and hand the decoded results back.

pub mod abi;
pub mod address;
pub mod errors;
pub mod factory;
pub mod library;
pub mod pair;
pub mod protocol;

pub use abi::{AbiValue, CallKind, CallOutcome, CallRequest, Reserves, Tokens};
pub use address::{Address, Hash256};
pub use errors::PairError;
pub use factory::Factory;
pub use pair::Pair;
pub use protocol::{Chain, ProtocolType};
