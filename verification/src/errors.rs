//! Error taxonomy for derivation and sync operations.

use vstd::prelude::*;

verus! {

/// Errors surfaced by address derivation and the batched sync protocol.
///
/// A per-call revert inside a batch is not an error: it is reported as an
/// absent facet and the pair converges to `deployed == false`.
#[derive(Clone, Copy, Debug, PartialEq, Eq, Structural)]
pub enum PairError {
    /// The two token addresses supplied for sorting or derivation are equal.
    DegenerateTokenPair,
    /// The protocol has no known factory address on the requested network.
    UnsupportedNetwork,
    /// A batch result payload matched neither the expected success shape nor
    /// the generic failure shape.
    MalformedResponse,
    /// The batched round trip itself could not be completed.
    TransportFailure,
}

} // verus!
