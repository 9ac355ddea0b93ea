//! The batch-call boundary: the shapes that batched read calls return, and
//! the decoding policy that turns each raw payload into a typed outcome.
//!
//! A batched transport returns, per call, a value that is expected to be a
//! two-element tuple of a success flag and the call's payload. Each call is
//! resolved once into a [`CallOutcome`] and consumed by exhaustive matching:
//! a reverted call is an absent facet, never an error; only a payload that
//! matches neither the success shape nor the generic failure shape is
//! malformed.

use vstd::prelude::*;

use crate::address::Address;
use crate::errors::PairError;

verus! {

/// The two token addresses of a pair, in canonical order.
pub type Tokens = (Address, Address);

/// A pair's reserves: reserve of token0, reserve of token1, and the
/// timestamp of their last update.
pub type Reserves = (u128, u128, u32);

/// A decoded value inside a batch result, mirroring the dynamic value tree
/// that contract-call transports hand back.
#[derive(Debug, PartialEq, Eq)]
pub enum AbiValue {
    /// A boolean, such as a per-call success flag.
    Bool(bool),
    /// A 20-byte address.
    Addr(Address),
    /// An unsigned integer.
    Uint(u128),
    /// A human-readable string, such as a revert reason.
    Str(String),
    /// An ordered tuple of values.
    Tuple(Vec<AbiValue>),
}

/// The outcome of one batched read call, computed once per call and consumed
/// by typed matching.
#[derive(Clone, Copy, Debug, PartialEq, Eq)]
pub enum CallOutcome<T> {
    /// The call succeeded and its payload decoded as the expected type.
    Success(T),
    /// The call reported failure, or its payload was the generic failure
    /// shape: the facet is absent, which is not an error.
    Reverted,
    /// The payload matched neither the success shape nor the failure shape.
    Malformed,
}

/// A read or write call to be submitted against a contract.
#[derive(Clone, Copy, Debug, PartialEq, Eq)]
pub struct CallRequest {
    /// The contract the call targets.
    pub target: Address,
    /// Which call to make.
    pub kind: CallKind,
    /// Whether a revert of this call may be tolerated inside a batch without
    /// aborting the other calls.
    pub allow_failure: bool,
}

/// The contract calls this crate builds.
#[derive(Clone, Copy, Debug, PartialEq, Eq)]
pub enum CallKind {
    /// Read the address of the pair's lesser token.
    Token0,
    /// Read the address of the pair's greater token.
    Token1,
    /// Read the pair's reserves and their last-update timestamp.
    GetReserves,
    /// Ask a factory to create the pair for two token addresses.
    CreatePair(Address, Address),
}

/// The generic failure shape: a flag and a human-readable message. Returns
/// the message when the value has that shape.
pub open spec fn error_shape(v: AbiValue) -> Option<String> {
    match v {
        AbiValue::Tuple(xs) => if xs@.len() == 2 {
            match (xs@[0], xs@[1]) {
                (AbiValue::Bool(_), AbiValue::Str(s)) => Some(s),
                _ => None,
            }
        } else {
            None
        },
        _ => None,
    }
}

/// The outcome of a call whose expected payload is an address: the decoding
/// policy of one batched `token0()` or `token1()` result.
pub open spec fn address_call_outcome(v: AbiValue) -> CallOutcome<Address> {
    match v {
        AbiValue::Tuple(xs) => if xs@.len() == 2 {
            match (xs@[0], xs@[1]) {
                (AbiValue::Bool(false), _) => CallOutcome::Reverted,
                (AbiValue::Bool(true), AbiValue::Addr(a)) => CallOutcome::Success(a),
                (AbiValue::Bool(true), AbiValue::Str(_)) => CallOutcome::Reverted,
                _ => CallOutcome::Malformed,
            }
        } else {
            CallOutcome::Malformed
        },
        _ => CallOutcome::Malformed,
    }
}

/// A reserves triple inside a successful `getReserves()` payload: three
/// unsigned integers whose last member fits a 32-bit timestamp.
pub open spec fn reserves_shape(xs: Seq<AbiValue>) -> Option<Reserves> {
    if xs.len() == 3 {
        match (xs[0], xs[1], xs[2]) {
            (AbiValue::Uint(r0), AbiValue::Uint(r1), AbiValue::Uint(ts)) => if ts <= u32::MAX
                as u128 {
                Some((r0, r1, ts as u32))
            } else {
                None
            },
            _ => None,
        }
    } else {
        None
    }
}

/// The outcome of a call whose expected payload is a reserves triple: the
/// decoding policy of one batched `getReserves()` result.
pub open spec fn reserves_call_outcome(v: AbiValue) -> CallOutcome<Reserves> {
    match v {
        AbiValue::Tuple(xs) => if xs@.len() == 2 {
            match (xs@[0], xs@[1]) {
                (AbiValue::Bool(false), _) => CallOutcome::Reverted,
                (AbiValue::Bool(true), AbiValue::Tuple(inner)) => match reserves_shape(inner@) {
                    Some(r) => CallOutcome::Success(r),
                    None => CallOutcome::Malformed,
                },
                (AbiValue::Bool(true), AbiValue::Str(_)) => CallOutcome::Reverted,
                _ => CallOutcome::Malformed,
            }
        } else {
            CallOutcome::Malformed
        },
        _ => CallOutcome::Malformed,
    }
}

/// Resolves one batched address-read result into its outcome.
pub fn resolve_address_call(v: AbiValue) -> (r: CallOutcome<Address>)
    ensures
        r == address_call_outcome(v),
{
    match v {
        AbiValue::Tuple(mut xs) => {
            if xs.len() == 2 {
                let payload = xs.pop().unwrap();
                let flag = xs.pop().unwrap();
                match (flag, payload) {
                    (AbiValue::Bool(false), _) => CallOutcome::Reverted,
                    (AbiValue::Bool(true), AbiValue::Addr(a)) => CallOutcome::Success(a),
                    (AbiValue::Bool(true), AbiValue::Str(_)) => CallOutcome::Reverted,
                    _ => CallOutcome::Malformed,
                }
            } else {
                CallOutcome::Malformed
            }
        },
        _ => CallOutcome::Malformed,
    }
}

/// Resolves one batched reserves-read result into its outcome.
pub fn resolve_reserves_call(v: AbiValue) -> (r: CallOutcome<Reserves>)
    ensures
        r == reserves_call_outcome(v),
{
    match v {
        AbiValue::Tuple(mut xs) => {
            if xs.len() == 2 {
                let payload = xs.pop().unwrap();
                let flag = xs.pop().unwrap();
                match (flag, payload) {
                    (AbiValue::Bool(false), _) => CallOutcome::Reverted,
                    (AbiValue::Bool(true), AbiValue::Tuple(mut inner)) => {
                        if inner.len() == 3 {
                            let ts_value = inner.pop().unwrap();
                            let r1_value = inner.pop().unwrap();
                            let r0_value = inner.pop().unwrap();
                            match (r0_value, r1_value, ts_value) {
                                (
                                    AbiValue::Uint(r0),
                                    AbiValue::Uint(r1),
                                    AbiValue::Uint(ts),
                                ) => {
                                    if ts <= u32::MAX as u128 {
                                        CallOutcome::Success((r0, r1, ts as u32))
                                    } else {
                                        CallOutcome::Malformed
                                    }
                                },
                                _ => CallOutcome::Malformed,
                            }
                        } else {
                            CallOutcome::Malformed
                        }
                    },
                    (AbiValue::Bool(true), AbiValue::Str(_)) => CallOutcome::Reverted,
                    _ => CallOutcome::Malformed,
                }
            } else {
                CallOutcome::Malformed
            }
        },
        _ => CallOutcome::Malformed,
    }
}

/// Extracts, for each batch result, the message of its generic failure shape
/// where it has one.
pub fn parse_errors(tokens: Vec<AbiValue>) -> (r: Vec<Option<String>>)
    ensures
        r@.len() == tokens@.len(),
        forall|j: int| 0 <= j < tokens@.len() ==> r@[j] == error_shape(tokens@[j]),
{
    let ghost orig = tokens@;
    let mut rest = tokens;
    let mut msgs: Vec<Option<String>> = Vec::new();
    while rest.len() > 0
        invariant
            msgs@.len() + rest@.len() == orig.len(),
            rest@ == orig.skip(msgs@.len() as int),
            forall|j: int| 0 <= j < msgs@.len() ==> msgs@[j] == error_shape(orig[j]),
        decreases rest@.len(),
    {
        let ghost k = msgs@.len() as int;
        let v = rest.remove(0);
        proof {
            assert(v == orig[k]);
            assert(orig.skip(k).remove(0) =~= orig.skip(k + 1));
        }
        let msg = decode_error(v);
        msgs.push(msg);
    }
    msgs
}

/// Decodes one value as the generic failure shape, yielding its message.
fn decode_error(v: AbiValue) -> (r: Option<String>)
    ensures
        r == error_shape(v),
{
    match v {
        AbiValue::Tuple(mut xs) => {
            if xs.len() == 2 {
                let second = xs.pop().unwrap();
                let first = xs.pop().unwrap();
                match (first, second) {
                    (AbiValue::Bool(_), AbiValue::Str(s)) => Some(s),
                    _ => None,
                }
            } else {
                None
            }
        },
        _ => None,
    }
}

/// Decode-ambiguity resolution: any payload that validly encodes the
/// generic failure shape — a flag and a reason string — resolves to an
/// absent facet under both decoding policies, never to a malformed
/// response.
pub proof fn lemma_failure_shape_is_absent(v: AbiValue)
    requires
        error_shape(v) is Some,
    ensures
        address_call_outcome(v) is Reverted,
        reserves_call_outcome(v) is Reverted,
{
}

/// Whether some result in the sequence is malformed under the address-call
/// decoding policy.
pub open spec fn has_malformed_address_call(rs: Seq<AbiValue>) -> bool {
    exists|i: int| 0 <= i < rs.len() && address_call_outcome(rs[i]) is Malformed
}

/// Whether some result in the sequence is malformed under the reserves-call
/// decoding policy.
pub open spec fn has_malformed_reserves_call(rs: Seq<AbiValue>) -> bool {
    exists|i: int| 0 <= i < rs.len() && reserves_call_outcome(rs[i]) is Malformed
}

/// What a batch of token-address reads yields: the two addresses when both
/// calls succeeded, an absent facet when any call reverted or reported
/// failure, and `MalformedResponse` when any payload matched no known shape.
pub open spec fn tokens_result(rs: Seq<AbiValue>) -> Result<Option<Tokens>, PairError> {
    if has_malformed_address_call(rs) {
        Err(PairError::MalformedResponse)
    } else if rs.len() == 2 && address_call_outcome(rs[0]) is Success && address_call_outcome(
        rs[1],
    ) is Success {
        Ok(Some((address_call_outcome(rs[0])->Success_0, address_call_outcome(rs[1])->Success_0)))
    } else {
        Ok(None)
    }
}

/// What a batch of reserves reads yields: the reserves triple when the call
/// succeeded, an absent facet when it reverted or reported failure, and
/// `MalformedResponse` when any payload matched no known shape.
pub open spec fn reserves_result(rs: Seq<AbiValue>) -> Result<Option<Reserves>, PairError> {
    if has_malformed_reserves_call(rs) {
        Err(PairError::MalformedResponse)
    } else if rs.len() == 1 && reserves_call_outcome(rs[0]) is Success {
        Ok(Some(reserves_call_outcome(rs[0])->Success_0))
    } else {
        Ok(None)
    }
}

/// Parses the results of the two token-address reads of one batch.
///
/// Returns the token pair only when both calls succeeded; an individual
/// revert yields an absent facet, not an error.
pub fn parse_tokens_result(results: Vec<AbiValue>) -> (r: Result<Option<Tokens>, PairError>)
    ensures
        r == tokens_result(results@),
{
    let ghost orig = results@;
    let n = results.len();
    let mut rest = results;
    let mut outcomes: Vec<CallOutcome<Address>> = Vec::new();
    while rest.len() > 0
        invariant
            outcomes@.len() + rest@.len() == orig.len(),
            rest@ == orig.skip(outcomes@.len() as int),
            forall|j: int| 0 <= j < outcomes@.len() ==> outcomes@[j] == address_call_outcome(
                orig[j],
            ),
        decreases rest@.len(),
    {
        let ghost k = outcomes@.len() as int;
        let v = rest.remove(0);
        proof {
            assert(v == orig[k]);
            assert(orig.skip(k).remove(0) =~= orig.skip(k + 1));
        }
        let o = resolve_address_call(v);
        outcomes.push(o);
    }

    let mut i: usize = 0;
    while i < outcomes.len()
        invariant
            results@ == orig,
            i <= outcomes@.len(),
            outcomes@.len() == orig.len(),
            forall|j: int| 0 <= j < outcomes@.len() ==> outcomes@[j] == address_call_outcome(
                orig[j],
            ),
            forall|j: int| 0 <= j < i ==> !(outcomes@[j] is Malformed),
        decreases outcomes@.len() - i,
    {
        if matches!(outcomes[i], CallOutcome::Malformed) {
            proof {
                assert(address_call_outcome(orig[i as int]) is Malformed);
                assert(has_malformed_address_call(orig));
            }
            return Err(PairError::MalformedResponse);
        }
        i += 1;
    }

    proof {
        assert forall|k: int| 0 <= k < orig.len() implies !(address_call_outcome(
            orig[k],
        ) is Malformed) by {
            assert(outcomes@[k] == address_call_outcome(orig[k]));
        }
        assert(!has_malformed_address_call(orig));
    }
    if n == 2 {
        match (outcomes[0], outcomes[1]) {
            (CallOutcome::Success(a0), CallOutcome::Success(a1)) => Ok(Some((a0, a1))),
            _ => Ok(None),
        }
    } else {
        Ok(None)
    }
}

/// Parses the result of the reserves read of one batch.
///
/// Returns the reserves triple only when the call succeeded; a revert yields
/// an absent facet, not an error.
pub fn parse_reserves_result(results: Vec<AbiValue>) -> (r: Result<Option<Reserves>, PairError>)
    ensures
        r == reserves_result(results@),
{
    let ghost orig = results@;
    let n = results.len();
    let mut rest = results;
    let mut outcomes: Vec<CallOutcome<Reserves>> = Vec::new();
    while rest.len() > 0
        invariant
            outcomes@.len() + rest@.len() == orig.len(),
            rest@ == orig.skip(outcomes@.len() as int),
            forall|j: int| 0 <= j < outcomes@.len() ==> outcomes@[j] == reserves_call_outcome(
                orig[j],
            ),
        decreases rest@.len(),
    {
        let ghost k = outcomes@.len() as int;
        let v = rest.remove(0);
        proof {
            assert(v == orig[k]);
            assert(orig.skip(k).remove(0) =~= orig.skip(k + 1));
        }
        let o = resolve_reserves_call(v);
        outcomes.push(o);
    }

    let mut i: usize = 0;
    while i < outcomes.len()
        invariant
            results@ == orig,
            i <= outcomes@.len(),
            outcomes@.len() == orig.len(),
            forall|j: int| 0 <= j < outcomes@.len() ==> outcomes@[j] == reserves_call_outcome(
                orig[j],
            ),
            forall|j: int| 0 <= j < i ==> !(outcomes@[j] is Malformed),
        decreases outcomes@.len() - i,
    {
        if matches!(outcomes[i], CallOutcome::Malformed) {
            proof {
                assert(reserves_call_outcome(orig[i as int]) is Malformed);
                assert(has_malformed_reserves_call(orig));
            }
            return Err(PairError::MalformedResponse);
        }
        i += 1;
    }

    proof {
        assert forall|k: int| 0 <= k < orig.len() implies !(reserves_call_outcome(
            orig[k],
        ) is Malformed) by {
            assert(outcomes@[k] == reserves_call_outcome(orig[k]));
        }
        assert(!has_malformed_reserves_call(orig));
    }
    if n == 1 {
        match outcomes[0] {
            CallOutcome::Success(r) => Ok(Some(r)),
            _ => Ok(None),
        }
    } else {
        Ok(None)
    }
}

} // verus!
