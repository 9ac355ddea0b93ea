//! The cached record of one liquidity pair and the commit step of the
//! batched sync protocol.
//!
//! A `Pair` holds an address (possibly speculative), optionally its two
//! canonical token addresses, optionally its reserves, and whether it was
//! observed deployed. A sync builds an ordered batch of read calls, the
//! caller executes the batch through its transport, and [`Pair::sync`]
//! commits the decoded results atomically: a facet group is committed only
//! if every call in the request succeeded, and any failure resets tokens,
//! reserves and the deployed flag together.

use vstd::prelude::*;

use crate::abi::{
    address_call_outcome, parse_reserves_result, parse_tokens_result, reserves_call_outcome,
    reserves_result, tokens_result, AbiValue, CallKind, CallRequest, Reserves, Tokens,
};
use crate::address::{lex_lt, sorted_pair, Address, Hash256};
use crate::errors::PairError;
use crate::factory::Factory;
use crate::library;
use crate::protocol::ProtocolType;

verus! {

/// A liquidity pair, composed of two different tokens, as cached locally.
#[derive(Clone, Copy, Debug, PartialEq, Eq)]
pub struct Pair {
    /// The pair address. Might not be currently deployed.
    pub address: Address,
    /// The ordered tokens of the pair.
    pub tokens: Option<Tokens>,
    /// Whether the pair was observed deployed in the network at the last
    /// sync.
    pub deployed: bool,
    /// The token reserves of the pair.
    pub reserves: Option<Reserves>,
    /// The protocol of the pair.
    pub protocol: ProtocolType,
}

/// How many batch results a sync with the given flags consumes: two for the
/// token reads, one for the reserves read.
pub open spec fn expected_result_count(sync_tokens: bool, sync_reserves: bool) -> int {
    (if sync_tokens {
        2int
    } else {
        0int
    }) + (if sync_reserves {
        1int
    } else {
        0int
    })
}

impl Pair {
    /// State consistency: reserves are only ever cached for a pair that was
    /// observed deployed.
    pub open spec fn wf(self) -> bool {
        self.reserves is Some ==> self.deployed
    }

    /// The pair with its observed state cleared: not deployed, no tokens, no
    /// reserves. A failed facet resets all three together, so that a
    /// half-observed pool is never exposed as committed state.
    pub open spec fn reset(self) -> Pair {
        Pair { tokens: None, reserves: None, deployed: false, ..self }
    }

    /// What one sync commits: the new pair state, or the error of the first
    /// facet whose results were malformed. A facet group is committed only
    /// when every one of its calls succeeded; with both facets requested,
    /// one failing call anywhere resets the whole observed state.
    pub open spec fn sync_transition(
        self,
        sync_tokens: bool,
        sync_reserves: bool,
        rs: Seq<AbiValue>,
    ) -> Result<Pair, PairError> {
        if sync_tokens && sync_reserves {
            let tr = tokens_result(rs.subrange(0, 2));
            let rr = reserves_result(rs.subrange(2, rs.len() as int));
            if tr is Err {
                Err(tr->Err_0)
            } else if rr is Err {
                Err(rr->Err_0)
            } else {
                match (tr->Ok_0, rr->Ok_0) {
                    (Some(t), Some(r)) => Ok(
                        Pair { deployed: true, tokens: Some(t), reserves: Some(r), ..self },
                    ),
                    _ => Ok(self.reset()),
                }
            }
        } else if sync_tokens {
            let tr = tokens_result(rs);
            if tr is Err {
                Err(tr->Err_0)
            } else {
                match tr->Ok_0 {
                    Some(t) => Ok(Pair { deployed: true, tokens: Some(t), ..self }),
                    None => Ok(self.reset()),
                }
            }
        } else if sync_reserves {
            let rr = reserves_result(rs);
            if rr is Err {
                Err(rr->Err_0)
            } else {
                match rr->Ok_0 {
                    Some(r) => Ok(Pair { deployed: true, reserves: Some(r), ..self }),
                    None => Ok(self.reset()),
                }
            }
        } else {
            Ok(self)
        }
    }

    /// Creates a new instance using the provided address: nothing synced,
    /// not deployed.
    pub fn new(address: Address, protocol: ProtocolType) -> (r: Pair)
        ensures
            r.address == address,
            r.tokens is None,
            !r.deployed,
            r.reserves is None,
            r.protocol == protocol,
            r.wf(),
    {
        Pair { address, tokens: None, deployed: false, reserves: None, protocol }
    }

    /// Creates a new instance at the derived address of the two provided
    /// tokens, pre-populated with the canonically sorted token pair, not yet
    /// deployed.
    pub fn new_with_factory(factory: &Factory, token0: Address, token1: Address) -> (r: Result<
        Pair,
        PairError,
    >)
        ensures
            r is Err <==> token0@ == token1@,
            r is Err ==> r->Err_0 == PairError::DegenerateTokenPair,
            r is Ok ==> {
                &&& r->Ok_0.address@ == library::pair_address(
                    factory.address@,
                    factory.protocol.pair_code_hash_spec()@,
                    token0@,
                    token1@,
                )
                &&& r->Ok_0.tokens is Some
                &&& ((r->Ok_0.tokens->0).0@, (r->Ok_0.tokens->0).1@) == sorted_pair(
                    token0@,
                    token1@,
                )
                &&& lex_lt((r->Ok_0.tokens->0).0@, (r->Ok_0.tokens->0).1@)
                &&& !r->Ok_0.deployed
                &&& r->Ok_0.reserves is None
                &&& r->Ok_0.protocol == factory.protocol
            },
    {
        let (token0, token1) = match library::sort_tokens(token0, token1) {
            Ok(pair) => pair,
            Err(e) => {
                return Err(e);
            },
        };
        let code_hash = factory.protocol.pair_code_hash();
        let address = match library::pair_for(&factory.address, &code_hash, token0, token1) {
            Ok(address) => address,
            Err(e) => {
                return Err(e);
            },
        };
        Ok(
            Pair {
                address,
                tokens: Some((token0, token1)),
                deployed: false,
                reserves: None,
                protocol: factory.protocol,
            },
        )
    }

    /// Returns the address of the pair.
    pub fn address(&self) -> (r: Address)
        ensures
            r == self.address,
    {
        self.address
    }

    /// Returns whether the pair has been deployed.
    ///
    /// Note: this will always be false before syncing.
    pub fn deployed(&self) -> (r: bool)
        ensures
            r == self.deployed,
    {
        self.deployed
    }

    /// Returns the addresses of the tokens that make up this pair.
    ///
    /// Note: this will always be None before syncing, unless the pair was
    /// created from its tokens.
    pub fn tokens(&self) -> (r: Option<Tokens>)
        ensures
            r == self.tokens,
    {
        self.tokens
    }

    /// Returns the reserves of the pair.
    ///
    /// Note: this will always be None before syncing.
    pub fn reserves(&self) -> (r: Option<Reserves>)
        ensures
            r == self.reserves,
    {
        self.reserves
    }

    /// Returns the hash of the pair's deployment code.
    pub fn code_hash(&self) -> (r: Hash256)
        ensures
            r == self.protocol.pair_code_hash_spec(),
    {
        self.protocol.pair_code_hash()
    }

    /// Returns the read calls for getting the addresses of the pair's
    /// tokens.
    pub fn get_tokens(&self) -> (r: (CallRequest, CallRequest))
        ensures
            r.0 == (CallRequest {
                target: self.address,
                kind: CallKind::Token0,
                allow_failure: false,
            }),
            r.1 == (CallRequest {
                target: self.address,
                kind: CallKind::Token1,
                allow_failure: false,
            }),
    {
        (
            CallRequest { target: self.address, kind: CallKind::Token0, allow_failure: false },
            CallRequest { target: self.address, kind: CallKind::Token1, allow_failure: false },
        )
    }

    /// Returns the read call for getting the reserves of the pair.
    pub fn get_reserves(&self) -> (r: CallRequest)
        ensures
            r == (CallRequest {
                target: self.address,
                kind: CallKind::GetReserves,
                allow_failure: false,
            }),
    {
        CallRequest { target: self.address, kind: CallKind::GetReserves, allow_failure: false }
    }

    /// The ordered batch a sync with the given flags submits: the two token
    /// reads when tokens are requested, then the reserves read when reserves
    /// are requested, each tolerating an individual revert.
    pub open spec fn sync_requests_spec(self, sync_tokens: bool, sync_reserves: bool) -> Seq<
        CallRequest,
    > {
        (if sync_tokens {
            seq![
                CallRequest { target: self.address, kind: CallKind::Token0, allow_failure: true },
                CallRequest { target: self.address, kind: CallKind::Token1, allow_failure: true },
            ]
        } else {
            Seq::<CallRequest>::empty()
        }) + (if sync_reserves {
            seq![
                CallRequest {
                    target: self.address,
                    kind: CallKind::GetReserves,
                    allow_failure: true,
                },
            ]
        } else {
            Seq::<CallRequest>::empty()
        })
    }

    /// Builds the ordered, failure-tolerant batch of read calls that a sync
    /// with the given flags submits through the transport.
    pub fn sync_requests(&self, sync_tokens: bool, sync_reserves: bool) -> (r: Vec<CallRequest>)
        ensures
            r@ == self.sync_requests_spec(sync_tokens, sync_reserves),
            r@.len() == expected_result_count(sync_tokens, sync_reserves),
    {
        let mut calls: Vec<CallRequest> = Vec::new();
        if sync_tokens {
            calls.push(
                CallRequest { target: self.address, kind: CallKind::Token0, allow_failure: true },
            );
            calls.push(
                CallRequest { target: self.address, kind: CallKind::Token1, allow_failure: true },
            );
        }
        if sync_reserves {
            calls.push(
                CallRequest {
                    target: self.address,
                    kind: CallKind::GetReserves,
                    allow_failure: true,
                },
            );
        }
        proof {
            assert(calls@ =~= self.sync_requests_spec(sync_tokens, sync_reserves));
        }
        calls
    }

    /// Commits the results of one executed sync batch into the pair.
    ///
    /// `results` are the per-call batch results, in the order built by
    /// [`Pair::sync_requests`] with the same flags. On a malformed payload
    /// the pair is left unmodified and the error is surfaced; otherwise the
    /// new state is exactly the sync transition: committed facets when every
    /// requested call succeeded, and a full reset on any failure.
    pub fn sync(&mut self, sync_tokens: bool, sync_reserves: bool, results: Vec<AbiValue>) -> (r:
        Result<(), PairError>)
        requires
            results@.len() == expected_result_count(sync_tokens, sync_reserves),
        ensures
            ({
                let t = old(self).sync_transition(sync_tokens, sync_reserves, results@);
                match t {
                    Ok(p) => r is Ok && *final (self) == p,
                    Err(e) => r is Err && r->Err_0 == e && *final (self) == *old(self),
                }
            }),
            old(self).wf() ==> final (self).wf(),
    {
        let ghost orig = results@;
        if sync_tokens && sync_reserves {
            let mut batch = results;
            let reserves_batch = batch.split_off(2);
            proof {
                assert(batch@ == orig.subrange(0, 2));
                assert(reserves_batch@ == orig.subrange(2, orig.len() as int));
            }
            let tokens_opt = match parse_tokens_result(batch) {
                Ok(o) => o,
                Err(e) => {
                    return Err(e);
                },
            };
            let reserves_opt = match parse_reserves_result(reserves_batch) {
                Ok(o) => o,
                Err(e) => {
                    return Err(e);
                },
            };
            match (tokens_opt, reserves_opt) {
                (Some(t), Some(rsv)) => {
                    self.deployed = true;
                    self.tokens = Some(t);
                    self.reserves = Some(rsv);
                },
                _ => {
                    self.tokens = None;
                    self.reserves = None;
                    self.deployed = false;
                },
            }
        } else if sync_tokens {
            let tokens_opt = match parse_tokens_result(results) {
                Ok(o) => o,
                Err(e) => {
                    return Err(e);
                },
            };
            match tokens_opt {
                Some(t) => {
                    self.deployed = true;
                    self.tokens = Some(t);
                },
                None => {
                    self.tokens = None;
                    self.reserves = None;
                    self.deployed = false;
                },
            }
        } else if sync_reserves {
            let reserves_opt = match parse_reserves_result(results) {
                Ok(o) => o,
                Err(e) => {
                    return Err(e);
                },
            };
            match reserves_opt {
                Some(rsv) => {
                    self.deployed = true;
                    self.reserves = Some(rsv);
                },
                None => {
                    self.tokens = None;
                    self.reserves = None;
                    self.deployed = false;
                },
            }
        }
        Ok(())
    }
}

/// Atomic commit: when tokens and reserves are both requested and any one of
/// the three underlying calls did not succeed, the committed pair has no
/// tokens, no reserves, and is not deployed — never a mix of old and new
/// values.
pub proof fn lemma_sync_atomic_commit(p: Pair, rs: Seq<AbiValue>)
    requires
        rs.len() == 3,
        p.sync_transition(true, true, rs) is Ok,
        !(address_call_outcome(rs[0]) is Success) || !(address_call_outcome(rs[1]) is Success)
            || !(reserves_call_outcome(rs[2]) is Success),
    ensures
        p.sync_transition(true, true, rs)->Ok_0.tokens is None,
        p.sync_transition(true, true, rs)->Ok_0.reserves is None,
        !p.sync_transition(true, true, rs)->Ok_0.deployed,
{
    let head = rs.subrange(0, 2);
    let tail = rs.subrange(2, rs.len() as int);
    assert(head[0] == rs[0] && head[1] == rs[1]);
    assert(tail[0] == rs[2]);
}

/// Idempotence: re-applying the same sync results to the state one sync
/// committed yields that same state again.
pub proof fn lemma_sync_idempotent(
    p: Pair,
    sync_tokens: bool,
    sync_reserves: bool,
    rs: Seq<AbiValue>,
)
    requires
        p.sync_transition(sync_tokens, sync_reserves, rs) is Ok,
    ensures
        p.sync_transition(sync_tokens, sync_reserves, rs)->Ok_0.sync_transition(
            sync_tokens,
            sync_reserves,
            rs,
        ) == p.sync_transition(sync_tokens, sync_reserves, rs),
{
}

/// State consistency is preserved by every successful sync: a well-formed
/// pair stays well-formed, whichever facets were requested and however the
/// calls fared.
pub proof fn lemma_sync_preserves_wf(
    p: Pair,
    sync_tokens: bool,
    sync_reserves: bool,
    rs: Seq<AbiValue>,
)
    requires
        p.wf(),
        p.sync_transition(sync_tokens, sync_reserves, rs) is Ok,
    ensures
        p.sync_transition(sync_tokens, sync_reserves, rs)->Ok_0.wf(),
{
}

} // verus!
