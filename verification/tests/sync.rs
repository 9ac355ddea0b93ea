//! The batched sync protocol: building the batch, committing its results,
//! atomicity of the commit, and idempotence of repeated syncs.

use uniswap_v2::abi::{AbiValue, CallKind, CallRequest};
use uniswap_v2::address::Address;
use uniswap_v2::errors::PairError;
use uniswap_v2::factory::Factory;
use uniswap_v2::pair::Pair;
use uniswap_v2::protocol::{Chain, ProtocolType};

use ethers_core::types::Address as EthAddress;

fn addr(s: &str) -> Address {
    Address(s.parse::<EthAddress>().unwrap().0)
}

const WETH: &str = "0xC02aaA39b223FE8D0A0e5C4F27eAD9083C756Cc2";
const USDC: &str = "0xA0b86991c6218b36c1d19D4a2e9Eb0cE3606eB48";

fn default_pair() -> Pair {
    let weth = addr(WETH);
    let usdc = addr(USDC);
    let factory = Factory::new_with_chain(Chain::Mainnet, ProtocolType::UniswapV2).unwrap();
    Pair::new_with_factory(&factory, weth, usdc).unwrap()
}

fn token_success(a: Address) -> AbiValue {
    AbiValue::Tuple(vec![AbiValue::Bool(true), AbiValue::Addr(a)])
}

fn reserves_success(r0: u128, r1: u128, ts: u32) -> AbiValue {
    AbiValue::Tuple(vec![
        AbiValue::Bool(true),
        AbiValue::Tuple(vec![
            AbiValue::Uint(r0),
            AbiValue::Uint(r1),
            AbiValue::Uint(ts as u128),
        ]),
    ])
}

fn revert(msg: &str) -> AbiValue {
    AbiValue::Tuple(vec![AbiValue::Bool(false), AbiValue::Str(msg.to_string())])
}

#[test]
fn test_sync() {
    let mut pair = default_pair();

    assert!(!pair.deployed());
    let tokens = pair.tokens().unwrap();
    assert_ne!(tokens.0, Address([0u8; 20]));
    assert_ne!(tokens.1, Address([0u8; 20]));

    // The tokens batch succeeds: USDC sorts below WETH.
    pair.sync(
        true,
        false,
        vec![token_success(addr(USDC)), token_success(addr(WETH))],
    )
    .unwrap();
    assert!(pair.deployed());
    assert!(pair.reserves().is_none());
    assert_eq!(pair.tokens().unwrap(), (addr(USDC), addr(WETH)));

    // The reserves batch succeeds.
    pair.sync(false, true, vec![reserves_success(69, 420, 1337)])
        .unwrap();
    let reserves = pair.reserves().unwrap();
    assert!(pair.deployed());
    assert_ne!(reserves.0, 0);
    assert_ne!(reserves.1, 0);
    assert_ne!(reserves.2, 0);
    assert_eq!(reserves, (69, 420, 1337));
}

#[test]
fn sync_batch_is_ordered_and_failure_tolerant() {
    let pair = default_pair();
    let p = pair.address();
    let want = |kind: CallKind| CallRequest {
        target: p,
        kind,
        allow_failure: true,
    };

    let calls = pair.sync_requests(true, true);
    assert_eq!(
        calls,
        vec![
            want(CallKind::Token0),
            want(CallKind::Token1),
            want(CallKind::GetReserves)
        ]
    );
    assert_eq!(pair.sync_requests(true, false).len(), 2);
    assert_eq!(pair.sync_requests(false, true).len(), 1);
    assert!(pair.sync_requests(false, false).is_empty());

    let (t0, t1) = pair.get_tokens();
    assert_eq!(t0.kind, CallKind::Token0);
    assert_eq!(t1.kind, CallKind::Token1);
    assert_eq!(pair.get_reserves().kind, CallKind::GetReserves);
}

#[test]
fn end_to_end_scenario() {
    // Factory F, token A = 0x1111…, token B = 0x2222… (A < B).
    let factory = Factory::new_with_chain(Chain::Mainnet, ProtocolType::UniswapV2).unwrap();
    let a = Address([0x11u8; 20]);
    let b = Address([0x22u8; 20]);

    let p = factory.pair_for(a, b).unwrap().address();
    assert_eq!(factory.pair_for(b, a).unwrap().address(), p);

    let mut pair = Pair::new(p, ProtocolType::UniswapV2);
    assert!(!pair.deployed());
    assert!(pair.tokens().is_none());

    // Tokens-only sync where both calls succeed, returning (A, B).
    pair.sync(true, false, vec![token_success(a), token_success(b)])
        .unwrap();
    assert_eq!(pair.tokens().unwrap(), (a, b));
    assert!(pair.deployed());

    // Reserves-only sync returning (100, 200, 12345).
    pair.sync(false, true, vec![reserves_success(100, 200, 12345)])
        .unwrap();
    assert_eq!(pair.reserves().unwrap(), (100, 200, 12345));
    assert!(pair.deployed());

    // Both facets requested; the reserves call now reverts: full reset.
    pair.sync(
        true,
        true,
        vec![
            token_success(a),
            token_success(b),
            revert("not deployed"),
        ],
    )
    .unwrap();
    assert!(pair.tokens().is_none());
    assert!(pair.reserves().is_none());
    assert!(!pair.deployed());
}

#[test]
fn atomic_commit_on_any_failure() {
    // With both facets requested, one failing call anywhere resets tokens,
    // reserves and the deployed flag together.
    let a = Address([0x11u8; 20]);
    let b = Address([0x22u8; 20]);
    for failing in 0..3usize {
        let mut pair = default_pair();
        pair.sync(false, true, vec![reserves_success(1, 2, 3)])
            .unwrap();
        assert!(pair.deployed());

        let results: Vec<AbiValue> = (0..3)
            .map(|i| {
                if i == failing {
                    revert("revert")
                } else if i < 2 {
                    token_success(if i == 0 { a } else { b })
                } else {
                    reserves_success(10, 20, 30)
                }
            })
            .collect();
        pair.sync(true, true, results).unwrap();
        assert!(pair.tokens().is_none());
        assert!(pair.reserves().is_none());
        assert!(!pair.deployed());
    }
}

#[test]
fn sync_is_idempotent() {
    // Syncing an already-synced, still-deployed pair with the same flags and
    // the same results commits the same state both times.
    let a = Address([0x11u8; 20]);
    let b = Address([0x22u8; 20]);
    let results = || {
        vec![
            token_success(a),
            token_success(b),
            reserves_success(100, 200, 300),
        ]
    };

    let mut pair = default_pair();
    pair.sync(true, true, results()).unwrap();
    let first = pair;
    pair.sync(true, true, results()).unwrap();
    assert_eq!(pair, first);
}

#[test]
fn malformed_batch_leaves_pair_unchanged() {
    let mut pair = default_pair();
    pair.sync(false, true, vec![reserves_success(1, 2, 3)])
        .unwrap();
    let before = pair;

    let err = pair.sync(
        true,
        true,
        vec![
            token_success(Address([0x33u8; 20])),
            AbiValue::Uint(9),
            reserves_success(4, 5, 6),
        ],
    );
    assert_eq!(err, Err(PairError::MalformedResponse));
    assert_eq!(pair, before);
}

#[test]
fn empty_sync_is_a_no_op() {
    let mut pair = default_pair();
    let before = pair;
    pair.sync(false, false, Vec::new()).unwrap();
    assert_eq!(pair, before);
}

#[test]
fn create_pair_builds_the_factory_call() {
    let factory = Factory::new_with_chain(Chain::Mainnet, ProtocolType::UniswapV2).unwrap();
    let a = Address([0x11u8; 20]);
    let b = Address([0x22u8; 20]);
    let call = factory.create_pair(a, b);
    assert_eq!(call.target, factory.address());
    assert_eq!(call.kind, CallKind::CreatePair(a, b));
    assert!(!call.allow_failure);
}

#[test]
fn code_hash_matches_protocol() {
    let pair = default_pair();
    let factory = Factory::new_with_chain(Chain::Mainnet, ProtocolType::UniswapV2).unwrap();
    assert_eq!(pair.code_hash(), factory.pair_code_hash());
    assert_eq!(
        pair.code_hash(),
        ProtocolType::UniswapV2.pair_code_hash()
    );
}
