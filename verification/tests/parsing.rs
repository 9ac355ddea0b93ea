//! Batch-result parsing: whole-batch decode scenarios, the resolution of
//! each call outcome, and the decode-ambiguity policy.

use uniswap_v2::abi::{
    parse_errors, parse_reserves_result, parse_tokens_result, resolve_address_call,
    resolve_reserves_call, AbiValue, CallOutcome,
};
use uniswap_v2::address::Address;
use uniswap_v2::errors::PairError;

use ethers_core::types::Address as EthAddress;

fn random_address() -> Address {
    Address(EthAddress::random().0)
}

fn success_token_entry(a: Address) -> AbiValue {
    AbiValue::Tuple(vec![AbiValue::Bool(true), AbiValue::Addr(a)])
}

fn success_reserves_entry(r0: u128, r1: u128, ts: u32) -> AbiValue {
    AbiValue::Tuple(vec![
        AbiValue::Bool(true),
        AbiValue::Tuple(vec![
            AbiValue::Uint(r0),
            AbiValue::Uint(r1),
            AbiValue::Uint(ts as u128),
        ]),
    ])
}

fn failure_entry(msg: &str) -> AbiValue {
    AbiValue::Tuple(vec![AbiValue::Bool(false), AbiValue::Str(msg.to_string())])
}

fn success_tokens(a0: Address, a1: Address) -> Vec<AbiValue> {
    vec![
        success_token_entry(a0),
        success_token_entry(a1),
        success_reserves_entry(69u128, 420u128, 1337u32),
    ]
}

fn failure_tokens(msg: &str) -> Vec<AbiValue> {
    vec![failure_entry(msg), failure_entry(msg), failure_entry(msg)]
}

#[test]
fn test_parsing() {
    let addresses = (random_address(), random_address());
    let reserve_uints = (69u128, 420u128, 1337u32);
    let error_message = "Error message".to_string();

    // parse_errors

    let errors = parse_errors(success_tokens(addresses.0, addresses.1));
    assert_eq!(errors.len(), 3);
    for e in errors {
        assert!(e.is_none());
    }

    let errors = parse_errors(failure_tokens(&error_message));
    assert_eq!(errors.len(), 3);
    for e in errors {
        assert_eq!(e.unwrap(), error_message.clone());
    }

    // per-call resolution

    assert_eq!(
        resolve_address_call(success_token_entry(addresses.0)),
        CallOutcome::Success(addresses.0)
    );
    assert_eq!(
        resolve_address_call(success_token_entry(addresses.1)),
        CallOutcome::Success(addresses.1)
    );
    assert_eq!(
        resolve_reserves_call(success_reserves_entry(
            reserve_uints.0,
            reserve_uints.1,
            reserve_uints.2
        )),
        CallOutcome::Success(reserve_uints)
    );
    assert_eq!(
        resolve_address_call(failure_entry(&error_message)),
        CallOutcome::Reverted
    );
    assert_eq!(
        resolve_reserves_call(failure_entry(&error_message)),
        CallOutcome::Reverted
    );

    // parse_tokens_result

    let result = parse_tokens_result(vec![
        success_token_entry(addresses.0),
        success_token_entry(addresses.1),
    ])
    .unwrap();
    assert_eq!(result.unwrap(), addresses);

    let result = parse_tokens_result(failure_tokens(&error_message));
    assert!(result.unwrap().is_none());

    // parse_reserves_result

    let result = parse_reserves_result(vec![success_reserves_entry(
        reserve_uints.0,
        reserve_uints.1,
        reserve_uints.2,
    )])
    .unwrap();
    assert_eq!(result.unwrap(), reserve_uints);

    let result = parse_reserves_result(failure_tokens(&error_message));
    assert!(result.unwrap().is_none());
}

#[test]
fn reverted_call_is_absent_not_malformed() {
    // A payload that is a valid encoding of (false, "reason") resolves to an
    // absent facet, never to MalformedResponse.
    let result = parse_reserves_result(vec![failure_entry("reason string")]).unwrap();
    assert!(result.is_none());

    let result = parse_tokens_result(vec![failure_entry("reason"), failure_entry("reason")])
        .unwrap();
    assert!(result.is_none());
}

#[test]
fn unrecognized_payload_is_malformed() {
    // A payload matching neither the success shape nor the failure shape
    // must fail with MalformedResponse.
    let garbage = AbiValue::Tuple(vec![]);
    assert_eq!(
        parse_tokens_result(vec![success_token_entry(random_address()), garbage]),
        Err(PairError::MalformedResponse)
    );

    let garbage = AbiValue::Uint(5);
    assert_eq!(
        parse_reserves_result(vec![garbage]),
        Err(PairError::MalformedResponse)
    );

    // A success flag beside a payload of the wrong type is malformed too.
    let wrong_payload = AbiValue::Tuple(vec![AbiValue::Bool(true), AbiValue::Uint(7)]);
    assert_eq!(
        resolve_address_call(wrong_payload),
        CallOutcome::Malformed
    );
}

#[test]
fn success_flag_false_means_absent() {
    // The transport-level success flag wins over the payload shape.
    let flag_false = AbiValue::Tuple(vec![AbiValue::Bool(false), AbiValue::Addr(random_address())]);
    assert_eq!(resolve_address_call(flag_false), CallOutcome::Reverted);

    let flag_false = AbiValue::Tuple(vec![AbiValue::Bool(false), AbiValue::Uint(3)]);
    assert_eq!(resolve_reserves_call(flag_false), CallOutcome::Reverted);
}

#[test]
fn oversized_timestamp_is_malformed() {
    // A reserves triple whose timestamp does not fit 32 bits decodes as no
    // known shape.
    let too_big = AbiValue::Tuple(vec![
        AbiValue::Bool(true),
        AbiValue::Tuple(vec![
            AbiValue::Uint(1),
            AbiValue::Uint(2),
            AbiValue::Uint(u32::MAX as u128 + 1),
        ]),
    ]);
    assert_eq!(resolve_reserves_call(too_big), CallOutcome::Malformed);
}
