//! Deterministic pair-address derivation: canonical token ordering, and the
//! fixed-prefix double-hash formula that computes the address a factory would
//! deploy a pair at, with no network access.

use vstd::prelude::*;

use crate::address::{
    addr_eq, addr_lt, lemma_sorted_pair_ordered, lemma_sorted_pair_symmetric, lex_lt, sorted_pair,
    Address, Hash256,
};
use crate::errors::PairError;

verus! {

/// The Keccak-256 digest of a byte string, named but not written out: the
/// trusted wrapper below states that the external hash call returns it.
pub uninterp spec fn keccak256_bytes(input: Seq<u8>) -> Seq<u8>;

/// Relies on `ethers_core::utils::keccak256`: the 32-byte Keccak-256 digest,
/// a function of the input bytes alone.
#[verifier::external_body]
fn keccak256(input: &Vec<u8>) -> (r: Hash256)
    ensures
        r@ == keccak256_bytes(input@),
        r@.len() == 32,
{
    Hash256(ethers_core::utils::keccak256(input.as_slice()))
}

/// The address the factory's deterministic deployment formula yields for an
/// already-canonicalized token pair: the low 20 bytes of
/// `keccak256(0xff ++ factory ++ keccak256(token0 ++ token1) ++ code_hash)`.
pub open spec fn derived_pair_address(
    factory: Seq<u8>,
    code_hash: Seq<u8>,
    token0: Seq<u8>,
    token1: Seq<u8>,
) -> Seq<u8> {
    let salt = keccak256_bytes(token0 + token1);
    keccak256_bytes(seq![0xffu8] + factory + salt + code_hash).subrange(12, 32)
}

/// The pair address for an unordered pair of distinct tokens: the tokens are
/// canonicalized first, so the result does not depend on argument order.
pub open spec fn pair_address(
    factory: Seq<u8>,
    code_hash: Seq<u8>,
    a: Seq<u8>,
    b: Seq<u8>,
) -> Seq<u8> {
    let (token0, token1) = sorted_pair(a, b);
    derived_pair_address(factory, code_hash, token0, token1)
}

/// Address derivation is symmetric: swapping the two token arguments yields
/// the same pair address, for any distinct token addresses.
pub proof fn lemma_pair_address_symmetric(
    factory: Seq<u8>,
    code_hash: Seq<u8>,
    a: Seq<u8>,
    b: Seq<u8>,
)
    requires
        a.len() == b.len(),
        a != b,
    ensures
        pair_address(factory, code_hash, a, b) == pair_address(factory, code_hash, b, a),
{
    lemma_sorted_pair_symmetric(a, b);
}

/// Canonicalizes two token addresses into ascending lexicographic order.
///
/// Fails exactly when the two addresses are equal; otherwise returns the
/// lesser address first.
pub fn sort_tokens(token_a: Address, token_b: Address) -> (r: Result<
    (Address, Address),
    PairError,
>)
    ensures
        r is Err <==> token_a@ == token_b@,
        r is Err ==> r->Err_0 == PairError::DegenerateTokenPair,
        r is Ok ==> {
            &&& (r->Ok_0.0@, r->Ok_0.1@) == sorted_pair(token_a@, token_b@)
            &&& lex_lt(r->Ok_0.0@, r->Ok_0.1@)
        },
{
    if addr_eq(&token_a, &token_b) {
        Err(PairError::DegenerateTokenPair)
    } else {
        proof {
            lemma_sorted_pair_ordered(token_a@, token_b@);
        }
        if addr_lt(&token_a, &token_b) {
            Ok((token_a, token_b))
        } else {
            Ok((token_b, token_a))
        }
    }
}

/// Appends an address's 20 bytes to a byte buffer.
fn push_address(buf: &mut Vec<u8>, a: &Address)
    ensures
        final(buf)@ == old(buf)@ + a@,
{
    let mut i: usize = 0;
    while i < 20
        invariant
            i <= 20,
            buf@ == old(buf)@ + a@.subrange(0, i as int),
        decreases 20 - i,
    {
        buf.push(a.0[i]);
        proof {
            assert(old(buf)@ + a@.subrange(0, i as int) + seq![a@[i as int]] =~= old(buf)@
                + a@.subrange(0, i + 1));
        }
        i += 1;
    }
    proof {
        assert(a@.subrange(0, 20) =~= a@);
    }
}

/// Appends a hash's 32 bytes to a byte buffer.
fn push_hash(buf: &mut Vec<u8>, h: &Hash256)
    ensures
        final(buf)@ == old(buf)@ + h@,
{
    let mut i: usize = 0;
    while i < 32
        invariant
            i <= 32,
            buf@ == old(buf)@ + h@.subrange(0, i as int),
        decreases 32 - i,
    {
        buf.push(h.0[i]);
        proof {
            assert(old(buf)@ + h@.subrange(0, i as int) + seq![h@[i as int]] =~= old(buf)@
                + h@.subrange(0, i + 1));
        }
        i += 1;
    }
    proof {
        assert(h@.subrange(0, 32) =~= h@);
    }
}

/// The low-order 20 bytes of a 32-byte hash, as an address.
fn low_20_bytes(d: &Hash256) -> (r: Address)
    ensures
        r@ == d@.subrange(12, 32),
{
    let r = Address(
        [
            d.0[12], d.0[13], d.0[14], d.0[15], d.0[16], d.0[17], d.0[18], d.0[19], d.0[20],
            d.0[21], d.0[22], d.0[23], d.0[24], d.0[25], d.0[26], d.0[27], d.0[28], d.0[29],
            d.0[30], d.0[31],
        ],
    );
    proof {
        assert(r@ =~= d@.subrange(12, 32));
    }
    r
}

/// Derives the unique deterministic pair address for two distinct token
/// addresses under the given factory address and deployment-code hash.
///
/// Fails exactly when the two token addresses are equal; the result is
/// otherwise symmetric in the two tokens.
pub fn pair_for(
    factory: &Address,
    code_hash: &Hash256,
    token_a: Address,
    token_b: Address,
) -> (r: Result<Address, PairError>)
    ensures
        r is Err <==> token_a@ == token_b@,
        r is Err ==> r->Err_0 == PairError::DegenerateTokenPair,
        r is Ok ==> r->Ok_0@ == pair_address(factory@, code_hash@, token_a@, token_b@),
{
    let (token0, token1) = match sort_tokens(token_a, token_b) {
        Ok(pair) => pair,
        Err(e) => {
            return Err(e);
        },
    };

    let mut salt_input: Vec<u8> = Vec::new();
    push_address(&mut salt_input, &token0);
    push_address(&mut salt_input, &token1);
    proof {
        assert(salt_input@ =~= token0@ + token1@);
    }
    let salt = keccak256(&salt_input);

    let mut preimage: Vec<u8> = Vec::new();
    preimage.push(0xffu8);
    push_address(&mut preimage, factory);
    push_hash(&mut preimage, &salt);
    push_hash(&mut preimage, code_hash);
    proof {
        assert(preimage@ =~= seq![0xffu8] + factory@ + salt@ + code_hash@);
    }
    let digest = keccak256(&preimage);

    Ok(low_20_bytes(&digest))
}

} // verus!
