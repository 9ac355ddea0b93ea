//! Fixed-width byte values: 20-byte contract addresses and 32-byte hashes,
//! with the big-endian lexicographic order that token canonicalization uses.

use vstd::prelude::*;

verus! {

/// A 20-byte contract or token address.
#[derive(Clone, Copy, Debug, PartialEq, Eq, Hash)]
pub struct Address(pub [u8; 20]);

impl View for Address {
    type V = Seq<u8>;

    open spec fn view(&self) -> Seq<u8> {
        self.0@
    }
}

/// A 32-byte hash value, such as a deployment-code hash or a derivation salt.
#[derive(Clone, Copy, Debug, PartialEq, Eq, Hash)]
pub struct Hash256(pub [u8; 32]);

impl View for Hash256 {
    type V = Seq<u8>;

    open spec fn view(&self) -> Seq<u8> {
        self.0@
    }
}

/// `a` is strictly below `b` at position `i`: the bytes before `i` agree and
/// the byte at `i` decides.
pub open spec fn lex_lt_at(a: Seq<u8>, b: Seq<u8>, i: int) -> bool {
    &&& 0 <= i < a.len()
    &&& i < b.len()
    &&& a[i] < b[i]
    &&& forall|j: int| 0 <= j < i ==> a[j] == b[j]
}

/// Big-endian lexicographic order on equal-length byte strings: the first
/// differing byte decides.
pub open spec fn lex_lt(a: Seq<u8>, b: Seq<u8>) -> bool {
    exists|i: int| lex_lt_at(a, b, i)
}

/// The lexicographic order is irreflexive.
pub proof fn lemma_lex_lt_irreflexive(a: Seq<u8>)
    ensures
        !lex_lt(a, a),
{
    if lex_lt(a, a) {
        let i = choose|i: int| lex_lt_at(a, a, i);
        assert(a[i] < a[i]);
    }
}

/// The lexicographic order is asymmetric: no two byte strings are each below
/// the other.
pub proof fn lemma_lex_lt_asymmetric(a: Seq<u8>, b: Seq<u8>)
    ensures
        !(lex_lt(a, b) && lex_lt(b, a)),
{
    if lex_lt(a, b) && lex_lt(b, a) {
        let i = choose|i: int| lex_lt_at(a, b, i);
        let k = choose|k: int| lex_lt_at(b, a, k);
        if i < k {
            assert(b[i] == a[i]);
        } else if k < i {
            assert(a[k] == b[k]);
        } else {
            assert(a[i] < b[i] && b[i] < a[i]);
        }
    }
}

/// The lexicographic order is total on distinct equal-length byte strings.
pub proof fn lemma_lex_lt_total(a: Seq<u8>, b: Seq<u8>)
    requires
        a.len() == b.len(),
        a != b,
    ensures
        lex_lt(a, b) || lex_lt(b, a),
    decreases a.len(),
{
    if a.len() == 0 {
        assert(a =~= b);
    } else if a[0] < b[0] {
        assert(lex_lt_at(a, b, 0));
    } else if b[0] < a[0] {
        assert(lex_lt_at(b, a, 0));
    } else {
        let a1 = a.subrange(1, a.len() as int);
        let b1 = b.subrange(1, b.len() as int);
        if a1 == b1 {
            assert(a =~= b) by {
                assert forall|j: int| 0 <= j < a.len() implies a[j] == b[j] by {
                    if j > 0 {
                        assert(a[j] == a1[j - 1]);
                        assert(b[j] == b1[j - 1]);
                    }
                }
            }
        } else {
            lemma_lex_lt_total(a1, b1);
            if lex_lt(a1, b1) {
                let i = choose|i: int| lex_lt_at(a1, b1, i);
                assert(lex_lt_at(a, b, i + 1)) by {
                    assert(a[i + 1] == a1[i] && b[i + 1] == b1[i]);
                    assert forall|j: int| 0 <= j < i + 1 implies a[j] == b[j] by {
                        if j > 0 {
                            assert(a1[j - 1] == b1[j - 1]);
                        }
                    }
                }
            } else {
                let i = choose|i: int| lex_lt_at(b1, a1, i);
                assert(lex_lt_at(b, a, i + 1)) by {
                    assert(b[i + 1] == b1[i] && a[i + 1] == a1[i]);
                    assert forall|j: int| 0 <= j < i + 1 implies b[j] == a[j] by {
                        if j > 0 {
                            assert(b1[j - 1] == a1[j - 1]);
                        }
                    }
                }
            }
        }
    }
}

/// The canonical ordering of an unordered pair of byte strings: the lesser
/// first. Meaningful only for distinct equal-length inputs.
pub open spec fn sorted_pair(a: Seq<u8>, b: Seq<u8>) -> (Seq<u8>, Seq<u8>) {
    if lex_lt(a, b) {
        (a, b)
    } else {
        (b, a)
    }
}

/// Sorting an unordered pair does not depend on the order in which its two
/// members are supplied.
pub proof fn lemma_sorted_pair_symmetric(a: Seq<u8>, b: Seq<u8>)
    requires
        a.len() == b.len(),
        a != b,
    ensures
        sorted_pair(a, b) == sorted_pair(b, a),
{
    lemma_lex_lt_total(a, b);
    lemma_lex_lt_asymmetric(a, b);
}

/// The first member of a sorted pair of distinct byte strings is strictly
/// below the second.
pub proof fn lemma_sorted_pair_ordered(a: Seq<u8>, b: Seq<u8>)
    requires
        a.len() == b.len(),
        a != b,
    ensures
        lex_lt(sorted_pair(a, b).0, sorted_pair(a, b).1),
{
    lemma_lex_lt_total(a, b);
}

/// Sorting is idempotent: an already-sorted pair sorts to itself.
pub proof fn lemma_sorted_pair_idempotent(a: Seq<u8>, b: Seq<u8>)
    requires
        a.len() == b.len(),
        a != b,
    ensures
        sorted_pair(sorted_pair(a, b).0, sorted_pair(a, b).1) == sorted_pair(a, b),
{
    lemma_lex_lt_total(a, b);
    lemma_lex_lt_asymmetric(a, b);
}

/// Compares two addresses in big-endian lexicographic order.
pub fn addr_lt(x: &Address, y: &Address) -> (r: bool)
    ensures
        r == lex_lt(x@, y@),
{
    let mut i: usize = 0;
    while i < 20
        invariant
            i <= 20,
            forall|j: int| 0 <= j < i ==> x@[j] == y@[j],
        decreases 20 - i,
    {
        let xi = x.0[i];
        let yi = y.0[i];
        if xi < yi {
            proof {
                assert(lex_lt_at(x@, y@, i as int));
            }
            return true;
        }
        if yi < xi {
            proof {
                assert forall|k: int| !lex_lt_at(x@, y@, k) by {
                    if 0 <= k < i {
                        assert(x@[k] == y@[k]);
                    } else if k == i {
                        assert(y@[k] < x@[k]);
                    } else if i < k < 20 {
                        assert(x@[i as int] != y@[i as int]);
                    }
                }
            }
            return false;
        }
        i += 1;
    }
    proof {
        assert forall|k: int| !lex_lt_at(x@, y@, k) by {
            if 0 <= k < 20 {
                assert(x@[k] == y@[k]);
            }
        }
    }
    false
}

/// Tests two addresses for byte-wise equality.
pub fn addr_eq(x: &Address, y: &Address) -> (r: bool)
    ensures
        r == (x@ == y@),
{
    let mut i: usize = 0;
    while i < 20
        invariant
            i <= 20,
            forall|j: int| 0 <= j < i ==> x@[j] == y@[j],
        decreases 20 - i,
    {
        if x.0[i] != y.0[i] {
            proof {
                assert(x@[i as int] != y@[i as int]);
            }
            return false;
        }
        i += 1;
    }
    proof {
        assert(x@ =~= y@);
    }
    true
}

} // verus!
