//! The lexicographic order of strings by their bytes.
use core::cmp::Ordering;
use vstd::prelude::*;
use vstd::std_specs::cmp::{PartialOrdSpec, PartialOrdSpecImpl};

use crate::string::String;

verus! {

/// The lexicographic order of two byte sequences.
pub open spec fn byte_order(a: Seq<u8>, b: Seq<u8>) -> Ordering
    decreases a.len(),
{
    if a.len() == 0 {
        if b.len() == 0 {
            Ordering::Equal
        } else {
            Ordering::Less
        }
    } else if b.len() == 0 {
        Ordering::Greater
    } else if a[0] < b[0] {
        Ordering::Less
    } else if a[0] > b[0] {
        Ordering::Greater
    } else {
        byte_order(a.drop_first(), b.drop_first())
    }
}

proof fn lemma_byte_order_skip(a: Seq<u8>, b: Seq<u8>, i: int)
    requires
        0 <= i <= a.len(),
        i <= b.len(),
        forall|j: int| 0 <= j < i ==> a[j] == b[j],
    ensures
        byte_order(a, b) == byte_order(a.skip(i), b.skip(i)),
    decreases i,
{
    if i > 0 {
        assert(a.len() > 0 && b.len() > 0);
        assert(a[0] == b[0]);
        lemma_byte_order_skip(a.drop_first(), b.drop_first(), i - 1);
        assert(a.drop_first().skip(i - 1) =~= a.skip(i));
        assert(b.drop_first().skip(i - 1) =~= b.skip(i));
    } else {
        assert(a.skip(0) =~= a);
        assert(b.skip(0) =~= b);
    }
}

/// Strings are ordered lexicographically by their bytes, as `str` is.
impl PartialOrd for String {
    fn partial_cmp(&self, other: &Self) -> (order: Option<Ordering>) {
        let n = self.content_len();
        let m = other.content_len();
        let mut i: usize = 0;
        let ghost mut k: int = 0;
        while i < n && i < m
            invariant
                k == i,
                n == self@.len(),
                m == other@.len(),
                i <= n,
                i <= m,
                forall|j: int| 0 <= j < i ==> self@[j] == other@[j],
            decreases n - i,
        {
            let x = self.content_byte(i);
            let y = other.content_byte(i);
            if x != y {
                proof {
                    lemma_byte_order_skip(self@, other@, k);
                    assert(self@.skip(k)[0] == x);
                    assert(other@.skip(k)[0] == y);
                }
                if x < y {
                    return Some(Ordering::Less);
                } else {
                    return Some(Ordering::Greater);
                }
            }
            i = i + 1;
            proof {
                k = k + 1;
            }
        }
        proof {
            lemma_byte_order_skip(self@, other@, k);
        }
        if n < m {
            Some(Ordering::Less)
        } else if n > m {
            Some(Ordering::Greater)
        } else {
            Some(Ordering::Equal)
        }
    }
}

impl PartialOrdSpecImpl for String {
    open spec fn obeys_partial_cmp_spec() -> bool {
        true
    }

    open spec fn partial_cmp_spec(&self, other: &Self) -> Option<Ordering> {
        Some(byte_order(self@, other@))
    }
}

/// The order is antisymmetric: swapping the operands reverses it, and only equal
/// contents compare equal.
pub proof fn lemma_byte_order_antisymmetric(a: Seq<u8>, b: Seq<u8>)
    ensures
        byte_order(a, b) == Ordering::Equal <==> a == b,
        byte_order(a, b) == Ordering::Less <==> byte_order(b, a) == Ordering::Greater,
    decreases a.len(),
{
    if a.len() > 0 && b.len() > 0 {
        lemma_byte_order_antisymmetric(a.drop_first(), b.drop_first());
        if a[0] == b[0] && a.drop_first() == b.drop_first() {
            assert(a.len() == b.len());
            assert forall|j: int| 0 <= j < a.len() implies a[j] == b[j] by {
                if j > 0 {
                    assert(a[j] == a.drop_first()[j - 1]);
                    assert(b[j] == b.drop_first()[j - 1]);
                }
            }
            assert(a =~= b);
        }
        if a == b {
            assert(a.drop_first() == b.drop_first());
        }
    } else if a.len() == 0 && b.len() == 0 {
        assert(a =~= b);
    }
}

/// At the first position where two byte sequences differ, the smaller byte (bytes
/// are `u8`, unsigned) makes its sequence the smaller one.
pub proof fn lemma_byte_order_first_difference(a: Seq<u8>, b: Seq<u8>, i: int)
    requires
        0 <= i < a.len(),
        i < b.len(),
        forall|j: int| 0 <= j < i ==> a[j] == b[j],
        a[i] != b[i],
    ensures
        byte_order(a, b) == (if a[i] < b[i] {
            Ordering::Less
        } else {
            Ordering::Greater
        }),
{
    lemma_byte_order_skip(a, b, i);
    assert(a.skip(i)[0] == a[i]);
    assert(b.skip(i)[0] == b[i]);
}

/// A proper prefix comes before the longer sequence.
pub proof fn lemma_byte_order_prefix(a: Seq<u8>, b: Seq<u8>)
    requires
        a.len() < b.len(),
        forall|j: int| 0 <= j < a.len() ==> a[j] == b[j],
    ensures
        byte_order(a, b) == Ordering::Less,
        byte_order(b, a) == Ordering::Greater,
{
    let n: int = a.len() + 0int;
    lemma_byte_order_skip(a, b, n);
    lemma_byte_order_skip(b, a, n);
    assert(a.skip(n).len() == 0);
}

/// Comparing two strings: at the first byte where their contents differ, the
/// string with the smaller (unsigned) byte is the smaller one; a string whose
/// content is a proper prefix of the other's is the smaller one; and only equal
/// contents compare equal.
pub proof fn lemma_string_order(x: String, y: String, i: int)
    ensures
        (0 <= i < x@.len() && i < y@.len() && (forall|j: int| 0 <= j < i ==> x@[j] == y@[j])
            && x@[i] != y@[i]) ==> PartialOrdSpec::partial_cmp_spec(&x, &y) == Some(
            if x@[i] < y@[i] {
                Ordering::Less
            } else {
                Ordering::Greater
            },
        ),
        (x@.len() < y@.len() && (forall|j: int| 0 <= j < x@.len() ==> x@[j] == y@[j]))
            ==> PartialOrdSpec::partial_cmp_spec(&x, &y) == Some(Ordering::Less),
        PartialOrdSpec::partial_cmp_spec(&x, &y) == Some(Ordering::Equal) <==> x@ == y@,
{
    if 0 <= i < x@.len() && i < y@.len() && (forall|j: int| 0 <= j < i ==> x@[j] == y@[j])
        && x@[i] != y@[i] {
        lemma_byte_order_first_difference(x@, y@, i);
    }
    if x@.len() < y@.len() && (forall|j: int| 0 <= j < x@.len() ==> x@[j] == y@[j]) {
        lemma_byte_order_prefix(x@, y@);
    }
    lemma_byte_order_antisymmetric(x@, y@);
}

} // verus!
