//! The order of byte sequences of one length, from the first byte on.
//!
//! The first position at which two sequences differ decides which of them comes
//! first. This module defines that order, finds the deciding position, and
//! proves that the order is a strict total one.

use vstd::prelude::*;

verus! {

/// Whether the byte sequence `a` comes before `b`: at the first position where
/// the two differ, the byte of `a` is the smaller one.
pub open spec fn bytes_precede(a: Seq<u8>, b: Seq<u8>) -> bool {
    exists|k: int|
        0 <= k < a.len() && k < b.len() && #[trigger] a[k] < b[k] && forall|j: int|
            0 <= j < k ==> #[trigger] a[j] == b[j]
}

/// The first position from `from` on at which `a` and `b` differ, or the length
/// of `a` where there is none.
pub open spec fn first_difference(a: Seq<u8>, b: Seq<u8>, from: int) -> int
    decreases a.len() - from,
{
    if from < 0 || from >= a.len() || a[from] != b[from] {
        from
    } else {
        first_difference(a, b, from + 1)
    }
}

/// What `first_difference` finds: the two sequences agree from `from` up to it,
/// and differ at it unless it is the end.
pub proof fn lemma_first_difference(a: Seq<u8>, b: Seq<u8>, from: int)
    requires
        a.len() == b.len(),
        0 <= from <= a.len(),
    ensures
        from <= first_difference(a, b, from) <= a.len(),
        forall|j: int| from <= j < first_difference(a, b, from) ==> #[trigger] a[j] == b[j],
        first_difference(a, b, from) < a.len() ==> a[first_difference(a, b, from)]
            != b[first_difference(a, b, from)],
    decreases a.len() - from,
{
    if from < a.len() && a[from] == b[from] {
        lemma_first_difference(a, b, from + 1);
    }
}

/// The first difference decides: two sequences of one length are equal where
/// there is none, and otherwise the one with the smaller byte there comes first.
pub proof fn lemma_first_difference_decides(a: Seq<u8>, b: Seq<u8>)
    requires
        a.len() == b.len(),
    ensures
        first_difference(a, b, 0) == a.len() <==> a == b,
        bytes_precede(a, b) <==> first_difference(a, b, 0) < a.len() && a[first_difference(a, b, 0)]
            < b[first_difference(a, b, 0)],
        bytes_precede(b, a) <==> first_difference(a, b, 0) < a.len() && a[first_difference(a, b, 0)]
            > b[first_difference(a, b, 0)],
{
    lemma_first_difference(a, b, 0);
    let k = first_difference(a, b, 0);
    if k == a.len() {
        assert(a =~= b);
    } else {
        assert(a[k] != b[k]);
        if a[k] < b[k] {
            assert(bytes_precede(a, b));
        } else {
            assert(b[k] < a[k]);
            assert(forall|j: int| 0 <= j < k ==> #[trigger] b[j] == a[j]);
            assert(bytes_precede(b, a));
        }
    }
}

/// Of two byte sequences of one length, exactly one of these holds: the first
/// comes before the second, the two are equal, the second comes before the first.
pub proof fn lemma_order_is_total(a: Seq<u8>, b: Seq<u8>)
    requires
        a.len() == b.len(),
    ensures
        bytes_precede(a, b) || a == b || bytes_precede(b, a),
        !(bytes_precede(a, b) && a == b),
        !(bytes_precede(b, a) && a == b),
        !(bytes_precede(a, b) && bytes_precede(b, a)),
{
    lemma_first_difference(a, b, 0);
    lemma_first_difference_decides(a, b);
}

/// The order is transitive: what comes before a sequence also comes before
/// everything that the sequence comes before.
pub proof fn lemma_order_is_transitive(a: Seq<u8>, b: Seq<u8>, c: Seq<u8>)
    requires
        a.len() == b.len(),
        b.len() == c.len(),
        bytes_precede(a, b),
        bytes_precede(b, c),
    ensures
        bytes_precede(a, c),
{
    let k1 = choose|k: int|
        0 <= k < a.len() && k < b.len() && #[trigger] a[k] < b[k] && forall|j: int|
            0 <= j < k ==> #[trigger] a[j] == b[j];
    let k2 = choose|k: int|
        0 <= k < b.len() && k < c.len() && #[trigger] b[k] < c[k] && forall|j: int|
            0 <= j < k ==> #[trigger] b[j] == c[j];
    let k = if k1 <= k2 {
        k1
    } else {
        k2
    };
    assert(a[k] < c[k]);
    assert(forall|j: int| 0 <= j < k ==> #[trigger] a[j] == c[j]) by {
        assert forall|j: int| 0 <= j < k implies #[trigger] a[j] == c[j] by {
            assert(a[j] == b[j]);
            assert(b[j] == c[j]);
        }
    }
}

/// Finds the first position at which two arrays differ; the length, where they
/// are equal.
pub fn first_mismatch(a: &[u8; 32], b: &[u8; 32]) -> (k: usize)
    ensures
        k == first_difference(a@, b@, 0),
        k <= 32,
{
    let mut i: usize = 0;
    while i < 32
        invariant
            i <= 32,
            first_difference(a@, b@, 0) == first_difference(a@, b@, i as int),
        decreases 32 - i,
    {
        if a[i] != b[i] {
            return i;
        }
        i += 1;
    }
    i
}

} // verus!
