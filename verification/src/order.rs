//! The lexicographic order of strings, which is the order `String` keys take in a sorted map.

use vstd::prelude::*;
use vstd::string::*;

verus! {

/// The length of the longest common prefix of `a` and `b`, counted from position `i`.
pub open spec fn common_prefix_from(a: Seq<char>, b: Seq<char>, i: nat) -> nat
    decreases a.len() - i,
{
    if i >= a.len() || i >= b.len() || a[i as int] != b[i as int] {
        i
    } else {
        common_prefix_from(a, b, i + 1)
    }
}

/// The length of the longest common prefix of `a` and `b`.
pub open spec fn common_prefix(a: Seq<char>, b: Seq<char>) -> nat {
    common_prefix_from(a, b, 0)
}

/// `a` sorts strictly before `b`: at the first position where they differ `a` holds the smaller
/// character, or `a` is a proper prefix of `b`.
pub open spec fn text_lt(a: Seq<char>, b: Seq<char>) -> bool {
    let k = common_prefix(a, b);
    k < b.len() && (k == a.len() || (a[k as int] as int) < (b[k as int] as int))
}

/// Positions `k` where two texts first part ways.
pub open spec fn parts_at(a: Seq<char>, b: Seq<char>, k: nat) -> bool {
    &&& k <= a.len()
    &&& k <= b.len()
    &&& forall|j: int| 0 <= j < k ==> #[trigger] a[j] == b[j]
    &&& (k == a.len() || k == b.len() || a[k as int] != b[k as int])
}

proof fn lemma_common_prefix_from(a: Seq<char>, b: Seq<char>, i: nat, k: nat)
    requires
        i <= k,
        parts_at(a, b, k),
    ensures
        common_prefix_from(a, b, i) == k,
    decreases k - i,
{
    if i < k {
        assert(a[i as int] == b[i as int]);
        lemma_common_prefix_from(a, b, i + 1, k);
    }
}

/// The common prefix is the one position where the texts part ways.
pub proof fn lemma_common_prefix(a: Seq<char>, b: Seq<char>, k: nat)
    requires
        parts_at(a, b, k),
    ensures
        common_prefix(a, b) == k,
{
    lemma_common_prefix_from(a, b, 0, k);
}

proof fn lemma_parts_somewhere_from(a: Seq<char>, b: Seq<char>, i: nat)
    requires
        i <= a.len(),
        i <= b.len(),
        forall|j: int| 0 <= j < i ==> #[trigger] a[j] == b[j],
    ensures
        parts_at(a, b, common_prefix_from(a, b, i)),
    decreases a.len() - i,
{
    if !(i >= a.len() || i >= b.len() || a[i as int] != b[i as int]) {
        assert forall|j: int| 0 <= j < i + 1 implies #[trigger] a[j] == b[j] by {
            if j < i {
            }
        }
        lemma_parts_somewhere_from(a, b, i + 1);
    }
}

/// The common prefix is where the texts part ways.
pub proof fn lemma_common_prefix_parts(a: Seq<char>, b: Seq<char>)
    ensures
        parts_at(a, b, common_prefix(a, b)),
{
    lemma_parts_somewhere_from(a, b, 0);
}

/// No text sorts before itself.
pub proof fn lemma_text_lt_irreflexive(a: Seq<char>)
    ensures
        !text_lt(a, a),
{
    lemma_common_prefix(a, a, a.len());
}

/// Two texts are equal or one sorts before the other, and never both ways.
pub proof fn lemma_text_lt_trichotomy(a: Seq<char>, b: Seq<char>)
    ensures
        a == b || text_lt(a, b) || text_lt(b, a),
        !(text_lt(a, b) && text_lt(b, a)),
{
    lemma_common_prefix_parts(a, b);
    let k = common_prefix(a, b);
    assert(parts_at(b, a, k));
    lemma_common_prefix(b, a, k);
    if k == a.len() && k == b.len() {
        assert(a =~= b);
    } else if k < a.len() && k < b.len() {
        let x = a[k as int];
        let y = b[k as int];
        assert(x != y);
        assert((x as int) != (y as int));
    }
}

/// The order is transitive.
pub proof fn lemma_text_lt_transitive(a: Seq<char>, b: Seq<char>, c: Seq<char>)
    requires
        text_lt(a, b),
        text_lt(b, c),
    ensures
        text_lt(a, c),
{
    lemma_common_prefix_parts(a, b);
    lemma_common_prefix_parts(b, c);
    let p = common_prefix(a, b);
    let q = common_prefix(b, c);
    if p < q {
        assert(parts_at(a, c, p));
        lemma_common_prefix(a, c, p);
    } else if q < p {
        assert(parts_at(a, c, q));
        lemma_common_prefix(a, c, q);
    } else {
        assert(parts_at(a, c, p));
        lemma_common_prefix(a, c, p);
    }
}

/// Whether `a` sorts strictly before `b`.
pub fn text_less(a: &str, b: &str) -> (r: bool)
    ensures
        r == text_lt(a@, b@),
{
    let n = a.unicode_len();
    let m = b.unicode_len();
    let mut i: usize = 0;
    while i < n && i < m
        invariant
            n == a@.len(),
            m == b@.len(),
            i <= n,
            i <= m,
            forall|j: int| 0 <= j < i ==> #[trigger] a@[j] == b@[j],
        decreases n - i,
    {
        let x = a.get_char(i);
        let y = b.get_char(i);
        if x != y {
            proof {
                assert(parts_at(a@, b@, i as nat));
                lemma_common_prefix(a@, b@, i as nat);
            }
            return (x as u32) < (y as u32);
        }
        i += 1;
    }
    proof {
        assert(parts_at(a@, b@, i as nat));
        lemma_common_prefix(a@, b@, i as nat);
    }
    i < m
}

} // verus!
