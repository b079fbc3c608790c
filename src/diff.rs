//! Where two character sequences first part ways.

use vstd::prelude::*;
use crate::text::chars_of;

verus! {

/// Length of the longest common prefix of `a` and `b`.
pub open spec fn common_prefix_len(a: Seq<char>, b: Seq<char>) -> nat
    decreases a.len(),
{
    if a.len() == 0 || b.len() == 0 || a[0] != b[0] {
        0
    } else {
        1 + common_prefix_len(a.drop_first(), b.drop_first())
    }
}

/// The position at which `a` and `b` first differ: the first mismatching
/// index, or the length of the shorter one when one is a prefix of the other;
/// 0 when the two are equal.
pub open spec fn first_difference_of(a: Seq<char>, b: Seq<char>) -> nat {
    if a == b {
        0
    } else {
        common_prefix_len(a, b)
    }
}

/// `i` is the common prefix length when the first `i` characters agree and
/// the sequences either end or disagree at `i`.
pub proof fn lemma_common_prefix_len(a: Seq<char>, b: Seq<char>, i: int)
    requires
        0 <= i <= a.len(),
        i <= b.len(),
        forall|j: int| 0 <= j < i ==> a[j] == b[j],
        i == a.len() || i == b.len() || a[i] != b[i],
    ensures
        common_prefix_len(a, b) == i,
    decreases i,
{
    if i > 0 {
        assert(a[0] == b[0]);
        let a1 = a.drop_first();
        let b1 = b.drop_first();
        assert forall|j: int| 0 <= j < i - 1 implies a1[j] == b1[j] by {
            assert(a[j + 1] == b[j + 1]);
        }
        lemma_common_prefix_len(a1, b1, i - 1);
    }
}

/// The common prefix really is common, and is followed by a mismatch or an end.
pub proof fn lemma_common_prefix_len_facts(a: Seq<char>, b: Seq<char>)
    ensures
        common_prefix_len(a, b) <= a.len(),
        common_prefix_len(a, b) <= b.len(),
        forall|j: int| 0 <= j < common_prefix_len(a, b) ==> a[j] == b[j],
        common_prefix_len(a, b) == a.len() || common_prefix_len(a, b) == b.len()
            || a[common_prefix_len(a, b) as int] != b[common_prefix_len(a, b) as int],
    decreases a.len(),
{
    if !(a.len() == 0 || b.len() == 0 || a[0] != b[0]) {
        let a1 = a.drop_first();
        let b1 = b.drop_first();
        lemma_common_prefix_len_facts(a1, b1);
        let k = common_prefix_len(a, b) as int;
        assert forall|j: int| 0 <= j < k implies a[j] == b[j] by {
            if j > 0 {
                assert(a1[j - 1] == b1[j - 1]);
            }
        }
        if k < a.len() && k < b.len() {
            assert(a1[k - 1] != b1[k - 1]);
        }
    }
}

/// The first difference does not depend on the order of its arguments.
pub proof fn lemma_first_difference_symmetric(a: Seq<char>, b: Seq<char>)
    ensures
        first_difference_of(a, b) == first_difference_of(b, a),
{
    lemma_common_prefix_len_facts(a, b);
    lemma_common_prefix_len(b, a, common_prefix_len(a, b) as int);
}

/// Prefix rule: when one sequence is a proper prefix of the other, the first
/// difference is the length of the shorter, in either order.
pub proof fn lemma_first_difference_prefix(a: Seq<char>, b: Seq<char>)
    requires
        a.len() < b.len(),
        a == b.take(a.len() as int),
    ensures
        first_difference_of(a, b) == a.len(),
        first_difference_of(b, a) == a.len(),
{
    assert(a != b);
    lemma_common_prefix_len(a, b, a.len() as int);
    lemma_first_difference_symmetric(a, b);
}

/// Character index at which `s1` and `s2` first differ (see
/// `first_difference_of`).
pub fn find_first_difference(s1: &str, s2: &str) -> (r: usize)
    ensures
        r == first_difference_of(s1@, s2@),
{
    let a = chars_of(s1);
    let b = chars_of(s2);
    let n = if a.len() < b.len() { a.len() } else { b.len() };
    let mut i: usize = 0;
    while i < n && a[i] == b[i]
        invariant
            n <= a@.len(),
            n <= b@.len(),
            n == a@.len() || n == b@.len(),
            i <= n,
            forall|j: int| 0 <= j < i ==> a@[j] == b@[j],
        decreases n - i,
    {
        i = i + 1;
    }
    proof {
        lemma_common_prefix_len(a@, b@, i as int);
    }
    if i == n && a.len() == b.len() {
        assert(a@ =~= b@);
        0
    } else {
        proof {
            if a@ == b@ {
                assert(a@.len() == b@.len());
            }
        }
        i
    }
}

} // verus!
