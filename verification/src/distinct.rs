//! Finding a repeated identity by sorting a copy and comparing neighbours.

use crate::identity::Identity;
use vstd::prelude::*;

verus! {

/// No element of `s` precedes one that stands before it.
pub open spec fn ordered(s: Seq<Identity>) -> bool {
    forall|i: int, j: int| 0 <= i < j < s.len() ==> !s[j].precedes(s[i])
}

/// No two neighbours in `s` are equal.
spec fn neighbours_differ(s: Seq<Identity>) -> bool {
    forall|k: int| 0 <= k < s.len() - 1 ==> #[trigger] s[k] != s[k + 1]
}

/// Inserting `x` into an ordered sequence, after everything that it does not
/// precede and before the first element that it precedes, keeps the order.
proof fn lemma_insert_keeps_order(s: Seq<Identity>, at: int, x: Identity)
    requires
        ordered(s),
        0 <= at <= s.len(),
        forall|k: int| 0 <= k < at ==> !x.precedes(s[k]),
        at < s.len() ==> x.precedes(s[at]),
    ensures
        ordered(s.insert(at, x)),
{
    let t = s.insert(at, x);
    assert forall|i: int, j: int| 0 <= i < j < t.len() implies !t[j].precedes(t[i]) by {
        if i == at {
            let later = s[j - 1];
            assert(t[j] == later);
            if later.precedes(x) {
                Identity::lemma_precedes_transitive(later, x, s[at]);
                if j - 1 == at {
                    Identity::lemma_precedes_irreflexive(later);
                }
            }
        } else if j == at {
            assert(t[i] == s[i]);
        } else {
            let from_i = if i < at { i } else { i - 1 };
            let from_j = if j < at { j } else { j - 1 };
            assert(t[i] == s[from_i]);
            assert(t[j] == s[from_j]);
        }
    }
}

/// In an ordered sequence whose neighbours differ, no identity occurs twice.
proof fn lemma_ordered_neighbours(s: Seq<Identity>)
    requires
        ordered(s),
        neighbours_differ(s),
    ensures
        s.no_duplicates(),
{
    assert forall|i: int, j: int| 0 <= i < s.len() && 0 <= j < s.len() && i != j implies s[i]
        != s[j] by {
        let lo = if i < j { i } else { j };
        let hi = if i < j { j } else { i };
        if s[lo] == s[hi] {
            assert(s[lo] != s[lo + 1]);
            Identity::lemma_precedes_total(s[lo], s[lo + 1]);
            assert(!s[lo + 1].precedes(s[lo]));
            assert(!s[hi].precedes(s[lo + 1]));
        }
    }
}

/// Two sequences with the same elements, counted with multiplicity, agree on
/// whether one occurs twice.
proof fn lemma_rearranged(a: Seq<Identity>, b: Seq<Identity>)
    requires
        a.to_multiset() == b.to_multiset(),
    ensures
        a.no_duplicates() == b.no_duplicates(),
{
    if a.no_duplicates() {
        a.lemma_multiset_has_no_duplicates();
        b.lemma_multiset_has_no_duplicates_conv();
    }
    if b.no_duplicates() {
        b.lemma_multiset_has_no_duplicates();
        a.lemma_multiset_has_no_duplicates_conv();
    }
}

/// A copy of `ids` in ascending byte-wise order. `ids` itself keeps its order.
pub fn sorted_copy(ids: &Vec<Identity>) -> (sorted: Vec<Identity>)
    ensures
        ordered(sorted@),
        sorted@.to_multiset() == ids@.to_multiset(),
{
    let mut sorted: Vec<Identity> = Vec::new();
    let mut i: usize = 0;
    assert(ids@.subrange(0, 0) =~= sorted@);
    while i < ids.len()
        invariant
            i <= ids.len(),
            ordered(sorted@),
            sorted@.len() == i,
            sorted@.to_multiset() == ids@.subrange(0, i as int).to_multiset(),
        decreases ids.len() - i,
    {
        let x = ids[i];
        let mut at: usize = 0;
        while at < sorted.len() && !x.is_before(&sorted[at])
            invariant
                at <= sorted.len(),
                forall|k: int| 0 <= k < at ==> !x.precedes(sorted@[k]),
            decreases sorted.len() - at,
        {
            at += 1;
        }
        proof {
            lemma_insert_keeps_order(sorted@, at as int, x);
            vstd::seq_lib::to_multiset_insert(sorted@, at as int, x);
            vstd::seq_lib::to_multiset_build(ids@.subrange(0, i as int), x);
            assert(ids@.subrange(0, i as int).push(x) =~= ids@.subrange(0, i as int + 1));
        }
        sorted.insert(at, x);
        i += 1;
    }
    assert(ids@.subrange(0, i as int) =~= ids@);
    sorted
}

/// Whether some identity occurs more than once in `ids`, at whatever
/// positions.
pub fn has_duplicate(ids: &Vec<Identity>) -> (repeated: bool)
    ensures
        repeated == !ids@.no_duplicates(),
{
    let sorted = sorted_copy(ids);
    proof {
        lemma_rearranged(sorted@, ids@);
    }
    let mut k: usize = 1;
    while k < sorted.len()
        invariant
            1 <= k,
            ordered(sorted@),
            sorted@.no_duplicates() == ids@.no_duplicates(),
            forall|m: int|
                0 <= m < k - 1 && m < sorted@.len() - 1 ==> #[trigger] sorted@[m] != sorted@[m + 1],
        decreases sorted.len() - k,
    {
        if sorted[k - 1] == sorted[k] {
            assert(sorted@[k - 1] == sorted@[k as int]);
            return true;
        }
        k += 1;
    }
    proof {
        lemma_ordered_neighbours(sorted@);
    }
    false
}

} // verus!
