//! Thirty-two byte identities and the byte-wise order on them.

use vstd::prelude::*;
use vstd::std_specs::cmp::PartialEqSpecImpl;

verus! {

/// The name of a party or of a record on the ledger: thirty-two bytes with no
/// further structure.
#[derive(Clone, Copy, Debug, Eq, Hash)]
pub struct Identity {
    pub bytes: [u8; 32],
}

impl View for Identity {
    type V = Seq<u8>;

    open spec fn view(&self) -> Seq<u8> {
        self.bytes@
    }
}

impl PartialEq for Identity {
    fn eq(&self, other: &Identity) -> (same: bool) {
        let mut i: usize = 0;
        while i < 32
            invariant
                i <= 32,
                forall|j: int| 0 <= j < i ==> self.bytes[j] == other.bytes[j],
            decreases 32 - i,
        {
            if self.bytes[i] != other.bytes[i] {
                return false;
            }
            i += 1;
        }
        proof {
            assert(self.bytes =~= other.bytes);
        }
        true
    }
}

impl PartialEqSpecImpl for Identity {
    open spec fn obeys_eq_spec() -> bool {
        true
    }

    open spec fn eq_spec(&self, other: &Identity) -> bool {
        *self == *other
    }
}

/// `k` is the first position at which `a` and `b` hold different bytes.
pub open spec fn first_difference(a: Seq<u8>, b: Seq<u8>, k: int) -> bool {
    &&& 0 <= k < a.len()
    &&& k < b.len()
    &&& a[k] != b[k]
    &&& forall|j: int| 0 <= j < k ==> a[j] == b[j]
}

impl Identity {
    /// An identity made of the given bytes.
    pub fn new(bytes: [u8; 32]) -> (id: Identity)
        ensures
            id.bytes == bytes,
    {
        Identity { bytes }
    }

    /// Strict lexicographic order: at the first byte in which the two differ,
    /// `self` holds the smaller one.
    pub open spec fn precedes(self, other: Identity) -> bool {
        exists|k: int| first_difference(self@, other@, k) && self@[k] < other@[k]
    }

    /// Decides `precedes`.
    pub fn is_before(&self, other: &Identity) -> (before: bool)
        ensures
            before == self.precedes(*other),
    {
        let mut i: usize = 0;
        while i < 32
            invariant
                i <= 32,
                forall|j: int| 0 <= j < i ==> self@[j] == other@[j],
            decreases 32 - i,
        {
            if self.bytes[i] != other.bytes[i] {
                let before = self.bytes[i] < other.bytes[i];
                proof {
                    let d = i as int;
                    assert(first_difference(self@, other@, d));
                    if !before {
                        assert forall|k: int| first_difference(self@, other@, k) implies !(self@[k]
                            < other@[k]) by {
                            if k < d {
                                assert(self@[k] == other@[k]);
                            } else if k > d {
                                assert(self@[d] == other@[d]);
                            }
                        }
                    }
                }
                return before;
            }
            i += 1;
        }
        false
    }

    /// The bytes of the identity, in order.
    pub fn to_vec(&self) -> (out: Vec<u8>)
        ensures
            out@ == self@,
    {
        let mut out: Vec<u8> = Vec::new();
        let mut i: usize = 0;
        while i < 32
            invariant
                i <= 32,
                out@ == self@.subrange(0, i as int),
            decreases 32 - i,
        {
            out.push(self.bytes[i]);
            i += 1;
            assert(out@ =~= self@.subrange(0, i as int));
        }
        assert(out@ =~= self@);
        out
    }

    /// Two identities with the same bytes are the same identity.
    pub proof fn lemma_view_injective(a: Identity, b: Identity)
        requires
            a@ == b@,
        ensures
            a == b,
    {
        assert(a.bytes =~= b.bytes);
    }

    /// Nothing precedes itself.
    pub proof fn lemma_precedes_irreflexive(a: Identity)
        ensures
            !a.precedes(a),
    {
    }

    /// If `a` precedes `b` and `b` precedes `c`, then `a` precedes `c`.
    pub proof fn lemma_precedes_transitive(a: Identity, b: Identity, c: Identity)
        requires
            a.precedes(b),
            b.precedes(c),
        ensures
            a.precedes(c),
    {
        let k1 = choose|k: int| first_difference(a@, b@, k) && a@[k] < b@[k];
        let k2 = choose|k: int| first_difference(b@, c@, k) && b@[k] < c@[k];
        let k = if k1 <= k2 { k1 } else { k2 };
        assert(first_difference(a@, c@, k));
        assert(a@[k] < c@[k]);
    }

    /// Of two different identities one precedes the other.
    pub proof fn lemma_precedes_total(a: Identity, b: Identity)
        ensures
            a == b || a.precedes(b) || b.precedes(a),
    {
        lemma_difference_found(a@, b@, 32);
        if forall|j: int| 0 <= j < 32 ==> a@[j] == b@[j] {
            assert(a@ =~= b@);
            Self::lemma_view_injective(a, b);
        } else {
            let k = choose|k: int| first_difference(a@, b@, k);
            assert(first_difference(b@, a@, k));
        }
    }
}

/// Two sequences agree on their first `n` bytes, or differ first somewhere
/// among them.
proof fn lemma_difference_found(a: Seq<u8>, b: Seq<u8>, n: int)
    requires
        0 <= n <= a.len(),
        n <= b.len(),
    ensures
        (forall|j: int| 0 <= j < n ==> a[j] == b[j]) || (exists|k: int| first_difference(a, b, k)),
    decreases n,
{
    if n > 0 {
        lemma_difference_found(a, b, n - 1);
        if forall|j: int| 0 <= j < n - 1 ==> a[j] == b[j] {
            if a[n - 1] != b[n - 1] {
                assert(first_difference(a, b, n - 1));
            }
        }
    }
}

} // verus!
