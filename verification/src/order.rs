//! The order of SIDs: by identifier authority, then by sub-authorities,
//! compared lexicographically.

use std::cmp::Ordering;

use vstd::prelude::*;
use vstd::std_specs::cmp::PartialOrdSpecImpl;

use crate::sid::{Sid, SidBuf, SidValue};

verus! {

/// The lexicographic order of two sequences of sub-authorities.
pub open spec fn sub_authorities_order(a: Seq<u32>, b: Seq<u32>) -> Ordering
    decreases a.len(),
{
    if a.len() == 0 {
        if b.len() == 0 {
            Ordering::Equal
        } else {
            Ordering::Less
        }
    } else if b.len() == 0 {
        Ordering::Greater
    } else if a[0] < b[0] {
        Ordering::Less
    } else if a[0] > b[0] {
        Ordering::Greater
    } else {
        sub_authorities_order(a.drop_first(), b.drop_first())
    }
}

/// The order of two SIDs: by authority, then by sub-authorities.
pub open spec fn sid_order(a: SidValue, b: SidValue) -> Ordering {
    if a.authority < b.authority {
        Ordering::Less
    } else if a.authority > b.authority {
        Ordering::Greater
    } else {
        sub_authorities_order(a.sub_authorities, b.sub_authorities)
    }
}

/// Whether `a` comes before `b` at position `i` in dictionary order: they
/// agree before `i`, and there either `a` holds the smaller number or `a` has
/// ended while `b` goes on.
pub open spec fn precedes_at(a: Seq<u32>, b: Seq<u32>, i: int) -> bool {
    &&& 0 <= i <= a.len()
    &&& i <= b.len()
    &&& forall|j: int| 0 <= j < i ==> a[j] == b[j]
    &&& ((i < a.len() && i < b.len() && a[i] < b[i]) || (i == a.len() && i < b.len()))
}

/// Sub-authorities order lexicographically, each compared as an unsigned
/// number: the first comes before the second exactly when, at the first
/// position where they differ, it holds the smaller number, or when it is a
/// proper prefix of the second.
pub proof fn lemma_sub_authorities_order_lexicographic(a: Seq<u32>, b: Seq<u32>)
    ensures
        (sub_authorities_order(a, b) == Ordering::Less) == (exists|i: int| precedes_at(a, b, i)),
    decreases a.len(),
{
    if a.len() > 0 && b.len() > 0 && a[0] == b[0] {
        let (a1, b1) = (a.drop_first(), b.drop_first());
        lemma_sub_authorities_order_lexicographic(a1, b1);
        if sub_authorities_order(a, b) == Ordering::Less {
            let i = choose|i: int| precedes_at(a1, b1, i);
            assert forall|j: int| 0 <= j < i + 1 implies a[j] == b[j] by {
                if j > 0 {
                    assert(a1[j - 1] == b1[j - 1]);
                }
            }
            assert(precedes_at(a, b, i + 1));
        } else if exists|i: int| precedes_at(a, b, i) {
            let i = choose|i: int| precedes_at(a, b, i);
            assert(i > 0);
            assert forall|j: int| 0 <= j < i - 1 implies a1[j] == b1[j] by {
                assert(a[j + 1] == b[j + 1]);
            }
            assert(precedes_at(a1, b1, i - 1));
        }
    } else if a.len() > 0 && b.len() > 0 {
        if a[0] < b[0] {
            assert(precedes_at(a, b, 0));
        } else if exists|i: int| precedes_at(a, b, i) {
            let i = choose|i: int| precedes_at(a, b, i);
            assert(i == 0);
        }
    } else if a.len() == 0 && b.len() > 0 {
        assert(precedes_at(a, b, 0));
    } else if exists|i: int| precedes_at(a, b, i) {
        let i = choose|i: int| precedes_at(a, b, i);
        assert(i == 0);
    }
}

/// SIDs order first by authority as a number, then by their sub-authorities
/// in dictionary order of unsigned numbers.
pub proof fn lemma_sid_order_lexicographic(a: SidValue, b: SidValue)
    ensures
        (sid_order(a, b) == Ordering::Less) == (a.authority < b.authority || (a.authority
            == b.authority && exists|i: int| precedes_at(a.sub_authorities, b.sub_authorities, i))),
        (sid_order(a, b) == Ordering::Greater) == (b.authority < a.authority || (a.authority
            == b.authority && exists|i: int| precedes_at(b.sub_authorities, a.sub_authorities, i))),
{
    lemma_sub_authorities_order_lexicographic(a.sub_authorities, b.sub_authorities);
    lemma_sub_authorities_order_lexicographic(b.sub_authorities, a.sub_authorities);
    lemma_sub_authorities_order_antisymmetric(b.sub_authorities, a.sub_authorities);
}

/// The order of two sequences reversed is the reverse order, and it is
/// `Equal` exactly for equal sequences.
pub proof fn lemma_sub_authorities_order_antisymmetric(a: Seq<u32>, b: Seq<u32>)
    ensures
        (sub_authorities_order(a, b) == Ordering::Less) == (sub_authorities_order(b, a)
            == Ordering::Greater),
        (sub_authorities_order(a, b) == Ordering::Equal) == (a == b),
    decreases a.len(),
{
    if a.len() > 0 && b.len() > 0 {
        lemma_sub_authorities_order_antisymmetric(a.drop_first(), b.drop_first());
        if a[0] == b[0] && a.drop_first() == b.drop_first() {
            assert(a =~= seq![a[0]] + a.drop_first());
            assert(b =~= seq![b[0]] + b.drop_first());
        }
    } else if a.len() == 0 && b.len() == 0 {
        assert(a =~= b);
    }
}

/// The order of sequences is transitive.
pub proof fn lemma_sub_authorities_order_transitive(a: Seq<u32>, b: Seq<u32>, c: Seq<u32>)
    requires
        sub_authorities_order(a, b) == Ordering::Less,
        sub_authorities_order(b, c) == Ordering::Less,
    ensures
        sub_authorities_order(a, c) == Ordering::Less,
    decreases a.len(),
{
    if a.len() > 0 && b.len() > 0 && c.len() > 0 && a[0] == b[0] && b[0] == c[0] {
        lemma_sub_authorities_order_transitive(a.drop_first(), b.drop_first(), c.drop_first());
    }
}

/// The order of SIDs is a total order whose equality is the equality of
/// SIDs: swapping the operands reverses it, it is `Equal` exactly for equal
/// SIDs, and `Less` is transitive.
pub proof fn lemma_sid_order_total(a: SidValue, b: SidValue, c: SidValue)
    ensures
        (sid_order(a, b) == Ordering::Less) == (sid_order(b, a) == Ordering::Greater),
        (sid_order(a, b) == Ordering::Equal) == (a == b),
        sid_order(a, b) == Ordering::Less && sid_order(b, c) == Ordering::Less ==> sid_order(a, c)
            == Ordering::Less,
{
    lemma_sub_authorities_order_antisymmetric(a.sub_authorities, b.sub_authorities);
    if sid_order(a, b) == Ordering::Less && sid_order(b, c) == Ordering::Less {
        if a.authority == b.authority && b.authority == c.authority {
            lemma_sub_authorities_order_transitive(
                a.sub_authorities,
                b.sub_authorities,
                c.sub_authorities,
            );
        }
    }
}

impl Sid {
    /// Compares two SIDs by authority, then by sub-authorities.
    pub fn compare(&self, other: &Sid) -> (o: Ordering)
        ensures
            o == sid_order(self@, other@),
    {
        let a = self.authority();
        let b = other.authority();
        if a < b {
            return Ordering::Less;
        } else if a > b {
            return Ordering::Greater;
        }
        let x = self.sub_authorities();
        let y = other.sub_authorities();
        let mut i: usize = 0;
        let ghost mut k: int = 0;
        assert(x@.skip(0) =~= x@);
        assert(y@.skip(0) =~= y@);
        while i < x.len() && i < y.len()
            invariant
                k == i,
                self@.authority == other@.authority,
                x@ == self@.sub_authorities,
                y@ == other@.sub_authorities,
                i <= x@.len(),
                i <= y@.len(),
                sub_authorities_order(x@, y@) == sub_authorities_order(
                    x@.skip(k),
                    y@.skip(k),
                ),
            decreases x@.len() - i,
        {
            assert(x@.skip(k)[0] == x@[k]);
            assert(y@.skip(k)[0] == y@[k]);
            if x[i] < y[i] {
                return Ordering::Less;
            } else if x[i] > y[i] {
                return Ordering::Greater;
            }
            assert(x@.skip(k).drop_first() =~= x@.skip(k + 1));
            assert(y@.skip(k).drop_first() =~= y@.skip(k + 1));
            i = i + 1;
            proof {
                k = k + 1;
            }
        }
        if i < x.len() {
            Ordering::Greater
        } else if i < y.len() {
            Ordering::Less
        } else {
            Ordering::Equal
        }
    }
}

impl PartialOrd for Sid {
    fn partial_cmp(&self, other: &Sid) -> (o: Option<Ordering>) {
        Some(self.compare(other))
    }
}

impl PartialOrdSpecImpl for Sid {
    open spec fn obeys_partial_cmp_spec() -> bool {
        true
    }

    open spec fn partial_cmp_spec(&self, other: &Sid) -> Option<Ordering> {
        Some(sid_order(self@, other@))
    }
}

impl PartialOrd for SidBuf {
    fn partial_cmp(&self, other: &SidBuf) -> (o: Option<Ordering>) {
        Some(self.as_sid().compare(other.as_sid()))
    }
}

impl PartialOrdSpecImpl for SidBuf {
    open spec fn obeys_partial_cmp_spec() -> bool {
        true
    }

    open spec fn partial_cmp_spec(&self, other: &SidBuf) -> Option<Ordering> {
        Some(sid_order(self@, other@))
    }
}

} // verus!
