//! Node identities and the ordered sets that hold them.

use std::collections::BTreeSet;
use vstd::prelude::*;
use crate::text::{decimal, to_decimal};
use vstd::std_specs::iter::IteratorSpec;
use vstd::std_specs::cmp::OrdSpec;

verus! {

/// A unique ID for a clickhouse keeper.
#[derive(Debug, Clone, Copy, PartialEq, Eq, Structural, PartialOrd, Ord, Hash)]
pub struct KeeperId(pub u64);

/// A unique ID for a clickhouse server.
#[derive(Debug, Clone, Copy, PartialEq, Eq, Structural, PartialOrd, Ord, Hash)]
pub struct ServerId(pub u64);

impl KeeperId {
    /// The ID in decimal.
    pub fn to_string(&self) -> (r: String)
        ensures
            r@ == decimal(self.0 as nat),
    {
        to_decimal(self.0)
    }
}

impl ServerId {
    /// The ID in decimal.
    pub fn to_string(&self) -> (r: String)
        ensures
            r@ == decimal(self.0 as nat),
    {
        to_decimal(self.0)
    }
}

impl From<u64> for KeeperId {
    fn from(id: u64) -> (r: KeeperId)
        ensures
            r == KeeperId(id),
    {
        KeeperId(id)
    }
}

impl vstd::std_specs::convert::FromSpecImpl<u64> for KeeperId {
    open spec fn obeys_from_spec() -> bool {
        true
    }

    open spec fn from_spec(v: u64) -> KeeperId {
        KeeperId(v)
    }
}

impl From<u64> for ServerId {
    fn from(id: u64) -> (r: ServerId)
        ensures
            r == ServerId(id),
    {
        ServerId(id)
    }
}

impl vstd::std_specs::convert::FromSpecImpl<u64> for ServerId {
    open spec fn obeys_from_spec() -> bool {
        true
    }

    open spec fn from_spec(v: u64) -> ServerId {
        ServerId(v)
    }
}

/// Each element is smaller than the next.
pub open spec fn strictly_increasing(s: Seq<u64>) -> bool {
    forall|i: int, j: int| 0 <= i < j < s.len() ==> s[i] < s[j]
}

/// The elements of `ids` in increasing order.
pub open spec fn sorted_ids(ids: Set<u64>) -> Seq<u64> {
    choose|s: Seq<u64>| strictly_increasing(s) && s.to_set() == ids
}

/// `m` is the largest element of `ids`.
pub open spec fn is_max(ids: Set<u64>, m: u64) -> bool {
    ids.contains(m) && forall|x: u64| ids.contains(x) ==> x <= m
}

/// Two increasing sequences with the same elements are the same sequence.
pub proof fn lemma_sorted_unique(a: Seq<u64>, b: Seq<u64>)
    requires
        strictly_increasing(a),
        strictly_increasing(b),
        a.to_set() == b.to_set(),
    ensures
        a == b,
    decreases a.len(),
{
    if a.len() == 0 {
        if b.len() > 0 {
            assert(b.to_set().contains(b[0]));
        }
        assert(a =~= b);
    } else {
        assert(a.to_set().contains(a[0]));
        assert(b.contains(a[0]));
        let k = choose|k: int| 0 <= k < b.len() && b[k] == a[0];
        assert(b.to_set().contains(b[0]));
        assert(a.contains(b[0]));
        let m = choose|m: int| 0 <= m < a.len() && a[m] == b[0];
        assert(a[0] == b[0]) by {
            if k > 0 {
                assert(b[0] < b[k]);
            }
            if m > 0 {
                assert(a[0] < a[m]);
            }
        }
        let a1 = a.drop_first();
        let b1 = b.drop_first();
        assert forall|x: u64| a1.to_set().contains(x) <==> b1.to_set().contains(x) by {
            if a1.to_set().contains(x) {
                assert(a1.contains(x));
                let i = choose|i: int| 0 <= i < a1.len() && a1[i] == x;
                assert(a[i + 1] == x);
                assert(a.to_set().contains(x));
                assert(b.contains(x));
                let j = choose|j: int| 0 <= j < b.len() && b[j] == x;
                assert(j > 0);
                assert(b1[j - 1] == x);
                assert(b1.contains(x));
            }
            if b1.to_set().contains(x) {
                assert(b1.contains(x));
                let i = choose|i: int| 0 <= i < b1.len() && b1[i] == x;
                assert(b[i + 1] == x);
                assert(b.to_set().contains(x));
                assert(a.contains(x));
                let j = choose|j: int| 0 <= j < a.len() && a[j] == x;
                assert(j > 0);
                assert(a1[j - 1] == x);
                assert(a1.contains(x));
            }
        }
        assert(a1.to_set() =~= b1.to_set());
        lemma_sorted_unique(a1, b1);
        assert forall|i: int| 0 <= i < a.len() implies a[i] == b[i] by {
            if i > 0 {
                assert(a[i] == a1[i - 1]);
                assert(b[i] == b1[i - 1]);
            }
        }
        assert(a =~= b);
    }
}

/// The elements of `ids` in increasing order.
pub fn ids_in_order(ids: &BTreeSet<u64>) -> (r: Vec<u64>)
    ensures
        r@ == sorted_ids(ids@),
        strictly_increasing(r@),
        r@.to_set() == ids@,
{
    let mut r: Vec<u64> = Vec::new();
    let ghost items = vstd::std_specs::btree::spec_btree_keys_iter(ids).remaining();
    for id in it: ids.iter()
        invariant
            it.seq() == items,
            r.len() == it.index(),
            forall|i: int| 0 <= i < r.len() ==> r[i] == *items[i],
    {
        r.push(*id);
    }
    let ghost s = items.unref();
    assert(r@ =~= s);
    assert(s.to_set() == ids@);
    assert(strictly_increasing(s)) by {
        assert(vstd::laws_cmp::obeys_cmp::<u64>());
        assert(vstd::laws_cmp::obeys_cmp::<&u64>());
        assert(vstd::std_specs::btree::increasing_seq(items));
        assert forall|i: int, j: int| 0 <= i < j < s.len() implies s[i] < s[j] by {
            assert(<&u64 as OrdSpec>::cmp_spec(&items[i], &items[j]) is Less);
        }
    }
    proof {
        lemma_sorted_unique(s, sorted_ids(ids@));
    }
    r
}

} // verus!
