//! Sets of HID usages, and the order their elements are visited in.
use std::collections::{BTreeMap, BTreeSet};
use vstd::laws_cmp::obeys_cmp;
use vstd::prelude::*;
use vstd::std_specs::btree::{
    axiom_spec_btree_keys_iter, axiom_spec_btree_map_iter, increasing_seq, spec_btree_keys_iter,
    spec_btree_map_iter,
};
use vstd::std_specs::cmp::OrdSpec;
use vstd::std_specs::iter::IteratorSpec;

verus! {

/// Each element of `s` is below the next.
pub open spec fn strictly_increasing(s: Seq<u32>) -> bool {
    forall|i: int, j: int| 0 <= i < j < s.len() ==> s[i] < s[j]
}

/// Each element of `s` is above the next.
pub open spec fn strictly_decreasing(s: Seq<u32>) -> bool {
    forall|i: int, j: int| 0 <= i < j < s.len() ==> s[i] > s[j]
}

/// The elements of a finite set of usages, from the largest down.
pub open spec fn descending(s: Set<u32>) -> Seq<u32> {
    choose|q: Seq<u32>| strictly_decreasing(q) && q.to_set() == s
}

proof fn lemma_increasing_refs(s: Seq<&u32>)
    requires
        increasing_seq(s),
    ensures
        forall|i: int, j: int| 0 <= i < j < s.len() ==> *s[i] < *s[j],
{
    assert(obeys_cmp::<u32>());
    assert(obeys_cmp::<&u32>());
    assert forall|i: int, j: int| 0 <= i < j < s.len() implies *s[i] < *s[j] by {
        assert(OrdSpec::cmp_spec(&s[i], &s[j]) is Less);
    }
}

/// The elements of a set of usages, in increasing order.
pub fn sorted_elements(s: &BTreeSet<u32>) -> (v: Vec<u32>)
    ensures
        v@.to_set() == s@,
        strictly_increasing(v@),
{
    let ghost full = spec_btree_keys_iter(s).remaining();
    let mut v: Vec<u32> = Vec::new();
    for x in it: s.iter()
        invariant
            it.seq() == full,
            v@ == it.seq().take(it.index() as int).map_values(|r: &u32| *r),
    {
        v.push(*x);
    }
    proof {
        axiom_spec_btree_keys_iter(s);
        assert(full.unref() =~= full.map_values(|r: &u32| *r));
        assert(v@ == full.unref());
        lemma_increasing_refs(full);
    }
    v
}

/// Two strictly decreasing sequences with the same elements are equal.
pub proof fn lemma_decreasing_unique(a: Seq<u32>, b: Seq<u32>)
    requires
        strictly_decreasing(a),
        strictly_decreasing(b),
        a.to_set() == b.to_set(),
    ensures
        a == b,
    decreases a.len(),
{
    if a.len() == 0 {
        if b.len() > 0 {
            assert(b.to_set().contains(b[0]));
        }
        assert(a =~= b);
    } else {
        assert(a.to_set().contains(a[0]));
        if b.len() == 0 {
            assert(b.to_set().contains(a[0]));
            assert(false);
        }
        assert(b.to_set().contains(b[0]));
        let ia = choose|i: int| 0 <= i < a.len() && a[i] == b[0];
        let ib = choose|i: int| 0 <= i < b.len() && b[i] == a[0];
        assert(a[0] >= b[0]) by {
            if ia > 0 {
                assert(a[0] > a[ia]);
            }
        }
        assert(b[0] >= a[0]) by {
            if ib > 0 {
                assert(b[0] > b[ib]);
            }
        }
        let ra = a.drop_first();
        let rb = b.drop_first();
        assert(ra.to_set() =~= rb.to_set()) by {
            assert forall|x: u32| ra.to_set().contains(x) implies rb.to_set().contains(x) by {
                let i = choose|i: int| 0 <= i < ra.len() && ra[i] == x;
                assert(a[i + 1] == x);
                assert(a.to_set().contains(x));
                let j = choose|j: int| 0 <= j < b.len() && b[j] == x;
                assert(x < a[0]);
                assert(j != 0);
                assert(rb[j - 1] == x);
            }
            assert forall|x: u32| rb.to_set().contains(x) implies ra.to_set().contains(x) by {
                let i = choose|i: int| 0 <= i < rb.len() && rb[i] == x;
                assert(b[i + 1] == x);
                assert(b.to_set().contains(x));
                let j = choose|j: int| 0 <= j < a.len() && a[j] == x;
                assert(x < b[0]);
                assert(j != 0);
                assert(ra[j - 1] == x);
            }
        }
        lemma_decreasing_unique(ra, rb);
        assert(a =~= b) by {
            assert forall|i: int| 0 <= i < a.len() implies a[i] == b[i] by {
                if i > 0 {
                    assert(a[i] == ra[i - 1]);
                    assert(b[i] == rb[i - 1]);
                }
            }
        }
    }
}

/// A strictly decreasing sequence is the descending order of its elements.
pub proof fn lemma_descending_of(q: Seq<u32>)
    requires
        strictly_decreasing(q),
    ensures
        descending(q.to_set()) == q,
{
    let d = descending(q.to_set());
    assert(strictly_decreasing(d) && d.to_set() == q.to_set());
    lemma_decreasing_unique(d, q);
}

/// The usages of `v`, which increase strictly, that `s` does not hold, from the largest down.
pub fn descending_not_in(v: &Vec<u32>, s: &BTreeSet<u32>) -> (r: Vec<u32>)
    requires
        strictly_increasing(v@),
    ensures
        r@ == descending(v@.to_set().difference(s@)),
        r@.to_set() == v@.to_set().difference(s@),
        strictly_decreasing(r@),
{
    let mut r: Vec<u32> = Vec::new();
    let mut i: usize = v.len();
    while i > 0
        invariant
            0 <= i <= v@.len(),
            strictly_increasing(v@),
            strictly_decreasing(r@),
            forall|k: int|
                0 <= k < r@.len() ==> !s@.contains(#[trigger] r@[k]) && exists|j: int|
                    i <= j < v@.len() && v@[j] == r@[k],
            forall|j: int| i <= j < v@.len() && !s@.contains(#[trigger] v@[j]) ==> r@.contains(v@[j]),
        decreases i,
    {
        i = i - 1;
        let x = v[i];
        let ghost old_r = r@;
        if !s.contains(&x) {
            r.push(x);
            proof {
                assert forall|k: int| 0 <= k < r@.len() - 1 implies r@[k] > x by {
                    assert(r@[k] == old_r[k]);
                    let j = choose|j: int| i + 1 <= j < v@.len() && v@[j] == old_r[k];
                }
                assert forall|j: int| i <= j < v@.len() && !s@.contains(#[trigger] v@[j]) implies r@.contains(v@[j]) by {
                    if j == i {
                        assert(r@[old_r.len() as int] == x);
                    } else {
                        assert(old_r.contains(v@[j]));
                        let k = choose|k: int| 0 <= k < old_r.len() && old_r[k] == v@[j];
                        assert(r@[k] == v@[j]);
                    }
                }
                assert forall|k: int| 0 <= k < r@.len() implies !s@.contains(#[trigger] r@[k]) && exists|j: int|
                    i <= j < v@.len() && v@[j] == r@[k] by {
                    if k < old_r.len() {
                        assert(r@[k] == old_r[k]);
                        let j = choose|j: int| i + 1 <= j < v@.len() && v@[j] == old_r[k];
                    } else {
                        assert(v@[i as int] == r@[k]);
                    }
                }
            }
        }
    }
    proof {
        assert(r@.to_set() =~= v@.to_set().difference(s@)) by {
            assert forall|y: u32| r@.to_set().contains(y) implies v@.to_set().difference(s@).contains(y) by {
                let k = choose|k: int| 0 <= k < r@.len() && r@[k] == y;
                let j = choose|j: int| 0 <= j < v@.len() && v@[j] == r@[k];
            }
            assert forall|y: u32| v@.to_set().difference(s@).contains(y) implies r@.to_set().contains(y) by {
                let j = choose|j: int| 0 <= j < v@.len() && v@[j] == y;
                assert(!s@.contains(v@[j]));
            }
        }
        lemma_descending_of(r@);
    }
    r
}


/// Each entry of `s` has a smaller key than the next.
pub open spec fn keys_increasing<V>(s: Seq<(usize, V)>) -> bool {
    forall|i: int, j: int| 0 <= i < j < s.len() ==> s[i].0 < s[j].0
}

/// The entries of a finite map, by increasing key.
pub open spec fn entries_by_key<V>(m: Map<usize, V>) -> Seq<(usize, V)> {
    choose|q: Seq<(usize, V)>| keys_increasing(q) && q.to_set() == m.kv_pairs()
}

/// Two sequences of entries with increasing keys and the same entries are equal.
pub proof fn lemma_entries_unique<V>(a: Seq<(usize, V)>, b: Seq<(usize, V)>)
    requires
        keys_increasing(a),
        keys_increasing(b),
        a.to_set() == b.to_set(),
    ensures
        a == b,
    decreases a.len(),
{
    if a.len() == 0 {
        if b.len() > 0 {
            assert(b.to_set().contains(b[0]));
        }
        assert(a =~= b);
    } else {
        assert(a.to_set().contains(a[0]));
        if b.len() == 0 {
            assert(b.to_set().contains(a[0]));
            assert(false);
        }
        assert(b.to_set().contains(b[0]));
        let ia = choose|i: int| 0 <= i < a.len() && a[i] == b[0];
        let ib = choose|i: int| 0 <= i < b.len() && b[i] == a[0];
        assert(a[0].0 <= b[0].0) by {
            if ia > 0 {
                assert(a[0].0 < a[ia].0);
            }
        }
        assert(b[0].0 <= a[0].0) by {
            if ib > 0 {
                assert(b[0].0 < b[ib].0);
            }
        }
        assert(ia == 0) by {
            if ia > 0 {
                assert(a[0].0 < a[ia].0);
            }
        }
        assert(a[0] == b[0]);
        let ra = a.drop_first();
        let rb = b.drop_first();
        assert(ra.to_set() =~= rb.to_set()) by {
            assert forall|x: (usize, V)| ra.to_set().contains(x) implies rb.to_set().contains(x) by {
                let i = choose|i: int| 0 <= i < ra.len() && ra[i] == x;
                assert(a[i + 1] == x);
                assert(a.to_set().contains(x));
                let j = choose|j: int| 0 <= j < b.len() && b[j] == x;
                assert(x.0 > a[0].0);
                assert(j != 0);
                assert(rb[j - 1] == x);
            }
            assert forall|x: (usize, V)| rb.to_set().contains(x) implies ra.to_set().contains(x) by {
                let i = choose|i: int| 0 <= i < rb.len() && rb[i] == x;
                assert(b[i + 1] == x);
                assert(b.to_set().contains(x));
                let j = choose|j: int| 0 <= j < a.len() && a[j] == x;
                assert(x.0 > b[0].0);
                assert(j != 0);
                assert(ra[j - 1] == x);
            }
        }
        lemma_entries_unique(ra, rb);
        assert(a =~= b) by {
            assert forall|i: int| 0 <= i < a.len() implies a[i] == b[i] by {
                if i > 0 {
                    assert(a[i] == ra[i - 1]);
                    assert(b[i] == rb[i - 1]);
                }
            }
        }
    }
}

/// A sequence of entries with increasing keys is the entries of the map it holds, by key.
pub proof fn lemma_entries_of<V>(q: Seq<(usize, V)>, m: Map<usize, V>)
    requires
        keys_increasing(q),
        q.to_set() == m.kv_pairs(),
    ensures
        entries_by_key(m) == q,
{
    let e = entries_by_key(m);
    assert(keys_increasing(e) && e.to_set() == m.kv_pairs());
    lemma_entries_unique(e, q);
}


proof fn lemma_increasing_keys(s: Seq<usize>)
    requires
        increasing_seq(s),
    ensures
        forall|i: int, j: int| 0 <= i < j < s.len() ==> s[i] < s[j],
{
    assert(obeys_cmp::<usize>());
    assert forall|i: int, j: int| 0 <= i < j < s.len() implies s[i] < s[j] by {
        assert(OrdSpec::cmp_spec(&s[i], &s[j]) is Less);
    }
}

/// The entries of a map, by increasing key.
pub fn map_entries<V: Copy>(m: &BTreeMap<usize, V>) -> (v: Vec<(usize, V)>)
    ensures
        v@ == entries_by_key(m@),
{
    let ghost full = spec_btree_map_iter(m).remaining();
    let mut v: Vec<(usize, V)> = Vec::new();
    for kv in it: m.iter()
        invariant
            it.seq() == full,
            v@ == it.seq().take(it.index() as int).map_values(|e: (&usize, &V)| (*e.0, *e.1)),
    {
        let (k, val) = kv;
        v.push((*k, *val));
    }
    proof {
        axiom_spec_btree_map_iter(m);
        assert(full.unref() =~= full.map_values(|e: (&usize, &V)| (*e.0, *e.1)));
        assert(v@ == full.unref());
        let ks = full.map_values(|kv: (&usize, &V)| *kv.0);
        lemma_increasing_keys(ks);
        assert forall|i: int, j: int| 0 <= i < j < v@.len() implies v@[i].0 < v@[j].0 by {
            assert(ks[i] < ks[j]);
        }
        lemma_entries_of(v@, m@);
    }
    v
}

} // verus!
