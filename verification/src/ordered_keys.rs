//! Facts about the order in which a `BTreeMap` with integer keys yields its keys.

use vstd::prelude::*;
use vstd::std_specs::cmp::OrdSpec;
use vstd::std_specs::iter::IteratorSpec;
use std::collections::BTreeMap;

verus! {

/// In an increasing sequence of `u64` keys, an earlier key is smaller.
pub proof fn lemma_increasing_u64_keys(ks: Seq<u64>, a: int, b: int)
    requires
        vstd::std_specs::btree::increasing_seq(ks),
        0 <= a < b < ks.len(),
    ensures
        ks[a] < ks[b],
{
    broadcast use vstd::std_specs::btree::group_btree_axioms, vstd::laws_cmp::group_laws_cmp;
    assert(vstd::laws_cmp::obeys_cmp::<u64>());
    vstd::std_specs::btree::axiom_increasing_seq_meaning::<u64>(ks);
    assert(ks[a].cmp_spec(&ks[b]) is Less);
}

/// The keys of a `BTreeMap<u64, _>`, in the increasing order in which the map yields them.
pub fn keys_in_order<V>(m: &BTreeMap<u64, V>) -> (r: Vec<u64>)
    ensures
        forall|i: int, j: int| 0 <= i < j < r.len() ==> r@[i] < r@[j],
        forall|i: int| 0 <= i < r.len() ==> m@.contains_key(#[trigger] r@[i]),
        forall|k: u64| m@.contains_key(k) ==> r@.contains(k),
{
    broadcast use vstd::std_specs::btree::group_btree_axioms;
    assert(vstd::laws_cmp::obeys_cmp::<u64>()) by {
        broadcast use vstd::laws_cmp::group_laws_cmp;
    }
    let mut r: Vec<u64> = Vec::new();
    let ghost whole = m.iter().remaining();
    proof {
        vstd::std_specs::btree::axiom_spec_btree_map_iter(m);
    }
    let ghost ks = whole.map_values(|kv: (&u64, &V)| *kv.0);
    for kv in it: m.iter()
        invariant
            it.seq() == whole,
            ks == whole.map_values(|kv: (&u64, &V)| *kv.0),
            vstd::std_specs::btree::increasing_seq(ks),
            whole.len() == m@.dom().len(),
            forall|i: int| #![trigger whole[i]] 0 <= i < whole.len() ==> m@.contains_key(*whole[i].0),
            forall|k: u64| #[trigger] m@.contains_key(k) ==> whole.contains((&k, &m@[k])),
            r@ == ks.take(it.index()),
    {
        r.push(*kv.0);
        assert(ks.take(it.index() + 1) =~= ks.take(it.index()).push(*kv.0));
    }
    assert(r@ =~= ks);
    assert forall|i: int, j: int| 0 <= i < j < r.len() implies r@[i] < r@[j] by {
        lemma_increasing_u64_keys(ks, i, j);
    }
    assert forall|k: u64| m@.contains_key(k) implies r@.contains(k) by {
        let i = choose|i: int| 0 <= i < whole.len() && whole[i] == (&k, &m@[k]);
        assert(ks[i] == k);
    }
    r
}

} // verus!
