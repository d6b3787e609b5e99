//! Association lists without repeated keys, and the maps they stand for.

use vstd::prelude::*;

verus! {

/// No key occurs twice.
pub open spec fn keys_unique<K, V>(s: Seq<(K, V)>) -> bool {
    forall|i: int, j: int| 0 <= i < j < s.len() ==> (#[trigger] s[i]).0 != (#[trigger] s[j]).0
}

/// The map an association list stands for.
pub open spec fn assoc_map<K, V>(s: Seq<(K, V)>) -> Map<K, V> {
    Map::new(
        |k: K| exists|i: int| 0 <= i < s.len() && (#[trigger] s[i]).0 == k,
        |k: K| s[choose|i: int| 0 <= i < s.len() && (#[trigger] s[i]).0 == k].1,
    )
}

/// Each pair of the list is in its map.
pub proof fn lemma_assoc_lookup<K, V>(s: Seq<(K, V)>, i: int)
    requires
        keys_unique(s),
        0 <= i < s.len(),
    ensures
        assoc_map(s).contains_key(s[i].0),
        assoc_map(s)[s[i].0] == s[i].1,
{
    let k = s[i].0;
    assert(assoc_map(s).dom().contains(k));
    let j = choose|j: int| 0 <= j < s.len() && (#[trigger] s[j]).0 == k;
    if j != i {
        if j < i {
            assert(s[j].0 != s[i].0);
        } else {
            assert(s[i].0 != s[j].0);
        }
    }
}

/// A key of the map is the key of some pair.
pub proof fn lemma_assoc_key<K, V>(s: Seq<(K, V)>, k: K) -> (i: int)
    requires
        assoc_map(s).contains_key(k),
    ensures
        0 <= i < s.len(),
        s[i].0 == k,
{
    choose|i: int| 0 <= i < s.len() && (#[trigger] s[i]).0 == k
}

/// Appending a pair with a new key inserts it into the map.
pub proof fn lemma_assoc_push<K, V>(s: Seq<(K, V)>, k: K, v: V)
    requires
        keys_unique(s),
        !assoc_map(s).contains_key(k),
    ensures
        keys_unique(s.push((k, v))),
        assoc_map(s.push((k, v))) =~= assoc_map(s).insert(k, v),
{
    let t = s.push((k, v));
    assert forall|i: int, j: int| 0 <= i < j < t.len() implies (#[trigger] t[i]).0 != (#[trigger] t[j]).0 by {
        if j == s.len() {
            assert(s[i] == t[i]);
            if s[i].0 == k {
                assert(assoc_map(s).dom().contains(k));
            }
        } else {
            assert(s[i] == t[i] && s[j] == t[j]);
        }
    }
    assert forall|x: K| #[trigger] assoc_map(t).contains_key(x) == assoc_map(s).insert(k, v).contains_key(x) by {
        if assoc_map(t).contains_key(x) {
            let i = lemma_assoc_key(t, x);
            if i < s.len() {
                assert(s[i] == t[i]);
            }
        }
        if assoc_map(s).contains_key(x) {
            let i = lemma_assoc_key(s, x);
            assert(s[i] == t[i]);
        }
        if x == k {
            assert(t[s.len() as int].0 == k);
        }
    }
    assert forall|x: K| #[trigger] assoc_map(t).contains_key(x) implies assoc_map(t)[x] == assoc_map(s).insert(k, v)[x] by {
        let i = lemma_assoc_key(t, x);
        lemma_assoc_lookup(t, i);
        if i < s.len() {
            assert(s[i] == t[i]);
            lemma_assoc_lookup(s, i);
        }
    }
}

/// Replacing the value of a pair updates the map at its key.
pub proof fn lemma_assoc_update<K, V>(s: Seq<(K, V)>, i: int, v: V)
    requires
        keys_unique(s),
        0 <= i < s.len(),
    ensures
        keys_unique(s.update(i, (s[i].0, v))),
        assoc_map(s.update(i, (s[i].0, v))) =~= assoc_map(s).insert(s[i].0, v),
{
    let t = s.update(i, (s[i].0, v));
    assert forall|a: int, b: int| 0 <= a < b < t.len() implies (#[trigger] t[a]).0 != (#[trigger] t[b]).0 by {
        assert(t[a].0 == s[a].0 && t[b].0 == s[b].0);
    }
    assert forall|x: K| #[trigger] assoc_map(t).contains_key(x) == assoc_map(s).insert(s[i].0, v).contains_key(x) by {
        if assoc_map(t).contains_key(x) {
            let j = lemma_assoc_key(t, x);
            assert(t[j].0 == s[j].0);
        }
        if assoc_map(s).contains_key(x) {
            let j = lemma_assoc_key(s, x);
            assert(t[j].0 == s[j].0);
        }
        if x == s[i].0 {
            assert(t[i].0 == x);
        }
    }
    assert forall|x: K| #[trigger] assoc_map(t).contains_key(x) implies assoc_map(t)[x] == assoc_map(s).insert(s[i].0, v)[x] by {
        let j = lemma_assoc_key(t, x);
        lemma_assoc_lookup(t, j);
        if j != i {
            assert(t[j] == s[j]);
            lemma_assoc_lookup(s, j);
        }
    }
}

/// Removing a pair removes its key from the map.
pub proof fn lemma_assoc_remove<K, V>(s: Seq<(K, V)>, i: int)
    requires
        keys_unique(s),
        0 <= i < s.len(),
    ensures
        keys_unique(s.remove(i)),
        assoc_map(s.remove(i)) =~= assoc_map(s).remove(s[i].0),
{
    let t = s.remove(i);
    let k = s[i].0;
    assert forall|a: int, b: int| 0 <= a < b < t.len() implies (#[trigger] t[a]).0 != (#[trigger] t[b]).0 by {
        let sa = if a < i { a } else { a + 1 };
        let sb = if b < i { b } else { b + 1 };
        assert(t[a] == s[sa] && t[b] == s[sb]);
    }
    assert forall|x: K| #[trigger] assoc_map(t).contains_key(x) == assoc_map(s).remove(k).contains_key(x) by {
        if assoc_map(t).contains_key(x) {
            let j = lemma_assoc_key(t, x);
            let sj = if j < i { j } else { j + 1 };
            assert(t[j] == s[sj]);
            if x == k {
                if sj < i { assert(s[sj].0 != s[i].0); } else { assert(s[i].0 != s[sj].0); }
            }
        }
        if assoc_map(s).remove(k).contains_key(x) {
            let j = lemma_assoc_key(s, x);
            if j < i { assert(t[j] == s[j]); } else { assert(t[j - 1] == s[j]); }
        }
    }
    assert forall|x: K| #[trigger] assoc_map(t).contains_key(x) implies assoc_map(t)[x] == assoc_map(s).remove(k)[x] by {
        let j = lemma_assoc_key(t, x);
        lemma_assoc_lookup(t, j);
        let sj = if j < i { j } else { j + 1 };
        assert(t[j] == s[sj]);
        lemma_assoc_lookup(s, sj);
    }
}

} // verus!
