//! The cache of a tracking copy: values read from global state, kept while
//! they fit into a size budget and evicted least recently used first;
//! values written, kept without limit; and keys pruned, which read as
//! absent until written again.
//!
//! Keys and values are held as their serialized bytes; keys are the same
//! when their bytes are. The size of a read entry is measured by the
//! caller's meter when it is inserted.

use vstd::prelude::*;

use linked_hash_map::LinkedHashMap;

use crate::assoc::{assoc_map, keys_unique, lemma_assoc_key, lemma_assoc_lookup, lemma_assoc_push, lemma_assoc_update};

verus! {

#[verifier::external_type_specification]
#[verifier::external_body]
#[verifier::reject_recursive_types(K)]
#[verifier::reject_recursive_types(V)]
#[verifier::reject_recursive_types(S)]
pub struct ExLinkedHashMap<K, V, S>(LinkedHashMap<K, V, S>);

/// The entries of a read cache, least recently used first: each key's
/// bytes, with its value's bytes and the size measured for the entry.
pub uninterp spec fn read_entries(m: LinkedHashMap<Vec<u8>, (Vec<u8>, usize)>) -> Seq<(Seq<u8>, (Seq<u8>, usize))>;

/// The index of the first entry with the key from `from` on, or the number
/// of entries if there is none.
pub open spec fn entry_index<T>(entries: Seq<(Seq<u8>, T)>, key: Seq<u8>, from: int) -> int
    decreases entries.len() - from,
{
    if from >= entries.len() {
        entries.len() as int
    } else if entries[from].0 == key {
        from
    } else {
        entry_index(entries, key, from + 1)
    }
}

/// The index found holds the key, and no entry before it does.
pub proof fn lemma_entry_index<T>(entries: Seq<(Seq<u8>, T)>, key: Seq<u8>, from: int)
    requires
        0 <= from <= entries.len(),
    ensures
        from <= entry_index(entries, key, from) <= entries.len(),
        entry_index(entries, key, from) < entries.len() ==> entries[entry_index(entries, key, from)].0 == key,
        forall|j: int| from <= j < entry_index(entries, key, from) ==> entries[j].0 != key,
    decreases entries.len() - from,
{
    if from < entries.len() && entries[from].0 != key {
        lemma_entry_index(entries, key, from + 1);
    }
}

/// `linked_hash_map::LinkedHashMap::new`: an empty map.
#[verifier::external_body]
fn lru_new() -> (r: LinkedHashMap<Vec<u8>, (Vec<u8>, usize)>)
    ensures
        read_entries(r) == Seq::<(Seq<u8>, (Seq<u8>, usize))>::empty(),
{
    LinkedHashMap::new()
}

/// `linked_hash_map::LinkedHashMap::insert`: the entry for the key gets the
/// value and becomes the most recently used; the value it had, if any, is
/// returned.
#[verifier::external_body]
fn lru_insert(m: &mut LinkedHashMap<Vec<u8>, (Vec<u8>, usize)>, key: Vec<u8>, value: (Vec<u8>, usize)) -> (r: Option<
    (Vec<u8>, usize),
>)
    ensures
        ({
            let old_entries = read_entries(*old(m));
            let i = entry_index(old_entries, key@, 0);
            if i < old_entries.len() {
                &&& r matches Some(o) && o.0@ == old_entries[i].1.0 && o.1 == old_entries[i].1.1
                &&& read_entries(*final(m)) == old_entries.remove(i).push((key@, (value.0@, value.1)))
            } else {
                &&& r is None
                &&& read_entries(*final(m)) == old_entries.push((key@, (value.0@, value.1)))
            }
        }),
{
    m.insert(key, value)
}

/// `linked_hash_map::LinkedHashMap::pop_front`: removes and returns the
/// least recently used entry, if any.
#[verifier::external_body]
fn lru_pop_front(m: &mut LinkedHashMap<Vec<u8>, (Vec<u8>, usize)>) -> (r: Option<(Vec<u8>, (Vec<u8>, usize))>)
    ensures
        read_entries(*old(m)).len() == 0 ==> r is None && read_entries(*final(m)) == read_entries(*old(m)),
        read_entries(*old(m)).len() > 0 ==> ({
            let first = read_entries(*old(m))[0];
            &&& r matches Some(e) && e.0@ == first.0 && e.1.0@ == first.1.0 && e.1.1 == first.1.1
            &&& read_entries(*final(m)) == read_entries(*old(m)).drop_first()
        }),
{
    m.pop_front()
}

/// `linked_hash_map::LinkedHashMap::get_refresh`: the value's bytes of the
/// entry for the key, which becomes the most recently used; `None`, with
/// nothing changed, if there is none.
#[verifier::external_body]
fn lru_get_refresh(m: &mut LinkedHashMap<Vec<u8>, (Vec<u8>, usize)>, key: &[u8]) -> (r: Option<Vec<u8>>)
    ensures
        ({
            let old_entries = read_entries(*old(m));
            let i = entry_index(old_entries, key@, 0);
            if i < old_entries.len() {
                &&& r matches Some(v) && v@ == old_entries[i].1.0
                &&& read_entries(*final(m)) == old_entries.remove(i).push(old_entries[i])
            } else {
                &&& r is None
                &&& read_entries(*final(m)) == old_entries
            }
        }),
{
    match m.get_refresh(key) {
        Some(entry) => Some(entry.0.clone()),
        None => None,
    }
}

/// The total size of the entries.
pub open spec fn sizes(entries: Seq<(Seq<u8>, (Seq<u8>, usize))>) -> int
    decreases entries.len(),
{
    if entries.len() == 0 {
        0
    } else {
        entries[0].1.1 + sizes(entries.drop_first())
    }
}

/// Adding an entry at the back adds its size.
pub proof fn lemma_sizes_push(entries: Seq<(Seq<u8>, (Seq<u8>, usize))>, e: (Seq<u8>, (Seq<u8>, usize)))
    ensures
        sizes(entries.push(e)) == sizes(entries) + e.1.1,
    decreases entries.len(),
{
    if entries.len() > 0 {
        assert(entries.push(e).drop_first() =~= entries.drop_first().push(e));
        lemma_sizes_push(entries.drop_first(), e);
        assert(entries.push(e)[0] == entries[0]);
    } else {
        assert(entries.push(e).drop_first() =~= Seq::<(Seq<u8>, (Seq<u8>, usize))>::empty());
        assert(sizes(entries.push(e).drop_first()) == 0);
        assert(sizes(entries) == 0);
    }
}

/// Removing an entry takes away its size.
pub proof fn lemma_sizes_remove(entries: Seq<(Seq<u8>, (Seq<u8>, usize))>, i: int)
    requires
        0 <= i < entries.len(),
    ensures
        sizes(entries.remove(i)) == sizes(entries) - entries[i].1.1,
    decreases entries.len(),
{
    if i > 0 {
        assert(entries.remove(i).drop_first() =~= entries.drop_first().remove(i - 1));
        lemma_sizes_remove(entries.drop_first(), i - 1);
    } else {
        assert(entries.remove(0) =~= entries.drop_first());
    }
}

/// Sizes are never negative.
pub proof fn lemma_sizes_nonneg(entries: Seq<(Seq<u8>, (Seq<u8>, usize))>)
    ensures
        sizes(entries) >= 0,
    decreases entries.len(),
{
    if entries.len() > 0 {
        lemma_sizes_nonneg(entries.drop_first());
    }
}

/// The read entries after the entry for `key` is put in with its value and
/// size, as the most recently used.
pub open spec fn with_read(
    entries: Seq<(Seq<u8>, (Seq<u8>, usize))>,
    key: Seq<u8>,
    value: Seq<u8>,
    size: usize,
) -> Seq<(Seq<u8>, (Seq<u8>, usize))> {
    let i = entry_index(entries, key, 0);
    if i < entries.len() {
        entries.remove(i).push((key, (value, size)))
    } else {
        entries.push((key, (value, size)))
    }
}

/// The read entries and the counted size after evicting the least recently
/// used entries while the counted size is over `max` and entries are left.
pub open spec fn evict(entries: Seq<(Seq<u8>, (Seq<u8>, usize))>, counted: int, max: int) -> (Seq<
    (Seq<u8>, (Seq<u8>, usize)),
>, int)
    decreases entries.len(),
{
    if counted > max && entries.len() > 0 {
        evict(entries.drop_first(), counted - entries[0].1.1, max)
    } else {
        (entries, counted)
    }
}

/// The written values' keys and values, as byte sequences.
pub open spec fn mut_pairs(muts: Seq<(Vec<u8>, Vec<u8>)>) -> Seq<(Seq<u8>, Seq<u8>)> {
    muts.map_values(|p: (Vec<u8>, Vec<u8>)| (p.0@, p.1@))
}

/// The byte sequences of the keys.
pub open spec fn key_seqs(keys: Seq<Vec<u8>>) -> Seq<Seq<u8>> {
    keys.map_values(|k: Vec<u8>| k@)
}

/// The cache of a tracking copy.
pub struct TrackingCopyCache {
    max_cache_size: usize,
    current_cache_size: usize,
    reads_cached: LinkedHashMap<Vec<u8>, (Vec<u8>, usize)>,
    // The written values and the pruned keys are held as lists without
    // repeated keys: their keys are byte strings, and vstd specifies the
    // contents of a `BTreeMap`, `BTreeSet` or `HashMap` only for keys with a
    // specified ordering or hashing (integers and the like).
    muts_cached: Vec<(Vec<u8>, Vec<u8>)>,
    prunes_cached: Vec<Vec<u8>>,
}

impl TrackingCopyCache {
    /// The size budget of the read entries.
    pub closed spec fn max(&self) -> usize {
        self.max_cache_size
    }

    /// The size counted for the read entries: the sum of their sizes.
    pub closed spec fn counted(&self) -> usize {
        self.current_cache_size
    }

    /// The read entries, least recently used first.
    pub closed spec fn reads(&self) -> Seq<(Seq<u8>, (Seq<u8>, usize))> {
        read_entries(self.reads_cached)
    }

    /// The written values by key.
    pub closed spec fn muts(&self) -> Map<Seq<u8>, Seq<u8>> {
        assoc_map(mut_pairs(self.muts_cached@))
    }

    /// The pruned keys.
    pub closed spec fn prunes(&self) -> Set<Seq<u8>> {
        key_seqs(self.prunes_cached@).to_set()
    }

    /// No key occurs twice in any part, and the counted size is the sum of
    /// the read entries' sizes.
    pub closed spec fn wf(&self) -> bool {
        &&& forall|i: int, j: int| 0 <= i < j < self.reads().len() ==> self.reads()[i].0 != self.reads()[j].0
        &&& keys_unique(mut_pairs(self.muts_cached@))
        &&& forall|i: int, j: int| 0 <= i < j < self.prunes_cached@.len() ==> self.prunes_cached@[i]@
            != self.prunes_cached@[j]@
        &&& self.current_cache_size == sizes(self.reads())
    }

    /// In a well-formed cache the counted size is the sum of the read
    /// entries' sizes.
    pub proof fn lemma_counted_is_sizes(&self)
        requires
            self.wf(),
        ensures
            self.counted() == sizes(self.reads()),
    {
    }

    /// What the cache holds for a key: nothing for a pruned key; the
    /// written value; otherwise the value read, if it is still cached.
    pub open spec fn lookup(&self, key: Seq<u8>) -> Option<Seq<u8>> {
        if self.prunes().contains(key) {
            None
        } else if self.muts().contains_key(key) {
            Some(self.muts()[key])
        } else {
            let i = entry_index(self.reads(), key, 0);
            if i < self.reads().len() {
                Some(self.reads()[i].1.0)
            } else {
                None
            }
        }
    }

    /// An empty cache with the given budget for read entries.
    pub fn new(max_cache_size: usize) -> (r: TrackingCopyCache)
        ensures
            r.wf(),
            r.max() == max_cache_size,
            r.counted() == 0,
            r.reads() == Seq::<(Seq<u8>, (Seq<u8>, usize))>::empty(),
            r.muts() == Map::<Seq<u8>, Seq<u8>>::empty(),
            r.prunes() == Set::<Seq<u8>>::empty(),
    {
        let r = TrackingCopyCache {
            max_cache_size,
            current_cache_size: 0,
            reads_cached: lru_new(),
            muts_cached: Vec::new(),
            prunes_cached: Vec::new(),
        };
        proof {
            assert(mut_pairs(r.muts_cached@) =~= Seq::<(Seq<u8>, Seq<u8>)>::empty());
            assert(r.muts() =~= Map::<Seq<u8>, Seq<u8>>::empty());
            assert(key_seqs(r.prunes_cached@) =~= Seq::<Seq<u8>>::empty());
            assert(r.prunes() =~= Set::<Seq<u8>>::empty());
        }
        r
    }
}

/// The read entries after the entry for `key`, if there is one, became the
/// most recently used.
pub open spec fn refreshed(entries: Seq<(Seq<u8>, (Seq<u8>, usize))>, key: Seq<u8>) -> Seq<(Seq<u8>, (Seq<u8>, usize))> {
    let i = entry_index(entries, key, 0);
    if i < entries.len() {
        entries.remove(i).push(entries[i])
    } else {
        entries
    }
}

/// Whether no two entries have the same key.
pub open spec fn read_keys_unique(entries: Seq<(Seq<u8>, (Seq<u8>, usize))>) -> bool {
    forall|i: int, j: int| 0 <= i < j < entries.len() ==> entries[i].0 != entries[j].0
}

/// Putting in an entry keeps the keys unique, and its size counts once.
proof fn lemma_with_read(entries: Seq<(Seq<u8>, (Seq<u8>, usize))>, key: Seq<u8>, value: Seq<u8>, size: usize)
    requires
        read_keys_unique(entries),
    ensures
        read_keys_unique(with_read(entries, key, value, size)),
        entry_index(entries, key, 0) < entries.len() ==> sizes(with_read(entries, key, value, size)) == sizes(entries)
            - entries[entry_index(entries, key, 0)].1.1 + size,
        entry_index(entries, key, 0) >= entries.len() ==> sizes(with_read(entries, key, value, size)) == sizes(entries)
            + size,
{
    lemma_entry_index(entries, key, 0);
    let i = entry_index(entries, key, 0);
    let e = (key, (value, size));
    if i < entries.len() {
        let rest = entries.remove(i);
        lemma_sizes_remove(entries, i);
        lemma_sizes_push(rest, e);
        assert forall|a: int, b: int| 0 <= a < b < rest.push(e).len() implies rest.push(e)[a].0 != rest.push(e)[b].0 by {
            let ia = if a < i { a } else { a + 1 };
            if b == rest.len() {
                assert(rest[a] == entries[ia]);
                if ia < i {
                    assert(entries[ia].0 != key);
                } else {
                    assert(entries[i].0 != entries[ia].0);
                }
            } else {
                let ib = if b < i { b } else { b + 1 };
                assert(rest[a] == entries[ia] && rest[b] == entries[ib]);
            }
        }
    } else {
        lemma_sizes_push(entries, e);
        assert forall|a: int, b: int| 0 <= a < b < entries.push(e).len() implies entries.push(e)[a].0
            != entries.push(e)[b].0 by {
            if b == entries.len() {
                assert(entries[a].0 != key);
            }
        }
    }
}

/// Refreshing an entry keeps the keys unique and the total size.
proof fn lemma_refreshed(entries: Seq<(Seq<u8>, (Seq<u8>, usize))>, key: Seq<u8>)
    requires
        read_keys_unique(entries),
    ensures
        read_keys_unique(refreshed(entries, key)),
        sizes(refreshed(entries, key)) == sizes(entries),
{
    lemma_entry_index(entries, key, 0);
    let i = entry_index(entries, key, 0);
    if i < entries.len() {
        let rest = entries.remove(i);
        let e = entries[i];
        lemma_sizes_remove(entries, i);
        lemma_sizes_push(rest, e);
        assert forall|a: int, b: int| 0 <= a < b < rest.push(e).len() implies rest.push(e)[a].0 != rest.push(e)[b].0 by {
            let ia = if a < i { a } else { a + 1 };
            if b == rest.len() {
                assert(rest[a] == entries[ia]);
                if ia < i {
                    assert(entries[ia].0 != entries[i].0);
                } else {
                    assert(entries[i].0 != entries[ia].0);
                }
            } else {
                let ib = if b < i { b } else { b + 1 };
                assert(rest[a] == entries[ia] && rest[b] == entries[ib]);
            }
        }
    }
}

/// Evicting from the front keeps the keys unique and the counted size
/// covering the entries left.
proof fn lemma_drop_first(entries: Seq<(Seq<u8>, (Seq<u8>, usize))>)
    requires
        read_keys_unique(entries),
        entries.len() > 0,
    ensures
        read_keys_unique(entries.drop_first()),
        sizes(entries.drop_first()) == sizes(entries) - entries[0].1.1,
        sizes(entries.drop_first()) >= 0,
{
    lemma_sizes_nonneg(entries.drop_first());
    assert forall|a: int, b: int| 0 <= a < b < entries.drop_first().len() implies entries.drop_first()[a].0
        != entries.drop_first()[b].0 by {
        assert(entries.drop_first()[a] == entries[a + 1] && entries.drop_first()[b] == entries[b + 1]);
    }
}

impl TrackingCopyCache {
    /// Caches a value read from global state, with its size as the meter
    /// measures it, in place of an entry cached for the key before; then
    /// evicts the least recently used read entries while the counted size
    /// is over the budget.
    pub fn insert_read(&mut self, key: Vec<u8>, value: Vec<u8>, size: usize)
        requires
            old(self).wf(),
            old(self).counted() + size <= usize::MAX,
        ensures
            final(self).wf(),
            final(self).max() == old(self).max(),
            final(self).muts() == old(self).muts(),
            final(self).prunes() == old(self).prunes(),
            (final(self).reads(), final(self).counted() as int) == evict(
                with_read(old(self).reads(), key@, value@, size),
                sizes(with_read(old(self).reads(), key@, value@, size)),
                old(self).max() as int,
            ),
    {
        let ghost entries = self.reads();
        let ghost target = evict(
            with_read(entries, key@, value@, size),
            sizes(with_read(entries, key@, value@, size)),
            self.max() as int,
        );
        proof {
            lemma_with_read(entries, key@, value@, size);
            lemma_entry_index(entries, key@, 0);
            lemma_sizes_nonneg(entries);
            let i = entry_index(entries, key@, 0);
            if i < entries.len() {
                lemma_sizes_remove(entries, i);
                lemma_sizes_nonneg(entries.remove(i));
            }
        }
        let replaced = lru_insert(&mut self.reads_cached, key, (value, size));
        match replaced {
            Some((_v, old_size)) => {
                self.current_cache_size = self.current_cache_size - old_size;
            },
            None => {},
        }
        self.current_cache_size = self.current_cache_size + size;
        let mut done = false;
        while !done && self.current_cache_size > self.max_cache_size
            invariant
                read_keys_unique(self.reads()),
                self.current_cache_size == sizes(self.reads()),
                done ==> self.reads().len() == 0,
                evict(self.reads(), self.current_cache_size as int, self.max_cache_size as int) == target,
                self.max_cache_size == old(self).max_cache_size,
                self.muts_cached == old(self).muts_cached,
                self.prunes_cached == old(self).prunes_cached,
            decreases (if done { 0 } else { self.reads().len() + 1 }),
        {
            let ghost before = self.reads();
            match lru_pop_front(&mut self.reads_cached) {
                Some((_k, (_v, s))) => {
                    proof {
                        lemma_drop_first(before);
                    }
                    self.current_cache_size = self.current_cache_size - s;
                },
                None => {
                    done = true;
                },
            }
        }
    }

    /// Whether the key was pruned.
    pub fn is_pruned(&self, key: &[u8]) -> (r: bool)
        ensures
            r == self.prunes().contains(key@),
    {
        match self.find_prune(key) {
            Some(_) => true,
            None => false,
        }
    }

    /// Where the key is among the pruned keys.
    fn find_prune(&self, key: &[u8]) -> (r: Option<usize>)
        ensures
            r matches Some(i) ==> i < self.prunes_cached@.len() && self.prunes_cached@[i as int]@ == key@,
            r is None ==> !self.prunes().contains(key@),
            r is Some ==> self.prunes().contains(key@),
    {
        let mut i: usize = 0;
        while i < self.prunes_cached.len()
            invariant
                i <= self.prunes_cached@.len(),
                forall|j: int| 0 <= j < i ==> self.prunes_cached@[j]@ != key@,
            decreases self.prunes_cached@.len() - i,
        {
            if crate::text::bytes_eq(self.prunes_cached[i].as_slice(), key) {
                proof {
                    assert(key_seqs(self.prunes_cached@)[i as int] == key@);
                }
                return Some(i);
            }
            i += 1;
        }
        proof {
            if self.prunes().contains(key@) {
                let j = choose|j: int| 0 <= j < key_seqs(self.prunes_cached@).len() && key_seqs(self.prunes_cached@)[j] == key@;
                assert(self.prunes_cached@[j]@ == key@);
            }
        }
        None
    }

    /// Where the key is among the written values.
    fn find_mut(&self, key: &[u8]) -> (r: Option<usize>)
        requires
            self.wf(),
        ensures
            r matches Some(i) ==> i < self.muts_cached@.len() && self.muts_cached@[i as int].0@ == key@
                && self.muts().contains_key(key@) && self.muts()[key@] == self.muts_cached@[i as int].1@,
            r is None ==> !self.muts().contains_key(key@),
    {
        let mut i: usize = 0;
        while i < self.muts_cached.len()
            invariant
                self.wf(),
                i <= self.muts_cached@.len(),
                forall|j: int| 0 <= j < i ==> self.muts_cached@[j].0@ != key@,
            decreases self.muts_cached@.len() - i,
        {
            if crate::text::bytes_eq(self.muts_cached[i].0.as_slice(), key) {
                proof {
                    lemma_assoc_lookup(mut_pairs(self.muts_cached@), i as int);
                }
                return Some(i);
            }
            i += 1;
        }
        proof {
            if self.muts().contains_key(key@) {
                let j = lemma_assoc_key(mut_pairs(self.muts_cached@), key@);
            }
        }
        None
    }
}

/// Removing a key that occurs once takes it out of the set of keys.
proof fn lemma_key_remove(keys: Seq<Vec<u8>>, i: int)
    requires
        0 <= i < keys.len(),
        forall|a: int, b: int| 0 <= a < b < keys.len() ==> keys[a]@ != keys[b]@,
    ensures
        key_seqs(keys.remove(i)).to_set() == key_seqs(keys).to_set().remove(keys[i]@),
        forall|a: int, b: int| 0 <= a < b < keys.remove(i).len() ==> keys.remove(i)[a]@ != keys.remove(i)[b]@,
{
    let rest = keys.remove(i);
    assert forall|x: Seq<u8>| #[trigger] key_seqs(rest).to_set().contains(x) == key_seqs(keys).to_set().remove(
        keys[i]@,
    ).contains(x) by {
        if key_seqs(rest).to_set().contains(x) {
            let a = choose|a: int| 0 <= a < key_seqs(rest).len() && key_seqs(rest)[a] == x;
            let ia = if a < i { a } else { a + 1 };
            assert(rest[a] == keys[ia]);
            assert(key_seqs(keys)[ia] == x);
            if ia < i {
                assert(keys[ia]@ != keys[i]@);
            } else {
                assert(keys[i]@ != keys[ia]@);
            }
        }
        if key_seqs(keys).to_set().remove(keys[i]@).contains(x) {
            let a = choose|a: int| 0 <= a < key_seqs(keys).len() && key_seqs(keys)[a] == x;
            assert(a != i);
            let ra = if a < i { a } else { a - 1 };
            assert(rest[ra] == keys[a]);
            assert(key_seqs(rest)[ra] == x);
        }
    }
    assert(key_seqs(rest).to_set() =~= key_seqs(keys).to_set().remove(keys[i]@));
    assert forall|a: int, b: int| 0 <= a < b < rest.len() implies rest[a]@ != rest[b]@ by {
        let ia = if a < i { a } else { a + 1 };
        let ib = if b < i { b } else { b + 1 };
        assert(rest[a] == keys[ia] && rest[b] == keys[ib]);
    }
}

impl TrackingCopyCache {
    /// Forgets that the key was pruned.
    fn unprune(&mut self, key: &[u8])
        requires
            old(self).wf(),
        ensures
            final(self).wf(),
            final(self).prunes() == old(self).prunes().remove(key@),
            final(self).reads_cached == old(self).reads_cached,
            final(self).muts_cached == old(self).muts_cached,
            final(self).current_cache_size == old(self).current_cache_size,
            final(self).max_cache_size == old(self).max_cache_size,
    {
        match self.find_prune(key) {
            Some(i) => {
                proof {
                    lemma_key_remove(self.prunes_cached@, i as int);
                }
                let _ = self.prunes_cached.remove(i);
            },
            None => {
                proof {
                    assert(self.prunes().remove(key@) =~= self.prunes());
                }
            },
        }
    }

    /// Caches a written value: the key is no longer pruned, and reads give
    /// the value.
    pub fn insert_write(&mut self, key: Vec<u8>, value: Vec<u8>)
        requires
            old(self).wf(),
        ensures
            final(self).wf(),
            final(self).max() == old(self).max(),
            final(self).counted() == old(self).counted(),
            final(self).reads() == old(self).reads(),
            final(self).muts() == old(self).muts().insert(key@, value@),
            final(self).prunes() == old(self).prunes().remove(key@),
    {
        self.unprune(key.as_slice());
        let ghost pairs = mut_pairs(self.muts_cached@);
        match self.find_mut(key.as_slice()) {
            Some(i) => {
                proof {
                    lemma_assoc_update(pairs, i as int, value@);
                }
                self.muts_cached.set(i, (key, value));
                proof {
                    assert(mut_pairs(self.muts_cached@) =~= pairs.update(i as int, (pairs[i as int].0, value@)));
                }
            },
            None => {
                proof {
                    lemma_assoc_push(pairs, key@, value@);
                }
                self.muts_cached.push((key, value));
                proof {
                    assert(mut_pairs(self.muts_cached@) =~= pairs.push((key@, value@)));
                }
            },
        }
    }

    /// Marks the key as pruned: reads find nothing under it until it is
    /// written again.
    pub fn insert_prune(&mut self, key: Vec<u8>)
        requires
            old(self).wf(),
        ensures
            final(self).wf(),
            final(self).max() == old(self).max(),
            final(self).counted() == old(self).counted(),
            final(self).reads() == old(self).reads(),
            final(self).muts() == old(self).muts(),
            final(self).prunes() == old(self).prunes().insert(key@),
    {
        match self.find_prune(key.as_slice()) {
            Some(_) => {
                proof {
                    assert(self.prunes().insert(key@) =~= self.prunes());
                }
            },
            None => {
                let ghost before = self.prunes_cached@;
                self.prunes_cached.push(key);
                proof {
                    assert(key_seqs(self.prunes_cached@) =~= key_seqs(before).push(self.prunes_cached@.last()@));
                    key_seqs(before).lemma_push_to_set_commute(self.prunes_cached@.last()@);
                    assert forall|a: int, b: int| 0 <= a < b < self.prunes_cached@.len() implies self.prunes_cached@[a]@
                        != self.prunes_cached@[b]@ by {
                        if b == before.len() {
                            assert(key_seqs(before)[a] == before[a]@);
                        }
                    }
                }
            },
        }
    }

    /// What the cache holds for the key; a value read from global state
    /// becomes the most recently used.
    pub fn get(&mut self, key: &[u8]) -> (r: Option<Vec<u8>>)
        requires
            old(self).wf(),
        ensures
            final(self).wf(),
            final(self).max() == old(self).max(),
            final(self).counted() == old(self).counted(),
            final(self).muts() == old(self).muts(),
            final(self).prunes() == old(self).prunes(),
            match r {
                Some(v) => old(self).lookup(key@) == Some(v@),
                None => old(self).lookup(key@) is None,
            },
            final(self).reads() == if old(self).prunes().contains(key@) || old(self).muts().contains_key(key@) {
                old(self).reads()
            } else {
                refreshed(old(self).reads(), key@)
            },
    {
        if self.is_pruned(key) {
            return None;
        }
        match self.find_mut(key) {
            Some(i) => {
                return Some(self.muts_cached[i].1.clone());
            },
            None => {},
        }
        proof {
            lemma_refreshed(self.reads(), key@);
            lemma_entry_index(self.reads(), key@, 0);
        }
        lru_get_refresh(&mut self.reads_cached, key)
    }

    /// The keys of the written values that start with the prefix.
    pub fn get_muts_cached_by_byte_prefix(&self, prefix: &[u8]) -> (r: Vec<Vec<u8>>)
        requires
            self.wf(),
        ensures
            key_seqs(r@).to_set() == self.muts().dom().filter(|k: Seq<u8>| prefix@.is_prefix_of(k)),
            forall|a: int, b: int| 0 <= a < b < r@.len() ==> r@[a]@ != r@[b]@,
    {
        let mut r: Vec<Vec<u8>> = Vec::new();
        let ghost mut idx: Seq<int> = Seq::empty();
        let mut i: usize = 0;
        while i < self.muts_cached.len()
            invariant
                self.wf(),
                i <= self.muts_cached@.len(),
                idx.len() == r@.len(),
                forall|a: int, b: int| 0 <= a < b < idx.len() ==> idx[a] < idx[b],
                forall|a: int| 0 <= a < idx.len() ==> 0 <= #[trigger] idx[a] < i && r@[a]@ == self.muts_cached@[idx[a]].0@,
                forall|a: int| 0 <= a < idx.len() ==> prefix@.is_prefix_of(#[trigger] r@[a]@),
                forall|j: int| 0 <= j < i && prefix@.is_prefix_of(self.muts_cached@[j].0@) ==> exists|a: int|
                    0 <= a < idx.len() && #[trigger] idx[a] == j,
            decreases self.muts_cached@.len() - i,
        {
            let ghost idx_before = idx;
            let key = &self.muts_cached[i].0;
            let starts = crate::text::starts_with(key.as_slice(), prefix);
            if starts {
                r.push(key.clone());
                proof {
                    idx = idx.push(i as int);
                    assert(idx[idx.len() - 1] == i);
                }
            }
            proof {
                assert forall|j: int| 0 <= j < i + 1 && prefix@.is_prefix_of(self.muts_cached@[j].0@) implies exists|a: int|
                    0 <= a < idx.len() && #[trigger] idx[a] == j by {
                    if j < i {
                        let a = choose|a: int| 0 <= a < idx_before.len() && #[trigger] idx_before[a] == j;
                        assert(idx[a] == idx_before[a]);
                    } else {
                        assert(idx[idx.len() - 1] == j);
                    }
                }
            }
            i += 1;
        }
        proof {
            let pairs = mut_pairs(self.muts_cached@);
            assert forall|a: int, b: int| 0 <= a < b < r@.len() implies r@[a]@ != r@[b]@ by {
                assert(idx[a] < idx[b]);
                assert(pairs[idx[a]].0 == self.muts_cached@[idx[a]].0@);
                assert(pairs[idx[b]].0 == self.muts_cached@[idx[b]].0@);
            }
            assert forall|x: Seq<u8>| #[trigger] key_seqs(r@).to_set().contains(x) == self.muts().dom().filter(
                |k: Seq<u8>| prefix@.is_prefix_of(k),
            ).contains(x) by {
                if key_seqs(r@).to_set().contains(x) {
                    let a = choose|a: int| 0 <= a < key_seqs(r@).len() && key_seqs(r@)[a] == x;
                    assert(r@[a]@ == x);
                    let j = idx[a];
                    assert(pairs[j].0 == x);
                    assert(self.muts().dom().contains(x));
                }
                if self.muts().dom().filter(|k: Seq<u8>| prefix@.is_prefix_of(k)).contains(x) {
                    let j = lemma_assoc_key(pairs, x);
                    assert(self.muts_cached@[j].0@ == x);
                    let a = choose|a: int| 0 <= a < idx.len() && #[trigger] idx[a] == j;
                    assert(key_seqs(r@)[a] == x);
                }
            }
            assert(key_seqs(r@).to_set() =~= self.muts().dom().filter(|k: Seq<u8>| prefix@.is_prefix_of(k)));
        }
        r
    }
}

/// A read gives back what a write wrote: after a value is written under a
/// key, the cache holds that value for the key, whatever it held before
/// (a pruned key included).
pub proof fn law_write_then_lookup(before: TrackingCopyCache, after: TrackingCopyCache, key: Seq<u8>, value: Seq<u8>)
    requires
        after.muts() == before.muts().insert(key, value),
        after.prunes() == before.prunes().remove(key),
    ensures
        after.lookup(key) == Some(value),
{
}

/// A pruned key reads as absent, whatever was cached for it.
pub proof fn law_prune_hides(before: TrackingCopyCache, after: TrackingCopyCache, key: Seq<u8>)
    requires
        after.prunes() == before.prunes().insert(key),
    ensures
        after.lookup(key) is None,
{
}

/// After a read is cached, the counted size is within the budget, unless
/// no read entries are left; nothing is evicted while the cache is within
/// its budget.
pub proof fn law_reads_within_budget(entries: Seq<(Seq<u8>, (Seq<u8>, usize))>, counted: int, max: int)
    ensures
        counted <= max ==> evict(entries, counted, max) == (entries, counted),
        evict(entries, counted, max).1 <= max || evict(entries, counted, max).0.len() == 0,
        evict(entries, counted, max).0.len() <= entries.len(),
    decreases entries.len(),
{
    if counted > max && entries.len() > 0 {
        law_reads_within_budget(entries.drop_first(), counted - entries[0].1.1, max);
    }
}

} // verus!
