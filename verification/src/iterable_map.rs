//! A map kept in contract storage whose entries are linked from the most
//! recently inserted one back to the first, so that it can be traversed.
//!
//! Every entry at key `K_n` stores its value and the hash of the key of the
//! entry inserted before it. Keys are hashed to `u128`; an entry lives in the
//! storage under the map's prefix, an underscore, and the little-endian bytes
//! of the key's hash.

use core::marker::PhantomData;
use vstd::prelude::*;
use vstd::string::StringSliceAdditionalSpecFns;

use crate::assoc::{assoc_map, keys_unique, lemma_assoc_lookup, lemma_assoc_push, lemma_assoc_remove, lemma_assoc_update};

verus! {

/// Internal key representation after hashing.
pub type IterableMapKeyRepr = u128;

/// The FNV-1a offset basis for 128-bit hashes.
pub const FNV_OFFSET_BASIS_128: u128 = 0x6c62272e07bb014262b821756295c58d;

/// The FNV-1a prime for 128-bit hashes.
pub const FNV_PRIME_128: u128 = 0x0000000001000000000000000000013B;

/// The 128-bit FNV-1a hash of a byte sequence.
pub open spec fn fnv1a_128(bytes: Seq<u8>) -> u128
    decreases bytes.len(),
{
    if bytes.len() == 0 {
        FNV_OFFSET_BASIS_128
    } else {
        let h = fnv1a_128(bytes.drop_last()) ^ (bytes.last() as u128);
        ((h * FNV_PRIME_128) % (u128::MAX + 1)) as u128
    }
}

/// The little-endian bytes of a `u64`.
pub open spec fn u64_le_bytes(v: u64) -> Seq<u8> {
    Seq::new(8, |i: int| ((v as int / pow256(i)) % 256) as u8)
}

/// The little-endian bytes of a `u128`.
pub open spec fn u128_le_bytes(v: u128) -> Seq<u8> {
    Seq::new(16, |i: int| ((v as int / pow256(i)) % 256) as u8)
}

/// `256` to the power `i`.
pub open spec fn pow256(i: int) -> int
    decreases i,
{
    if i <= 0 { 1 } else { pow256(i - 1) * 256 }
}

/// Hashes a byte slice with 128-bit FNV-1a, over the whole slice.
///
/// Calls `const_fnv1a_hash::fnv1a_hash_128` without a limit; its source folds
/// every byte into the offset basis with xor and a wrapping multiplication by
/// the prime, which is what `fnv1a_128` states.
#[verifier::external_body]
fn fnv1a_hash_128(bytes: &[u8]) -> (r: u128)
    ensures
        r == fnv1a_128(bytes@),
{
    const_fnv1a_hash::fnv1a_hash_128(bytes, None)
}

/// Serializes a `u64` with borsh.
///
/// Calls `borsh::to_vec`; borsh writes an integer as its little-endian bytes,
/// and writing into a `Vec` does not fail.
#[verifier::external_body]
fn borsh_u64_bytes(value: u64) -> (r: Option<Vec<u8>>)
    ensures
        r is Some,
        r.unwrap()@ == u64_le_bytes(value),
{
    borsh::to_vec(&value).ok()
}

/// Types that can key an [`IterableMap`]: each key has a deterministic hash.
pub trait IterableMapKey {
    /// The hash of the key.
    spec fn key_hash(&self) -> u128;

    /// Computes the hash of the key.
    fn to_key_prefix(&self) -> (r: IterableMapKeyRepr)
        ensures
            r == self.key_hash(),
    ;
}

impl IterableMapKey for u64 {
    /// A `u64` key hashes to the FNV-1a hash of its borsh bytes.
    open spec fn key_hash(&self) -> u128 {
        fnv1a_128(u64_le_bytes(*self))
    }

    fn to_key_prefix(&self) -> (r: IterableMapKeyRepr) {
        let bytes = borsh_u64_bytes(*self);
        match bytes {
            Some(b) => fnv1a_hash_128(b.as_slice()),
            None => 0,
        }
    }
}


/// Powers of 256 are positive.
proof fn lemma_pow256_positive(i: int)
    ensures
        pow256(i) > 0,
    decreases i,
{
    if i > 0 {
        lemma_pow256_positive(i - 1);
    }
}

/// The storage key of the entry with the given hash, under a map's prefix:
/// the prefix, an underscore, and the hash's little-endian bytes.
pub open spec fn key_of(prefix: Seq<u8>, hash: u128) -> Seq<u8> {
    prefix + seq![95u8] + u128_le_bytes(hash)
}

/// Builds the storage key of the entry with the given hash under a prefix.
pub fn context_key(prefix: &str, hash: IterableMapKeyRepr) -> (r: Vec<u8>)
    ensures
        r@ == key_of(prefix.spec_bytes(), hash),
{
    let pb = prefix.as_bytes();
    let mut out: Vec<u8> = Vec::new();
    let mut i: usize = 0;
    while i < pb.len()
        invariant
            0 <= i <= pb@.len(),
            out@ == pb@.subrange(0, i as int),
        decreases pb@.len() - i,
    {
        out.push(pb[i]);
        i += 1;
        assert(out@ =~= pb@.subrange(0, i as int));
    }
    assert(out@ =~= pb@);
    out.push(95u8);
    let ghost base = out@;
    let mut x: u128 = hash;
    let mut j: usize = 0;
    while j < 16
        invariant
            0 <= j <= 16,
            out@ == base + u128_le_bytes(hash).subrange(0, j as int),
            x == hash as int / pow256(j as int),
        decreases 16 - j,
    {
        proof {
            lemma_pow256_positive(j as int);
            vstd::arithmetic::div_mod::lemma_div_denominator(hash as int, pow256(j as int), 256);
        }
        out.push((x % 256) as u8);
        x = x / 256;
        j += 1;
        assert(out@ =~= base + u128_le_bytes(hash).subrange(0, j as int));
    }
    assert(u128_le_bytes(hash).subrange(0, 16) =~= u128_le_bytes(hash));
    out
}

/// Single entry of an [`IterableMap`]: the value and the hash of the key of
/// the entry inserted before it.
pub struct IterableMapEntry<V> {
    pub value: V,
    pub previous: Option<IterableMapKeyRepr>,
}

/// Contract storage: entries by their storage key.
pub struct ContextStore<V> {
    entries: Vec<(Vec<u8>, IterableMapEntry<V>)>,
}

/// The storage keys and entries that a list of stored pairs holds.
pub open spec fn stored_pairs<V>(s: Seq<(Vec<u8>, IterableMapEntry<V>)>) -> Seq<(Seq<u8>, IterableMapEntry<V>)> {
    s.map_values(|p: (Vec<u8>, IterableMapEntry<V>)| (p.0@, p.1))
}

impl<V> View for ContextStore<V> {
    type V = Map<Seq<u8>, IterableMapEntry<V>>;

    closed spec fn view(&self) -> Map<Seq<u8>, IterableMapEntry<V>> {
        assoc_map(stored_pairs(self.entries@))
    }
}

impl<V> ContextStore<V> {
    /// No storage key is held twice.
    pub closed spec fn wf(&self) -> bool {
        keys_unique(stored_pairs(self.entries@))
    }

    /// Empty storage.
    pub fn new() -> (r: Self)
        ensures
            r.wf(),
            r@ == Map::<Seq<u8>, IterableMapEntry<V>>::empty(),
    {
        let r = ContextStore { entries: Vec::new() };
        assert(r@ =~= Map::<Seq<u8>, IterableMapEntry<V>>::empty());
        r
    }

    fn position(&self, key: &[u8]) -> (r: Option<usize>)
        requires
            self.wf(),
        ensures
            match r {
                Some(i) => i < self.entries@.len() && self.entries@[i as int].0@ == key@,
                None => !self@.contains_key(key@),
            },
    {
        let mut i: usize = 0;
        while i < self.entries.len()
            invariant
                0 <= i <= self.entries@.len(),
                forall|j: int| 0 <= j < i ==> (#[trigger] self.entries@[j]).0@ != key@,
            decreases self.entries@.len() - i,
        {
            if crate::text::bytes_eq(self.entries[i].0.as_slice(), key) {
                return Some(i);
            }
            i += 1;
        }
        proof {
            if self@.contains_key(key@) {
                let j = crate::assoc::lemma_assoc_key(stored_pairs(self.entries@), key@);
                assert(stored_pairs(self.entries@)[j].0 == self.entries@[j].0@);
            }
        }
        None
    }

    proof fn lemma_at(&self, i: int)
        requires
            self.wf(),
            0 <= i < self.entries@.len(),
        ensures
            self@.contains_key(self.entries@[i].0@),
            self@[self.entries@[i].0@] == self.entries@[i].1,
    {
        lemma_assoc_lookup(stored_pairs(self.entries@), i);
    }

    /// The entry stored under a key, if any.
    pub fn read(&self, key: &[u8]) -> (r: Option<&IterableMapEntry<V>>)
        requires
            self.wf(),
        ensures
            match r {
                Some(e) => self@.contains_key(key@) && self@[key@] == *e,
                None => !self@.contains_key(key@),
            },
    {
        match self.position(key) {
            Some(i) => {
                proof { self.lemma_at(i as int); }
                Some(&self.entries[i].1)
            },
            None => None,
        }
    }

    /// Stores an entry under a key, replacing what was there.
    pub fn write(&mut self, key: Vec<u8>, entry: IterableMapEntry<V>)
        requires
            old(self).wf(),
        ensures
            final(self).wf(),
            final(self)@ == old(self)@.insert(key@, entry),
    {
        let ghost k = key@;
        let ghost e = entry;
        match self.position(key.as_slice()) {
            Some(i) => {
                let ghost before = self.entries@;
                self.entries.set(i, (key, entry));
                proof {
                    lemma_assoc_update(stored_pairs(before), i as int, e);
                    assert(stored_pairs(self.entries@) =~= stored_pairs(before).update(
                        i as int, (stored_pairs(before)[i as int].0, e)));
                }
            },
            None => {
                let ghost before = self.entries@;
                self.entries.push((key, entry));
                proof {
                    lemma_assoc_push(stored_pairs(before), k, e);
                    assert(stored_pairs(self.entries@) =~= stored_pairs(before).push((k, e)));
                }
            },
        }
    }

    /// Sets the `previous` link of the entry under a key.
    pub fn set_previous(&mut self, key: &[u8], previous: Option<IterableMapKeyRepr>)
        requires
            old(self).wf(),
            old(self)@.contains_key(key@),
        ensures
            final(self).wf(),
            final(self)@ == old(self)@.insert(key@, IterableMapEntry { value: old(self)@[key@].value, previous }),
    {
        let i = self.position(key).unwrap();
        let ghost before = self.entries@;
        proof { self.lemma_at(i as int); }
        let (k, mut entry) = self.entries.remove(i);
        entry.previous = previous;
        let ghost e = entry;
        self.entries.insert(i, (k, entry));
        proof {
            assert(self.entries@ =~= before.update(i as int, (before[i as int].0, e)));
            lemma_assoc_update(stored_pairs(before), i as int, e);
            assert(stored_pairs(self.entries@) =~= stored_pairs(before).update(
                i as int, (stored_pairs(before)[i as int].0, e)));
        }
    }

    /// Replaces the value of the entry under a key, keeping its link, and
    /// returns the old value; when nothing is stored there, hands the value
    /// back and changes nothing.
    pub fn replace_value(&mut self, key: &[u8], value: V) -> (r: Result<V, V>)
        requires
            old(self).wf(),
        ensures
            final(self).wf(),
            old(self)@.contains_key(key@) ==> r == Ok::<V, V>(old(self)@[key@].value)
                && final(self)@ == old(self)@.insert(key@, IterableMapEntry { value, previous: old(self)@[key@].previous }),
            !old(self)@.contains_key(key@) ==> r == Err::<V, V>(value) && final(self)@ == old(self)@,
    {
        match self.position(key) {
            Some(i) => {
                let ghost before = self.entries@;
                proof { self.lemma_at(i as int); }
                let (k, entry) = self.entries.remove(i);
                let IterableMapEntry { value: old_value, previous } = entry;
                let ghost e = IterableMapEntry { value, previous };
                self.entries.insert(i, (k, IterableMapEntry { value, previous }));
                proof {
                    assert(self.entries@ =~= before.update(i as int, (before[i as int].0, e)));
                    lemma_assoc_update(stored_pairs(before), i as int, e);
                    assert(stored_pairs(self.entries@) =~= stored_pairs(before).update(
                        i as int, (stored_pairs(before)[i as int].0, e)));
                }
                Ok(old_value)
            },
            None => Err(value),
        }
    }

    /// Removes the entry under a key and returns it, if there was one.
    pub fn take(&mut self, key: &[u8]) -> (r: Option<IterableMapEntry<V>>)
        requires
            old(self).wf(),
        ensures
            final(self).wf(),
            final(self)@ == old(self)@.remove(key@),
            old(self)@.contains_key(key@) ==> r == Some(old(self)@[key@]),
            !old(self)@.contains_key(key@) ==> r is None,
    {
        match self.position(key) {
            Some(i) => {
                let ghost before = self.entries@;
                proof { self.lemma_at(i as int); }
                let (_k, entry) = self.entries.remove(i);
                proof {
                    lemma_assoc_remove(stored_pairs(before), i as int);
                    assert(stored_pairs(self.entries@) =~= stored_pairs(before).remove(i as int));
                }
                Some(entry)
            },
            None => {
                assert(self@.remove(key@) =~= self@);
                None
            },
        }
    }

    /// Removes whatever is stored under a key.
    pub fn purge(&mut self, key: &[u8])
        requires
            old(self).wf(),
        ensures
            final(self).wf(),
            final(self)@ == old(self)@.remove(key@),
    {
        match self.position(key) {
            Some(i) => {
                let ghost before = self.entries@;
                self.entries.remove(i);
                proof {
                    lemma_assoc_remove(stored_pairs(before), i as int);
                    assert(stored_pairs(self.entries@) =~= stored_pairs(before).remove(i as int));
                }
            },
            None => {
                assert(self@.remove(key@) =~= self@);
            },
        }
    }
}

/// A map kept in contract storage under a prefix; see the module's
/// documentation.
pub struct IterableMap<K, V> {
    pub prefix: String,
    pub head_key_hash: Option<IterableMapKeyRepr>,
    /// The hashes of the keys in the map, from the most recent to the first.
    pub order: Ghost<Seq<IterableMapKeyRepr>>,
    pub marker: PhantomData<(K, V)>,
}

/// The entries of the map whose links lead, from the head, through `order`.
pub open spec fn chain_holds<V>(
    prefix: Seq<u8>,
    head: Option<IterableMapKeyRepr>,
    order: Seq<IterableMapKeyRepr>,
    store: Map<Seq<u8>, IterableMapEntry<V>>,
) -> bool {
    &&& order.no_duplicates()
    &&& head == (if order.len() == 0 { None } else { Some(order[0]) })
    &&& forall|i: int| 0 <= i < order.len() ==> #[trigger] store.contains_key(key_of(prefix, order[i]))
        && store[key_of(prefix, order[i])].previous == (if i + 1 < order.len() { Some(order[i + 1]) } else { None })
}

/// Storage keys of distinct hashes differ, under the same prefix.
pub proof fn lemma_key_of_injective(prefix: Seq<u8>, a: u128, b: u128)
    requires
        a != b,
    ensures
        key_of(prefix, a) != key_of(prefix, b),
{
    if key_of(prefix, a) == key_of(prefix, b) {
        let n: int = prefix.len() as int + 1;
        assert(u128_le_bytes(a) =~= key_of(prefix, a).subrange(n, n + 16));
        assert(u128_le_bytes(b) =~= key_of(prefix, b).subrange(n, n + 16));
        lemma_le_bytes_injective(a, b);
    }
}

/// Values whose first `n` little-endian bytes agree agree modulo `256^n`.
proof fn lemma_le_bytes_prefix(a: u128, b: u128, n: int)
    requires
        0 <= n <= 16,
        u128_le_bytes(a).subrange(0, n) == u128_le_bytes(b).subrange(0, n),
    ensures
        a as int % pow256(n) == b as int % pow256(n),
    decreases n,
{
    if n > 0 {
        let m = n - 1;
        assert(u128_le_bytes(a).subrange(0, m) =~= u128_le_bytes(a).subrange(0, n).subrange(0, m));
        assert(u128_le_bytes(b).subrange(0, m) =~= u128_le_bytes(b).subrange(0, n).subrange(0, m));
        lemma_le_bytes_prefix(a, b, m);
        lemma_pow256_positive(m);
        assert(u128_le_bytes(a)[m] == u128_le_bytes(a).subrange(0, n)[m]);
        assert(u128_le_bytes(b)[m] == u128_le_bytes(b).subrange(0, n)[m]);
        assert((a as int / pow256(m)) % 256 == (b as int / pow256(m)) % 256);
        vstd::arithmetic::div_mod::lemma_mod_breakdown(a as int, pow256(m), 256);
        vstd::arithmetic::div_mod::lemma_mod_breakdown(b as int, pow256(m), 256);
    }
}

/// Distinct values have distinct little-endian bytes.
pub proof fn lemma_le_bytes_injective(a: u128, b: u128)
    requires
        u128_le_bytes(a) == u128_le_bytes(b),
    ensures
        a == b,
{
    assert(u128_le_bytes(a).subrange(0, 16) =~= u128_le_bytes(a));
    assert(u128_le_bytes(b).subrange(0, 16) =~= u128_le_bytes(b));
    lemma_le_bytes_prefix(a, b, 16);
    assert(pow256(16) == u128::MAX + 1) by {
        reveal_with_fuel(pow256, 17);
    }
    vstd::arithmetic::div_mod::lemma_small_mod(a as nat, pow256(16) as nat);
    vstd::arithmetic::div_mod::lemma_small_mod(b as nat, pow256(16) as nat);
}

/// Storage keys under different prefixes differ.
pub proof fn lemma_key_of_prefixes(p1: Seq<u8>, p2: Seq<u8>, a: u128, b: u128)
    requires
        p1 != p2,
    ensures
        key_of(p1, a) != key_of(p2, b),
{
    if key_of(p1, a) == key_of(p2, b) {
        assert(key_of(p1, a).len() == p1.len() + 17);
        assert(key_of(p2, b).len() == p2.len() + 17);
        assert(p1.len() == p2.len());
        assert(p1 =~= key_of(p1, a).subrange(0, p1.len() as int));
        assert(p2 =~= key_of(p2, b).subrange(0, p2.len() as int));
    }
}

/// Separate maps do not conflict: when a map under another prefix writes an
/// entry, this map's links stay whole and its contents stay the same.
pub proof fn law_other_prefix_untouched<V>(
    p1: Seq<u8>,
    p2: Seq<u8>,
    head: Option<u128>,
    order: Seq<u128>,
    store: Map<Seq<u8>, IterableMapEntry<V>>,
    h: u128,
    e: IterableMapEntry<V>,
)
    requires
        p1 != p2,
        chain_holds(p1, head, order, store),
    ensures
        chain_holds(p1, head, order, store.insert(key_of(p2, h), e)),
        forall|i: int| 0 <= i < order.len() ==> #[trigger] store.insert(key_of(p2, h), e)[key_of(p1, order[i])]
            == store[key_of(p1, order[i])],
{
    let s2 = store.insert(key_of(p2, h), e);
    assert forall|i: int| 0 <= i < order.len() implies #[trigger] s2.contains_key(key_of(p1, order[i]))
        && s2[key_of(p1, order[i])].previous == (if i + 1 < order.len() { Some(order[i + 1]) } else { None }) by {
        assert(store.contains_key(key_of(p1, order[i])));
        lemma_key_of_prefixes(p1, p2, order[i], h);
    }
    assert forall|i: int| 0 <= i < order.len() implies #[trigger] store.insert(key_of(p2, h), e)[key_of(p1, order[i])]
        == store[key_of(p1, order[i])] by {
        lemma_key_of_prefixes(p1, p2, order[i], h);
    }
}

/// A read gives back what a write wrote: after an insert (which stores the
/// value under the key's storage key, with whatever link), the entry there
/// holds the inserted value, and entries under other storage keys are as
/// they were.
pub proof fn law_insert_then_get<V>(
    store: Map<Seq<u8>, IterableMapEntry<V>>,
    kb: Seq<u8>,
    value: V,
    previous: Option<u128>,
    other: Seq<u8>,
)
    ensures
        store.insert(kb, IterableMapEntry { value, previous }).contains_key(kb),
        store.insert(kb, IterableMapEntry { value, previous })[kb].value == value,
        other != kb ==> store.insert(kb, IterableMapEntry { value, previous }).contains_key(other)
            == store.contains_key(other),
        other != kb && store.contains_key(other) ==> store.insert(kb, IterableMapEntry { value, previous })[other]
            == store[other],
{
}

/// Taking out the head entry leaves the rest of the chain whole.
proof fn lemma_unlink_head<V>(
    p: Seq<u8>,
    o: Seq<u128>,
    s0: Map<Seq<u8>, IterableMapEntry<V>>,
    s1: Map<Seq<u8>, IterableMapEntry<V>>,
    h: u128,
)
    requires
        o.len() > 0,
        o[0] == h,
        chain_holds(p, Some(h), o, s0),
        s1 == s0.remove(key_of(p, h)),
    ensures
        chain_holds(p, s0[key_of(p, h)].previous, o.remove(0), s1),
{
    let o2 = o.remove(0);
    assert(s0.contains_key(key_of(p, o[0])));
    assert forall|i: int, j: int| 0 <= i < o2.len() && 0 <= j < o2.len() && i != j implies o2[i] != o2[j] by {
        assert(o2[i] == o[i + 1] && o2[j] == o[j + 1]);
    }
    assert forall|i: int| 0 <= i < o2.len() implies #[trigger] s1.contains_key(key_of(p, o2[i]))
        && s1[key_of(p, o2[i])].previous == (if i + 1 < o2.len() { Some(o2[i + 1]) } else { None }) by {
        assert(o2[i] == o[i + 1]);
        assert(s0.contains_key(key_of(p, o[i + 1])));
        assert(o[i + 1] != o[0]);
        lemma_key_of_injective(p, o[i + 1], h);
    }
}

/// Taking out an inner entry and linking its predecessor past it leaves
/// the chain whole.
proof fn lemma_unlink_inner<V>(
    p: Seq<u8>,
    o: Seq<u128>,
    s0: Map<Seq<u8>, IterableMapEntry<V>>,
    s1: Map<Seq<u8>, IterableMapEntry<V>>,
    s2: Map<Seq<u8>, IterableMapEntry<V>>,
    h: u128,
    j: int,
)
    requires
        0 < j < o.len(),
        o[j] == h,
        chain_holds(p, Some(o[0]), o, s0),
        s1 == s0.remove(key_of(p, h)),
        s2 == s1.insert(key_of(p, o[j - 1]), IterableMapEntry {
            value: s1[key_of(p, o[j - 1])].value,
            previous: s0[key_of(p, h)].previous,
        }),
    ensures
        chain_holds(p, Some(o[0]), o.remove(j), s2),
        forall|i: int| 0 <= i < o.remove(j).len() ==> #[trigger] s2[key_of(p, o.remove(j)[i])].value
            == s0[key_of(p, o.remove(j)[i])].value,
{
    let o2 = o.remove(j);
    assert(s0.contains_key(key_of(p, o[j])));
    assert forall|a: int, b: int| 0 <= a < o2.len() && 0 <= b < o2.len() && a != b implies o2[a] != o2[b] by {
        let oa = if a < j { a } else { a + 1 };
        let ob = if b < j { b } else { b + 1 };
        assert(o2[a] == o[oa] && o2[b] == o[ob]);
    }
    assert forall|i: int| 0 <= i < o2.len() implies #[trigger] s2.contains_key(key_of(p, o2[i]))
        && s2[key_of(p, o2[i])].previous == (if i + 1 < o2.len() { Some(o2[i + 1]) } else { None })
        && s2[key_of(p, o2[i])].value == s0[key_of(p, o2[i])].value by {
        let oi = if i < j { i } else { i + 1 };
        assert(o2[i] == o[oi]);
        assert(s0.contains_key(key_of(p, o[oi])));
        assert(o[oi] != o[j]);
        lemma_key_of_injective(p, o[oi], h);
        if oi != j - 1 {
            assert(o[oi] != o[j - 1]);
            lemma_key_of_injective(p, o[oi], o[j - 1]);
            if i + 1 < o2.len() {
                let on = if i + 1 < j { i + 1 } else { i + 2 };
                assert(o2[i + 1] == o[on]);
            }
        } else {
            if j + 1 < o.len() {
                assert(o2[i + 1] == o[j + 1]);
            }
        }
    }
    assert(o2[0] == o[0]);
}

/// Purging an entry that is not linked into the map leaves the chain whole.
proof fn lemma_purge_stray<V>(
    p: Seq<u8>,
    o: Seq<u128>,
    head: Option<u128>,
    s0: Map<Seq<u8>, IterableMapEntry<V>>,
    s1: Map<Seq<u8>, IterableMapEntry<V>>,
    h: u128,
)
    requires
        !o.contains(h),
        chain_holds(p, head, o, s0),
        s1 == s0.remove(key_of(p, h)),
    ensures
        chain_holds(p, head, o, s1),
{
    assert forall|i: int| 0 <= i < o.len() implies #[trigger] s1.contains_key(key_of(p, o[i]))
        && s1[key_of(p, o[i])].previous == (if i + 1 < o.len() { Some(o[i + 1]) } else { None }) by {
        assert(s0.contains_key(key_of(p, o[i])));
        assert(o[i] != h);
        lemma_key_of_injective(p, o[i], h);
    }
}

/// Iterator over the entries of an [`IterableMap`], following the links from
/// the most recently inserted entry back to the first.
pub struct IterableMapIter<'a, K, V> {
    pub prefix: &'a str,
    pub current: Option<IterableMapKeyRepr>,
    pub marker: PhantomData<(K, V)>,
}

impl<'a, K, V> IterableMapIter<'a, K, V> {
    /// The next hashed key and value, if the current entry is stored.
    pub fn next(&mut self, store: &ContextStore<V>) -> (r: Option<(IterableMapKeyRepr, V)>)
        where V: Clone,
        requires
            store.wf(),
        ensures
            final(self).prefix == old(self).prefix,
            match old(self).current {
                None => r is None && final(self).current is None,
                Some(c) => {
                    let kb = key_of(old(self).prefix.spec_bytes(), c);
                    if store@.contains_key(kb) {
                        &&& r matches Some(item) && item.0 == c && cloned(store@[kb].value, item.1)
                        &&& final(self).current == store@[kb].previous
                    } else {
                        r is None && final(self).current == old(self).current
                    }
                },
            },
    {
        let current_hash = match self.current {
            Some(c) => c,
            None => return None,
        };
        let key_bytes = context_key(self.prefix, current_hash);
        match store.read(key_bytes.as_slice()) {
            Some(entry) => {
                self.current = entry.previous;
                Some((current_hash, entry.value.clone()))
            },
            None => None,
        }
    }
}

impl<K: IterableMapKey, V> IterableMap<K, V> {
    /// The bytes of the map's prefix.
    pub open spec fn prefix_bytes(&self) -> Seq<u8> {
        vstd::utf8::encode_utf8(self.prefix@)
    }

    /// The storage key of the entry of a key.
    pub open spec fn storage_key(&self, hash: IterableMapKeyRepr) -> Seq<u8> {
        key_of(self.prefix_bytes(), hash)
    }

    /// The map's links, from its head, are whole in the storage.
    pub open spec fn linked(&self, store: Map<Seq<u8>, IterableMapEntry<V>>) -> bool {
        chain_holds(self.prefix_bytes(), self.head_key_hash, self.order@, store)
    }

    /// The map's hashed keys and values, most recently inserted first.
    pub open spec fn contents(&self, store: Map<Seq<u8>, IterableMapEntry<V>>) -> Seq<(IterableMapKeyRepr, V)> {
        self.order@.map_values(|h: IterableMapKeyRepr| (h, store[self.storage_key(h)].value))
    }

    /// Creates an empty map with the given prefix.
    pub fn new(prefix: String) -> (r: Self)
        ensures
            r.prefix@ == prefix@,
            r.head_key_hash is None,
            r.order@ == Seq::<IterableMapKeyRepr>::empty(),
            forall|store: Map<Seq<u8>, IterableMapEntry<V>>| r.linked(store),
    {
        IterableMap { prefix, head_key_hash: None, order: Ghost(Seq::empty()), marker: PhantomData }
    }

    /// The storage key of the entry of a key.
    pub fn create_prefix_from_key(&self, key: &K) -> (r: Vec<u8>)
        ensures
            r@ == self.storage_key(key.key_hash()),
    {
        let hash = key.to_key_prefix();
        self.create_prefix_from_hash(hash)
    }

    /// The storage key of the entry with a hashed key.
    pub fn create_prefix_from_hash(&self, hash: IterableMapKeyRepr) -> (r: Vec<u8>)
        ensures
            r@ == self.storage_key(hash),
    {
        context_key(self.prefix.as_str(), hash)
    }

    /// The value stored for a key, if any.
    pub fn get(&self, store: &ContextStore<V>, key: &K) -> (r: Option<V>)
        where V: Clone,
        requires
            store.wf(),
        ensures
            ({
                let kb = self.storage_key(key.key_hash());
                if store@.contains_key(kb) {
                    r matches Some(v) && cloned(store@[kb].value, v)
                } else {
                    r is None
                }
            }),
    {
        let context_key = self.create_prefix_from_key(key);
        match store.read(context_key.as_slice()) {
            Some(entry) => Some(entry.value.clone()),
            None => None,
        }
    }

    /// Removes a key from the map and returns its value, joining the entries
    /// on either side of it. Takes time linear in the map's size.
    ///
    /// An entry that is stored under the key but is not linked into the map
    /// is purged, and `None` returned.
    pub fn remove(&mut self, store: &mut ContextStore<V>, key: &K) -> (r: Option<V>)
        requires
            old(store).wf(),
            old(self).linked(old(store)@),
        ensures
            final(store).wf(),
            final(self).prefix == old(self).prefix,
            final(self).linked(final(store)@),
            !final(store)@.contains_key(old(self).storage_key(key.key_hash())),
            !old(store)@.contains_key(old(self).storage_key(key.key_hash())) ==> {
                &&& r is None
                &&& final(store)@ == old(store)@
                &&& final(self).order@ == old(self).order@
            },
            old(store)@.contains_key(old(self).storage_key(key.key_hash())) && !old(self).order@.contains(key.key_hash()) ==> {
                &&& r is None
                &&& final(store)@ == old(store)@.remove(old(self).storage_key(key.key_hash()))
                &&& final(self).order@ == old(self).order@
            },
            old(self).order@.contains(key.key_hash()) ==> r == Some(old(store)@[old(self).storage_key(key.key_hash())].value),
            forall|j: int| 0 <= j < old(self).order@.len() && old(self).order@[j] == key.key_hash() ==> {
                &&& final(self).order@ == old(self).order@.remove(j)
                &&& final(self).contents(final(store)@) == old(self).contents(old(store)@).remove(j)
            },
    {
        let to_remove_hash = key.to_key_prefix();
        let to_remove_key = self.create_prefix_from_hash(to_remove_hash);
        let ghost o = self.order@;
        let ghost p = self.prefix_bytes();
        let ghost s0 = store@;
        let to_remove_entry = match store.take(to_remove_key.as_slice()) {
            Some(e) => e,
            None => {
                assert(store@ =~= s0);
                return None;
            },
        };
        let ghost s1 = store@;
        proof {
            assert forall|i: int| 0 <= i < o.len() && o[i] != to_remove_hash implies #[trigger] s1.contains_key(key_of(p, o[i]))
                && s1[key_of(p, o[i])] == s0[key_of(p, o[i])] by {
                assert(s0.contains_key(key_of(p, o[i])));
                lemma_key_of_injective(p, o[i], to_remove_hash);
            }
        }
        if self.head_key_hash == Some(to_remove_hash) {
            self.head_key_hash = to_remove_entry.previous;
            self.order = Ghost(o.remove(0));
            proof {
                lemma_unlink_head(p, o, s0, s1, to_remove_hash);
                assert(o.remove(0) =~= o.drop_first());
                assert forall|j: int| 0 <= j < o.len() && o[j] == to_remove_hash implies j == 0 by {
                    if j != 0 { assert(o[0] == o[j]); }
                }
                assert(self.contents(store@) =~= old(self).contents(s0).remove(0)) by {
                    assert forall|i: int| 0 <= i < o.len() - 1 implies self.contents(store@)[i]
                        == old(self).contents(s0).remove(0)[i] by {
                        assert(o[i + 1] != to_remove_hash);
                    }
                }
            }
            return Some(to_remove_entry.value);
        }
        let mut current_hash = self.head_key_hash;
        let ghost mut idx: int = 0;
        loop
            invariant
                store.wf(),
                store@ == s1,
                self.order@ == o,
                old(self).order@ == o,
                s0 == old(store)@,
                to_remove_hash == key.key_hash(),
                self.prefix_bytes() == p,
                old(self).prefix_bytes() == p,
                old(self).prefix == self.prefix,
                self.head_key_hash == old(self).head_key_hash,
                chain_holds(p, self.head_key_hash, o, s0),
                s1 == s0.remove(key_of(p, to_remove_hash)),
                forall|i: int| 0 <= i < o.len() && o[i] != to_remove_hash ==> #[trigger] s1.contains_key(key_of(p, o[i]))
                    && s1[key_of(p, o[i])] == s0[key_of(p, o[i])],
                to_remove_entry == s0[key_of(p, to_remove_hash)],
                s0.contains_key(key_of(p, to_remove_hash)),
                0 <= idx <= o.len(),
                idx < o.len() ==> current_hash == Some(o[idx]),
                idx == o.len() ==> current_hash is None,
                forall|t: int| 0 <= t <= idx && t < o.len() ==> o[t] != to_remove_hash,
                o.len() > 0 ==> idx < o.len(),
            ensures
                forall|t: int| 0 <= t < o.len() ==> o[t] != to_remove_hash,
            decreases o.len() - idx,
        {
            let key_hash = match current_hash {
                Some(k) => k,
                None => break,
            };
            let current_key = self.create_prefix_from_hash(key_hash);
            let next_hash = match store.read(current_key.as_slice()) {
                Some(current_entry) => current_entry.previous,
                None => break,
            };
            let next_hash = match next_hash {
                Some(n) => n,
                None => {
                    proof {
                        assert(s0.contains_key(key_of(p, o[idx])));
                    }
                    break;
                },
            };
            proof {
                assert(s0.contains_key(key_of(p, o[idx])));
                assert(idx + 1 < o.len());
            }
            if next_hash == to_remove_hash {
                let ghost s_before_link = store@;
                store.set_previous(current_key.as_slice(), to_remove_entry.previous);
                proof {
                    lemma_key_of_injective(p, o[idx], to_remove_hash);
                    assert(!s_before_link.contains_key(key_of(p, to_remove_hash)));
                    assert(!store@.contains_key(key_of(p, to_remove_hash)));
                }
                let ghost j = idx + 1;
                self.order = Ghost(o.remove(j));
                proof {
                    assert(s0[key_of(p, o[idx])].previous == Some(o[idx + 1]));
                    assert(o[j] == to_remove_hash);
                    assert(o.contains(to_remove_hash));
                    lemma_unlink_inner(p, o, s0, s1, store@, to_remove_hash, j);
                    assert forall|jj: int| 0 <= jj < o.len() && o[jj] == to_remove_hash implies jj == j by {
                        if jj != j { assert(o.no_duplicates()); }
                    }
                    assert(self.contents(store@) =~= old(self).contents(s0).remove(j)) by {
                        assert forall|i: int| 0 <= i < o.len() - 1 implies self.contents(store@)[i]
                            == old(self).contents(s0).remove(j)[i] by {
                            let oi = if i < j { i } else { i + 1 };
                            assert(o.remove(j)[i] == o[oi]);
                            assert(store@[key_of(p, o.remove(j)[i])].value == s0[key_of(p, o.remove(j)[i])].value);
                            assert(self.order@[i] == o[oi]);
                            assert(self.contents(store@)[i] == (o[oi], store@[key_of(p, o[oi])].value));
                            assert(old(self).contents(s0).remove(j)[i] == old(self).contents(s0)[oi]);
                            assert(old(self).contents(s0)[oi] == (o[oi], s0[key_of(p, o[oi])].value));
                        }
                    }
                }
                return Some(to_remove_entry.value);
            }
            current_hash = Some(next_hash);
            proof {
                idx = idx + 1;
            }
        }
        proof {
            assert(!o.contains(to_remove_hash));
            lemma_purge_stray(p, o, self.head_key_hash, s0, s1, to_remove_hash);
        }
        None
    }

    /// An iterator over the map's entries, most recently inserted first.
    pub fn iter(&self) -> (r: IterableMapIter<'_, K, V>)
        ensures
            r.prefix@ == self.prefix@,
            r.current == self.head_key_hash,
    {
        IterableMapIter { prefix: self.prefix.as_str(), current: self.head_key_hash, marker: PhantomData }
    }

    /// The map's hashed keys and values, most recently inserted first.
    pub fn entries(&self, store: &ContextStore<V>) -> (r: Vec<(IterableMapKeyRepr, V)>)
        where V: Clone,
        requires
            store.wf(),
            self.linked(store@),
        ensures
            r.len() == self.order@.len(),
            forall|i: int| 0 <= i < r.len() ==> (#[trigger] r@[i]).0 == self.order@[i]
                && cloned(store@[self.storage_key(self.order@[i])].value, r@[i].1),
    {
        let mut it = self.iter();
        let mut out: Vec<(IterableMapKeyRepr, V)> = Vec::new();
        let ghost o = self.order@;
        loop
            invariant
                store.wf(),
                self.linked(store@),
                o == self.order@,
                it.prefix@ == self.prefix@,
                out.len() <= o.len(),
                out.len() < o.len() ==> it.current == Some(o[out.len() as int]),
                out.len() == o.len() ==> it.current is None,
                forall|i: int| 0 <= i < out.len() ==> (#[trigger] out@[i]).0 == o[i]
                    && cloned(store@[self.storage_key(o[i])].value, out@[i].1),
            ensures
                out.len() == o.len(),
                forall|i: int| 0 <= i < out.len() ==> (#[trigger] out@[i]).0 == o[i]
                    && cloned(store@[self.storage_key(o[i])].value, out@[i].1),
            decreases o.len() - out.len(),
        {
            let ghost before = out@;
            match it.next(store) {
                Some(item) => {
                    proof {
                        assert(store@.contains_key(key_of(self.prefix_bytes(), o[before.len() as int])));
                    }
                    out.push(item);
                },
                None => {
                    proof {
                        if out.len() < o.len() {
                            assert(store@.contains_key(key_of(self.prefix_bytes(), o[out.len() as int])));
                        }
                    }
                    break;
                },
            }
        }
        out
    }

    /// Inserts a key-value pair. When the key is present, its value is
    /// replaced and the old value returned, and its place in the order is
    /// kept; otherwise the entry becomes the new head.
    #[verifier::rlimit(40)]
    pub fn insert(&mut self, store: &mut ContextStore<V>, key: K, value: V) -> (r: Option<V>)
        requires
            old(store).wf(),
        ensures
            final(store).wf(),
            final(self).prefix == old(self).prefix,
            ({
                let kb = old(self).storage_key(key.key_hash());
                if old(store)@.contains_key(kb) {
                    &&& r == Some(old(store)@[kb].value)
                    &&& final(store)@ == old(store)@.insert(kb, IterableMapEntry { value, previous: old(store)@[kb].previous })
                    &&& final(self).head_key_hash == old(self).head_key_hash
                    &&& final(self).order@ == old(self).order@
                } else {
                    &&& r is None
                    &&& final(store)@ == old(store)@.insert(kb, IterableMapEntry { value, previous: old(self).head_key_hash })
                    &&& final(self).head_key_hash == Some(key.key_hash())
                    &&& final(self).order@ == seq![key.key_hash()] + old(self).order@
                }
            }),
            old(self).linked(old(store)@) ==> final(self).linked(final(store)@),
            old(self).linked(old(store)@) && !old(store)@.contains_key(old(self).storage_key(key.key_hash()))
                ==> final(self).contents(final(store)@)
                    == seq![(key.key_hash(), value)] + old(self).contents(old(store)@),
            forall|j: int| old(self).linked(old(store)@) && 0 <= j < old(self).order@.len()
                && old(self).order@[j] == key.key_hash()
                ==> final(self).contents(final(store)@) == old(self).contents(old(store)@).update(j, (key.key_hash(), value)),
    {
        let hash = key.to_key_prefix();
        let context_key = self.create_prefix_from_hash(hash);
        let ghost pre_order = self.order@;
        match store.replace_value(context_key.as_slice(), value) {
            Ok(old_value) => {
                proof {
                    if old(self).linked(old(store)@) {
                        assert forall|i: int| 0 <= i < pre_order.len() implies #[trigger] store@.contains_key(key_of(self.prefix_bytes(), pre_order[i]))
                            && store@[key_of(self.prefix_bytes(), pre_order[i])].previous
                                == (if i + 1 < pre_order.len() { Some(pre_order[i + 1]) } else { None }) by {
                            assert(old(store)@.contains_key(key_of(self.prefix_bytes(), pre_order[i])));
                        }
                        assert(self.linked(store@));
                        assert forall|j: int| 0 <= j < pre_order.len() && pre_order[j] == hash
                            implies self.contents(store@) == old(self).contents(old(store)@).update(j, (hash, value)) by {
                            assert forall|i: int| 0 <= i < pre_order.len() implies self.contents(store@)[i]
                                == old(self).contents(old(store)@).update(j, (hash, value))[i] by {
                                if i != j {
                                    assert(pre_order[i] != pre_order[j]);
                                    lemma_key_of_injective(self.prefix_bytes(), pre_order[i], hash);
                                }
                            }
                            assert(self.contents(store@) =~= old(self).contents(old(store)@).update(j, (hash, value)));
                        }
                    }
                }
                Some(old_value)
            },
            Err(value) => {
                let entry = IterableMapEntry { value, previous: self.head_key_hash };
                store.write(context_key, entry);
                self.head_key_hash = Some(hash);
                self.order = Ghost(seq![hash] + pre_order);
                proof {
                    if old(self).linked(old(store)@) {
                        let o = self.order@;
                        let p = self.prefix_bytes();
                        assert forall|i: int, j: int| 0 <= i < o.len() && 0 <= j < o.len() && i != j implies o[i] != o[j] by {
                            if i == 0 || j == 0 {
                                let k = if i == 0 { j } else { i };
                                assert(o[k] == pre_order[k - 1]);
                                assert(old(store)@.contains_key(key_of(p, pre_order[k - 1])));
                            } else {
                                assert(o[i] == pre_order[i - 1] && o[j] == pre_order[j - 1]);
                            }
                        }
                        assert forall|i: int| 0 <= i < o.len() implies #[trigger] store@.contains_key(key_of(p, o[i]))
                            && store@[key_of(p, o[i])].previous == (if i + 1 < o.len() { Some(o[i + 1]) } else { None }) by {
                            if i > 0 {
                                assert(o[i] == pre_order[i - 1]);
                                assert(old(store)@.contains_key(key_of(p, pre_order[i - 1])));
                                lemma_key_of_injective(p, hash, o[i]);
                            }
                        }
                        assert forall|i: int| 0 <= i < o.len() implies self.contents(store@)[i]
                            == (seq![(hash, value)] + old(self).contents(old(store)@))[i] by {
                            if i > 0 {
                                assert(o[i] == pre_order[i - 1]);
                                assert(old(store)@.contains_key(key_of(p, pre_order[i - 1])));
                                lemma_key_of_injective(p, hash, o[i]);
                            }
                        }
                        assert(self.contents(store@) =~= seq![(hash, value)] + old(self).contents(old(store)@));
                    }
                }
                None
            },
        }
    }
}

} // verus!
