//! The vertices of the Highway consensus protocol: units, evidence of
//! equivocation and endorsements, with the validator set they are checked
//! against.
//!
//! Hashes, signatures and instance ids are `u64`, validator ids `u32` and
//! consensus values `u32`. A unit's hash is the 64-bit FNV-1a hash of its
//! fields written as little-endian `u64` words; a signature is the signed
//! hash plus the signer's secret, wrapping.

use vstd::prelude::*;

use crate::iterable_map::{pow256, u64_le_bytes};

verus! {

/// A consensus value: the payload of a proposal.
pub type ConsensusValue = u32;

/// The index of a validator in the validator set.
#[derive(Copy, Clone, Debug, PartialEq, Eq, Structural, Hash, PartialOrd, Ord)]
pub struct ValidatorIndex(pub u32);

/// The FNV-1a offset basis for 64-bit hashes.
pub const FNV_OFFSET_BASIS_64: u64 = 0xcbf29ce484222325;

/// The FNV-1a prime for 64-bit hashes.
pub const FNV_PRIME_64: u64 = 0x00000100000001B3;

/// The 64-bit FNV-1a hash of a byte sequence.
pub open spec fn fnv1a_64(bytes: Seq<u8>) -> u64
    decreases bytes.len(),
{
    if bytes.len() == 0 {
        FNV_OFFSET_BASIS_64
    } else {
        let h = fnv1a_64(bytes.drop_last()) ^ (bytes.last() as u64);
        ((h * FNV_PRIME_64) % (u64::MAX + 1)) as u64
    }
}

/// Hashes a byte slice with 64-bit FNV-1a, over the whole slice.
///
/// Calls `const_fnv1a_hash::fnv1a_hash_64` without a limit; its source folds
/// every byte into the offset basis with xor and a wrapping multiplication by
/// the prime, which is what `fnv1a_64` states.
#[verifier::external_body]
fn fnv1a_hash_64(bytes: &[u8]) -> (r: u64)
    ensures
        r == fnv1a_64(bytes@),
{
    const_fnv1a_hash::fnv1a_hash_64(bytes, None)
}

/// The bytes of a sequence of words, each little-endian.
pub open spec fn words_bytes(ws: Seq<u64>) -> Seq<u8>
    decreases ws.len(),
{
    if ws.len() == 0 {
        Seq::empty()
    } else {
        words_bytes(ws.drop_last()) + u64_le_bytes(ws.last())
    }
}

/// The hash of a sequence of words.
pub open spec fn words_hash(ws: Seq<u64>) -> u64 {
    fnv1a_64(words_bytes(ws))
}

proof fn lemma_pow256_positive(i: int)
    ensures
        pow256(i) > 0,
    decreases i,
{
    if i > 0 {
        lemma_pow256_positive(i - 1);
    }
}

/// Hashes a sequence of words.
pub fn hash_words(ws: &Vec<u64>) -> (r: u64)
    ensures
        r == words_hash(ws@),
{
    let mut out: Vec<u8> = Vec::new();
    let mut i: usize = 0;
    while i < ws.len()
        invariant
            i <= ws.len(),
            out@ == words_bytes(ws@.take(i as int)),
        decreases ws.len() - i,
    {
        let ghost base = out@;
        let w = ws[i];
        let mut x: u64 = w;
        let mut j: usize = 0;
        while j < 8
            invariant
                j <= 8,
                out@ == base + u64_le_bytes(w).take(j as int),
                x == w as int / pow256(j as int),
            decreases 8 - j,
        {
            proof {
                lemma_pow256_positive(j as int);
                vstd::arithmetic::div_mod::lemma_div_denominator(w as int, pow256(j as int), 256);
            }
            out.push((x % 256) as u8);
            x = x / 256;
            j += 1;
            assert(out@ =~= base + u64_le_bytes(w).take(j as int));
        }
        assert(u64_le_bytes(w).take(8) =~= u64_le_bytes(w));
        assert(ws@.take(i as int + 1).drop_last() =~= ws@.take(i as int));
        i += 1;
    }
    assert(ws@.take(ws.len() as int) =~= ws@);
    fnv1a_hash_64(out.as_slice())
}

/// A secret with which a validator signs: the validator's id.
#[derive(Copy, Clone, Debug, PartialEq, Eq, Structural)]
pub struct TestSecret(pub u32);

/// The signature of `hash` by the holder of `secret`.
pub open spec fn signature_of(hash: u64, secret: u32) -> u64 {
    hash.wrapping_add(secret as u64)
}

impl TestSecret {
    /// Signs a hash.
    pub fn sign(&self, hash: u64) -> (r: u64)
        ensures
            r == signature_of(hash, self.0),
    {
        hash.wrapping_add(self.0 as u64)
    }
}

/// Whether `signature` is the signature of `hash` by validator `vid`.
pub fn verify_signature(hash: u64, vid: u32, signature: u64) -> (r: bool)
    ensures
        r == (signature == signature_of(hash, vid)),
{
    hash.wrapping_add(vid as u64) == signature
}

/// A validator: its id, its weight and whether it is banned.
#[derive(Copy, Clone, Debug, PartialEq, Eq, Structural)]
pub struct Validator {
    pub id: u32,
    pub weight: u64,
    pub banned: bool,
}

impl Validator {
    /// The validator's weight.
    pub fn weight(&self) -> (r: u64)
        ensures
            r == self.weight,
    {
        self.weight
    }

    /// The validator's id.
    pub fn id(&self) -> (r: u32)
        ensures
            r == self.id,
    {
        self.id
    }
}

/// Whether `idx` is the index of a banned validator.
pub open spec fn is_banned_index(vs: Seq<Validator>, idx: ValidatorIndex) -> bool {
    (idx.0 as int) < vs.len() && vs[idx.0 as int].banned
}

/// The validators of a protocol instance, in index order.
#[derive(Clone, Debug)]
pub struct Validators {
    pub validators: Vec<Validator>,
}

impl Validators {
    /// Validators with the given ids and weights, none banned, indexed in the
    /// order given.
    pub fn from_pairs(pairs: Vec<(u32, u64)>) -> (r: Validators)
        ensures
            r.validators@.len() == pairs@.len(),
            forall|i: int| 0 <= i < pairs@.len() ==> (#[trigger] r.validators@[i]) == (Validator {
                id: pairs@[i].0,
                weight: pairs@[i].1,
                banned: false,
            }),
    {
        let mut validators: Vec<Validator> = Vec::new();
        let mut i: usize = 0;
        while i < pairs.len()
            invariant
                i <= pairs.len(),
                validators@.len() == i,
                forall|k: int| 0 <= k < i ==> (#[trigger] validators@[k]) == (Validator {
                    id: pairs@[k].0,
                    weight: pairs@[k].1,
                    banned: false,
                }),
            decreases pairs.len() - i,
        {
            let (id, weight) = pairs[i];
            validators.push(Validator { id, weight, banned: false });
            i += 1;
        }
        Validators { validators }
    }

    /// The number of validators.
    pub fn len(&self) -> (r: usize)
        ensures
            r == self.validators@.len(),
    {
        self.validators.len()
    }

    /// The index of the first validator with the given id.
    pub fn get_index(&self, id: u32) -> (r: Option<ValidatorIndex>)
        requires
            self.validators@.len() <= u32::MAX,
        ensures
            match r {
                Some(idx) => idx.0 < self.validators@.len() && self.validators@[idx.0 as int].id == id
                    && forall|k: int| 0 <= k < idx.0 ==> (#[trigger] self.validators@[k]).id != id,
                None => forall|k: int| 0 <= k < self.validators@.len() ==> (#[trigger] self.validators@[k]).id != id,
            },
    {
        let mut i: usize = 0;
        while i < self.validators.len()
            invariant
                i <= self.validators@.len(),
                self.validators@.len() <= u32::MAX,
                forall|k: int| 0 <= k < i ==> (#[trigger] self.validators@[k]).id != id,
            decreases self.validators.len() - i,
        {
            if self.validators[i].id == id {
                return Some(ValidatorIndex(i as u32));
            }
            i += 1;
        }
        None
    }

    /// The id of the validator with the given index.
    pub fn id(&self, idx: ValidatorIndex) -> (r: Option<u32>)
        ensures
            r == (if (idx.0 as int) < self.validators@.len() {
                Some(self.validators@[idx.0 as int].id)
            } else {
                None::<u32>
            }),
    {
        let i = idx.0 as usize;
        if i < self.validators.len() {
            Some(self.validators[i].id)
        } else {
            None
        }
    }

    /// The validators' weights, in index order.
    pub fn weights(&self) -> (r: Vec<u64>)
        ensures
            r@.len() == self.validators@.len(),
            forall|i: int| 0 <= i < r@.len() ==> r@[i] == (#[trigger] self.validators@[i]).weight,
    {
        let mut r: Vec<u64> = Vec::new();
        let mut i: usize = 0;
        while i < self.validators.len()
            invariant
                i <= self.validators@.len(),
                r@.len() == i,
                forall|k: int| 0 <= k < i ==> r@[k] == (#[trigger] self.validators@[k]).weight,
            decreases self.validators.len() - i,
        {
            r.push(self.validators[i].weight);
            i += 1;
        }
        r
    }

    /// The indices of the banned validators, in increasing order.
    pub fn banned_indices(&self) -> (r: Vec<ValidatorIndex>)
        requires
            self.validators@.len() <= u32::MAX,
        ensures
            forall|i: int| 0 <= i < r@.len() ==> #[trigger] is_banned_index(self.validators@, r@[i]),
            forall|k: int| 0 <= k < self.validators@.len() && (#[trigger] self.validators@[k]).banned
                ==> r@.contains(ValidatorIndex(k as u32)),
    {
        let mut r: Vec<ValidatorIndex> = Vec::new();
        let mut i: usize = 0;
        while i < self.validators.len()
            invariant
                i <= self.validators@.len(),
                self.validators@.len() <= u32::MAX,
                forall|j: int| 0 <= j < r@.len() ==> #[trigger] is_banned_index(self.validators@, r@[j]),
                forall|k: int| 0 <= k < i && (#[trigger] self.validators@[k]).banned
                    ==> r@.contains(ValidatorIndex(k as u32)),
            decreases self.validators.len() - i,
        {
            if self.validators[i].banned {
                let ghost old_r = r@;
                r.push(ValidatorIndex(i as u32));
                assert(is_banned_index(self.validators@, ValidatorIndex(i as u32)));
                assert forall|j: int| 0 <= j < r@.len() implies #[trigger] is_banned_index(self.validators@, r@[j]) by {
                    if j < old_r.len() {
                        assert(r@[j] == old_r[j]);
                    }
                }
                assert forall|k: int| 0 <= k < i + 1 && (#[trigger] self.validators@[k]).banned
                    implies r@.contains(ValidatorIndex(k as u32)) by {
                    if k < i {
                        let j = choose|j: int| 0 <= j < old_r.len() && old_r[j] == ValidatorIndex(k as u32);
                        assert(r@[j] == old_r[j]);
                    } else {
                        assert(r@[r@.len() - 1] == ValidatorIndex(k as u32));
                    }
                }
            }
            i += 1;
        }
        r
    }

    /// Marks the validator with the given id as banned, if there is one.
    pub fn ban(&mut self, id: u32)
        ensures
            final(self).validators@.len() == old(self).validators@.len(),
            forall|k: int| 0 <= k < old(self).validators@.len() ==> (#[trigger] final(self).validators@[k]) == (
                Validator {
                    banned: old(self).validators@[k].banned || old(self).validators@[k].id == id,
                    ..old(self).validators@[k]
                }),
    {
        let mut i: usize = 0;
        while i < self.validators.len()
            invariant
                i <= self.validators@.len(),
                self.validators@.len() == old(self).validators@.len(),
                forall|k: int| 0 <= k < i ==> (#[trigger] self.validators@[k]) == (Validator {
                    banned: old(self).validators@[k].banned || old(self).validators@[k].id == id,
                    ..old(self).validators@[k]
                }),
                forall|k: int| i <= k < self.validators@.len() ==> (#[trigger] self.validators@[k]) == old(
                    self,
                ).validators@[k],
            decreases self.validators.len() - i,
        {
            if self.validators[i].id == id {
                let v = self.validators[i];
                self.validators.set(i, Validator { banned: true, ..v });
            }
            i += 1;
        }
    }
}

/// What a unit's creator saw of a validator's latest unit.
#[derive(Copy, Clone, Debug, PartialEq, Eq, Structural)]
pub enum Observation {
    /// No unit by that validator was observed.
    Unseen,
    /// The validator's latest unit, with the given hash.
    Correct(u64),
    /// The validator was observed to be faulty.
    Faulty,
}

impl Observation {
    /// Whether the validator was observed to be faulty.
    pub fn is_faulty(&self) -> (r: bool)
        ensures
            r == (*self is Faulty),
    {
        matches!(self, Observation::Faulty)
    }
}

/// One observation per validator, in index order.
#[derive(Clone, Debug, PartialEq, Eq)]
pub struct Panorama {
    pub observations: Vec<Observation>,
}

impl View for Panorama {
    type V = Seq<Observation>;

    open spec fn view(&self) -> Seq<Observation> {
        self.observations@
    }
}

impl Panorama {
    /// A panorama of `n` validators that observes nothing.
    pub fn new(n: usize) -> (r: Panorama)
        ensures
            r@ == Seq::new(n as nat, |i: int| Observation::Unseen),
    {
        let mut observations: Vec<Observation> = Vec::new();
        let mut i: usize = 0;
        while i < n
            invariant
                i <= n,
                observations@ == Seq::new(i as nat, |k: int| Observation::Unseen),
            decreases n - i,
        {
            observations.push(Observation::Unseen);
            i += 1;
            assert(observations@ =~= Seq::new(i as nat, |k: int| Observation::Unseen));
        }
        Panorama { observations }
    }

    /// The number of validators.
    pub fn len(&self) -> (r: usize)
        ensures
            r == self@.len(),
    {
        self.observations.len()
    }

    /// The observation of a validator.
    pub fn get(&self, idx: ValidatorIndex) -> (r: Observation)
        requires
            (idx.0 as int) < self@.len(),
        ensures
            r == self@[idx.0 as int],
    {
        self.observations[idx.0 as usize]
    }

    /// Copies the panorama.
    pub fn copy(&self) -> (r: Panorama)
        ensures
            r@ == self@,
    {
        let mut observations: Vec<Observation> = Vec::new();
        let mut i: usize = 0;
        while i < self.observations.len()
            invariant
                i <= self@.len(),
                observations@ == self@.take(i as int),
            decreases self@.len() - i,
        {
            observations.push(self.observations[i]);
            i += 1;
            assert(observations@ =~= self@.take(i as int));
        }
        assert(self@.take(self@.len() as int) =~= self@);
        Panorama { observations }
    }
}

/// The contents of a unit, as its creator sends it.
#[derive(Clone, Debug, PartialEq, Eq)]
pub struct WireUnit {
    pub panorama: Panorama,
    pub creator: ValidatorIndex,
    pub instance_id: u64,
    pub value: Option<ConsensusValue>,
    pub seq_number: u64,
    pub timestamp: u64,
    pub round_exp: u8,
    /// The hashes of the units this unit endorses.
    pub endorsed: Vec<u64>,
}

/// A unit's contents as a mathematical value.
pub struct WireUnitView {
    pub panorama: Seq<Observation>,
    pub creator: ValidatorIndex,
    pub instance_id: u64,
    pub value: Option<ConsensusValue>,
    pub seq_number: u64,
    pub timestamp: u64,
    pub round_exp: u8,
    pub endorsed: Seq<u64>,
}

impl View for WireUnit {
    type V = WireUnitView;

    open spec fn view(&self) -> WireUnitView {
        WireUnitView {
            panorama: self.panorama@,
            creator: self.creator,
            instance_id: self.instance_id,
            value: self.value,
            seq_number: self.seq_number,
            timestamp: self.timestamp,
            round_exp: self.round_exp,
            endorsed: self.endorsed@,
        }
    }
}

/// The words of an observation: a tag, then the hash of a correct unit.
pub open spec fn observation_words(o: Observation) -> Seq<u64> {
    match o {
        Observation::Unseen => seq![0u64],
        Observation::Correct(h) => seq![1u64, h],
        Observation::Faulty => seq![2u64],
    }
}

/// The words of a panorama's observations.
pub open spec fn panorama_words(p: Seq<Observation>) -> Seq<u64>
    decreases p.len(),
{
    if p.len() == 0 {
        Seq::empty()
    } else {
        panorama_words(p.drop_last()) + observation_words(p.last())
    }
}

/// The words that a unit's hash is taken over.
pub open spec fn unit_words(w: WireUnitView) -> Seq<u64> {
    seq![w.panorama.len() as u64] + panorama_words(w.panorama) + seq![w.creator.0 as u64, w.instance_id]
        + match w.value {
        None => seq![0u64],
        Some(v) => seq![1u64, v as u64],
    } + seq![w.seq_number, w.timestamp, w.round_exp as u64, w.endorsed.len() as u64] + w.endorsed
}

/// The hash of a unit.
pub open spec fn unit_hash(w: WireUnitView) -> u64 {
    words_hash(unit_words(w))
}

impl WireUnit {
    /// The words the unit's hash is taken over.
    fn words(&self) -> (r: Vec<u64>)
        ensures
            r@ == unit_words(self@),
    {
        let mut r: Vec<u64> = Vec::new();
        r.push(self.panorama.observations.len() as u64);
        let ghost base = r@;
        let obs = &self.panorama.observations;
        let mut i: usize = 0;
        while i < obs.len()
            invariant
                i <= obs@.len(),
                r@ == base + panorama_words(obs@.take(i as int)),
            decreases obs@.len() - i,
        {
            match obs[i] {
                Observation::Unseen => r.push(0),
                Observation::Correct(h) => {
                    r.push(1);
                    r.push(h);
                },
                Observation::Faulty => r.push(2),
            }
            assert(obs@.take(i as int + 1).drop_last() =~= obs@.take(i as int));
            i += 1;
            assert(r@ =~= base + panorama_words(obs@.take(i as int)));
        }
        assert(obs@.take(obs@.len() as int) =~= obs@);
        r.push(self.creator.0 as u64);
        r.push(self.instance_id);
        match self.value {
            None => r.push(0),
            Some(v) => {
                r.push(1);
                r.push(v as u64);
            },
        }
        r.push(self.seq_number);
        r.push(self.timestamp);
        r.push(self.round_exp as u64);
        r.push(self.endorsed.len() as u64);
        let ghost mid = r@;
        let mut j: usize = 0;
        while j < self.endorsed.len()
            invariant
                j <= self.endorsed@.len(),
                r@ == mid + self.endorsed@.take(j as int),
            decreases self.endorsed@.len() - j,
        {
            r.push(self.endorsed[j]);
            j += 1;
            assert(r@ =~= mid + self.endorsed@.take(j as int));
        }
        assert(self.endorsed@.take(self.endorsed@.len() as int) =~= self.endorsed@);
        assert(r@ =~= unit_words(self@));
        r
    }

    /// The unit's hash.
    pub fn hash(&self) -> (r: u64)
        ensures
            r == unit_hash(self@),
    {
        let ws = self.words();
        hash_words(&ws)
    }

    /// Copies the unit.
    pub fn copy(&self) -> (r: WireUnit)
        ensures
            r@ == self@,
    {
        let mut endorsed: Vec<u64> = Vec::new();
        let mut j: usize = 0;
        while j < self.endorsed.len()
            invariant
                j <= self.endorsed@.len(),
                endorsed@ == self.endorsed@.take(j as int),
            decreases self.endorsed@.len() - j,
        {
            endorsed.push(self.endorsed[j]);
            j += 1;
            assert(endorsed@ =~= self.endorsed@.take(j as int));
        }
        assert(self.endorsed@.take(self.endorsed@.len() as int) =~= self.endorsed@);
        WireUnit {
            panorama: self.panorama.copy(),
            creator: self.creator,
            instance_id: self.instance_id,
            value: self.value,
            seq_number: self.seq_number,
            timestamp: self.timestamp,
            round_exp: self.round_exp,
            endorsed,
        }
    }

    /// The unit together with its hash.
    pub fn into_hashed(self) -> (r: HashedWireUnit)
        ensures
            r.wire_unit@ == self@,
            r.hash == unit_hash(self@),
    {
        HashedWireUnit::new(self)
    }
}

/// A unit together with its hash.
#[derive(Clone, Debug, PartialEq, Eq)]
pub struct HashedWireUnit {
    pub hash: u64,
    pub wire_unit: WireUnit,
}

impl HashedWireUnit {
    /// Hashes a unit.
    pub fn new(wire_unit: WireUnit) -> (r: HashedWireUnit)
        ensures
            r.wire_unit@ == wire_unit@,
            r.hash == unit_hash(wire_unit@),
    {
        let hash = wire_unit.hash();
        HashedWireUnit { hash, wire_unit }
    }

    /// The unit's hash.
    pub fn hash(&self) -> (r: u64)
        ensures
            r == self.hash,
    {
        self.hash
    }
}

/// A hashed unit with its creator's signature.
#[derive(Clone, Debug, PartialEq, Eq)]
pub struct SignedWireUnit {
    pub hashed_wire_unit: HashedWireUnit,
    pub signature: u64,
}

/// A signed unit as a mathematical value.
pub struct SignedUnitView {
    pub hash: u64,
    pub unit: WireUnitView,
    pub signature: u64,
}

impl View for SignedWireUnit {
    type V = SignedUnitView;

    open spec fn view(&self) -> SignedUnitView {
        SignedUnitView {
            hash: self.hashed_wire_unit.hash,
            unit: self.hashed_wire_unit.wire_unit@,
            signature: self.signature,
        }
    }
}

impl SignedWireUnit {
    /// Signs a hashed unit with a secret.
    pub fn new(hashed_wire_unit: HashedWireUnit, secret: &TestSecret) -> (r: SignedWireUnit)
        ensures
            r.hashed_wire_unit == hashed_wire_unit,
            r.signature == signature_of(hashed_wire_unit.hash, secret.0),
    {
        let signature = secret.sign(hashed_wire_unit.hash);
        SignedWireUnit { hashed_wire_unit, signature }
    }

    /// The unit's hash.
    pub fn hash(&self) -> (r: u64)
        ensures
            r == self@.hash,
    {
        self.hashed_wire_unit.hash
    }

    /// The unit's contents.
    pub fn wire_unit(&self) -> (r: &WireUnit)
        ensures
            r@ == self@.unit,
    {
        &self.hashed_wire_unit.wire_unit
    }

    /// Copies the signed unit.
    pub fn copy(&self) -> (r: SignedWireUnit)
        ensures
            r@ == self@,
    {
        SignedWireUnit {
            hashed_wire_unit: HashedWireUnit {
                hash: self.hashed_wire_unit.hash,
                wire_unit: self.hashed_wire_unit.wire_unit.copy(),
            },
            signature: self.signature,
        }
    }
}

/// Whether two sequences of hashes are equal.
fn hashes_equal(a: &Vec<u64>, b: &Vec<u64>) -> (r: bool)
    ensures
        r == (a@ == b@),
{
    if a.len() != b.len() {
        return false;
    }
    let mut i: usize = 0;
    while i < a.len()
        invariant
            a@.len() == b@.len(),
            i <= a@.len(),
            forall|k: int| 0 <= k < i ==> a@[k] == b@[k],
        decreases a@.len() - i,
    {
        if a[i] != b[i] {
            return false;
        }
        i += 1;
    }
    assert(a@ =~= b@);
    true
}

/// Whether two panoramas are equal.
fn panoramas_equal(a: &Panorama, b: &Panorama) -> (r: bool)
    ensures
        r == (a@ == b@),
{
    if a.observations.len() != b.observations.len() {
        return false;
    }
    let mut i: usize = 0;
    while i < a.observations.len()
        invariant
            a@.len() == b@.len(),
            i <= a@.len(),
            forall|k: int| 0 <= k < i ==> a@[k] == b@[k],
        decreases a@.len() - i,
    {
        if a.observations[i] != b.observations[i] {
            return false;
        }
        i += 1;
    }
    assert(a@ =~= b@);
    true
}

/// Whether two signed units are the same unit.
pub fn same_signed_unit(a: &SignedWireUnit, b: &SignedWireUnit) -> (r: bool)
    ensures
        r == (a@ == b@),
{
    let wa = &a.hashed_wire_unit.wire_unit;
    let wb = &b.hashed_wire_unit.wire_unit;
    let r = a.hashed_wire_unit.hash == b.hashed_wire_unit.hash && a.signature == b.signature
        && wa.creator == wb.creator && wa.instance_id == wb.instance_id && wa.value == wb.value
        && wa.seq_number == wb.seq_number && wa.timestamp == wb.timestamp && wa.round_exp == wb.round_exp
        && panoramas_equal(&wa.panorama, &wb.panorama) && hashes_equal(&wa.endorsed, &wb.endorsed);
    proof {
        if r {
            assert(a@.unit == b@.unit);
        }
    }
    r
}

/// An endorsement of a unit by a validator.
#[derive(Copy, Clone, Debug, PartialEq, Eq, Structural)]
pub struct Endorsement {
    pub unit: u64,
    pub creator: ValidatorIndex,
}

/// The hash an endorsement is signed over.
pub open spec fn endorsement_hash(unit: u64, creator: ValidatorIndex) -> u64 {
    words_hash(seq![unit, creator.0 as u64])
}

impl Endorsement {
    /// The endorsement of `unit` by `creator`.
    pub fn new(unit: u64, creator: ValidatorIndex) -> (r: Endorsement)
        ensures
            r.unit == unit,
            r.creator == creator,
    {
        Endorsement { unit, creator }
    }

    /// The hash the endorsement is signed over.
    pub fn hash(&self) -> (r: u64)
        ensures
            r == endorsement_hash(self.unit, self.creator),
    {
        let mut ws: Vec<u64> = Vec::new();
        ws.push(self.unit);
        ws.push(self.creator.0 as u64);
        assert(ws@ =~= seq![self.unit, self.creator.0 as u64]);
        hash_words(&ws)
    }
}

/// Signed endorsements of one unit.
#[derive(Clone, Debug, PartialEq, Eq)]
pub struct Endorsements {
    pub unit: u64,
    /// Each endorser with its signature.
    pub endorsers: Vec<(ValidatorIndex, u64)>,
}

impl Endorsements {
    /// Endorsements of `unit` by the given signers.
    pub fn new(unit: u64, endorsers: Vec<(ValidatorIndex, u64)>) -> (r: Endorsements)
        ensures
            r.unit == unit,
            r.endorsers == endorsers,
    {
        Endorsements { unit, endorsers }
    }

    /// The endorsed unit.
    pub fn unit(&self) -> (r: u64)
        ensures
            r == self.unit,
    {
        self.unit
    }

    /// Copies the endorsements.
    pub fn copy(&self) -> (r: Endorsements)
        ensures
            r.unit == self.unit,
            r.endorsers@ == self.endorsers@,
    {
        let mut endorsers: Vec<(ValidatorIndex, u64)> = Vec::new();
        let mut i: usize = 0;
        while i < self.endorsers.len()
            invariant
                i <= self.endorsers@.len(),
                endorsers@ == self.endorsers@.take(i as int),
            decreases self.endorsers@.len() - i,
        {
            endorsers.push(self.endorsers[i]);
            i += 1;
            assert(endorsers@ =~= self.endorsers@.take(i as int));
        }
        assert(self.endorsers@.take(self.endorsers@.len() as int) =~= self.endorsers@);
        Endorsements { unit: self.unit, endorsers }
    }
}

/// Proof that a validator is faulty.
#[derive(Clone, Debug, PartialEq, Eq)]
pub enum Evidence {
    /// Two different units by the same creator with the same sequence number.
    Equivocation(SignedWireUnit, SignedWireUnit),
}

/// Why a piece of evidence is invalid.
#[derive(Copy, Clone, Debug, PartialEq, Eq, Structural)]
pub enum EvidenceError {
    /// The perpetrator is not a validator.
    UnknownPerpetrator,
    /// The two units were created by different validators.
    EquivocationDifferentCreators,
    /// The two units have different sequence numbers.
    EquivocationDifferentSeqNumbers,
    /// A unit was created for a different protocol instance.
    EquivocationInstanceId,
    /// The two units are the same unit.
    EquivocationSameUnit,
    /// A signature is invalid.
    Signature,
}

/// The outcome of validating an equivocation between `u1` and `u2`.
pub open spec fn equivocation_check(
    u1: SignedUnitView,
    u2: SignedUnitView,
    ids: Seq<Validator>,
    instance_id: u64,
) -> Result<(), EvidenceError> {
    if !((u1.unit.creator.0 as int) < ids.len()) {
        Err(EvidenceError::UnknownPerpetrator)
    } else if u1.unit.creator != u2.unit.creator {
        Err(EvidenceError::EquivocationDifferentCreators)
    } else if u1.unit.seq_number != u2.unit.seq_number {
        Err(EvidenceError::EquivocationDifferentSeqNumbers)
    } else if u1.unit.instance_id != instance_id || u2.unit.instance_id != instance_id {
        Err(EvidenceError::EquivocationInstanceId)
    } else if u1 == u2 {
        Err(EvidenceError::EquivocationSameUnit)
    } else {
        let vid = ids[u1.unit.creator.0 as int].id;
        if u1.signature != signature_of(u1.hash, vid) || u2.signature != signature_of(u2.hash, vid) {
            Err(EvidenceError::Signature)
        } else {
            Ok(())
        }
    }
}

/// Whether evidence of an equivocation is valid does not depend on the order
/// of its two units.
pub proof fn law_equivocation_symmetric(
    u1: SignedUnitView,
    u2: SignedUnitView,
    ids: Seq<Validator>,
    instance_id: u64,
)
    ensures
        (equivocation_check(u1, u2, ids, instance_id) is Ok) == (equivocation_check(u2, u1, ids, instance_id) is Ok),
{
}

impl Evidence {
    /// The validator the evidence is against.
    pub fn perpetrator(&self) -> (r: ValidatorIndex)
        ensures
            r == match self {
                Evidence::Equivocation(u1, _) => u1@.unit.creator,
            },
    {
        match self {
            Evidence::Equivocation(u1, _) => u1.hashed_wire_unit.wire_unit.creator,
        }
    }

    /// The index of the validator the evidence is against.
    pub open spec fn perpetrator_index(&self) -> u32 {
        match self {
            Evidence::Equivocation(u1, _) => u1@.unit.creator.0,
        }
    }

    /// Copies the evidence.
    pub fn copy(&self) -> (r: Evidence)
        ensures
            match (self, r) {
                (Evidence::Equivocation(a1, a2), Evidence::Equivocation(b1, b2)) => b1@ == a1@ && b2@ == a2@,
            },
    {
        match self {
            Evidence::Equivocation(u1, u2) => Evidence::Equivocation(u1.copy(), u2.copy()),
        }
    }

    /// Checks the evidence against the validators of a protocol instance.
    pub fn validate(&self, validators: &Validators, instance_id: u64) -> (r: Result<(), EvidenceError>)
        ensures
            match self {
                Evidence::Equivocation(u1, u2) => r == equivocation_check(
                    u1@,
                    u2@,
                    validators.validators@,
                    instance_id,
                ),
            },
    {
        match self {
            Evidence::Equivocation(u1, u2) => {
                let w1 = u1.wire_unit();
                let w2 = u2.wire_unit();
                let vid = match validators.id(w1.creator) {
                    Some(vid) => vid,
                    None => return Err(EvidenceError::UnknownPerpetrator),
                };
                if w1.creator != w2.creator {
                    return Err(EvidenceError::EquivocationDifferentCreators);
                }
                if w1.seq_number != w2.seq_number {
                    return Err(EvidenceError::EquivocationDifferentSeqNumbers);
                }
                if w1.instance_id != instance_id || w2.instance_id != instance_id {
                    return Err(EvidenceError::EquivocationInstanceId);
                }
                if same_signed_unit(u1, u2) {
                    return Err(EvidenceError::EquivocationSameUnit);
                }
                if !verify_signature(u1.hash(), vid, u1.signature) || !verify_signature(
                    u2.hash(),
                    vid,
                    u2.signature,
                ) {
                    return Err(EvidenceError::Signature);
                }
                Ok(())
            },
        }
    }
}

/// A message of the protocol.
#[derive(Clone, Debug, PartialEq, Eq)]
pub enum Vertex {
    Unit(SignedWireUnit),
    Evidence(Evidence),
    Endorsements(Endorsements),
}

impl Vertex {
    /// The proposed value, if the vertex is a unit that proposes one.
    pub fn value(&self) -> (r: Option<ConsensusValue>)
        ensures
            r == match self {
                Vertex::Unit(u) => u@.unit.value,
                _ => None,
            },
    {
        match self {
            Vertex::Unit(u) => u.hashed_wire_unit.wire_unit.value,
            _ => None,
        }
    }

    /// The unit's timestamp, if the vertex is a unit.
    pub fn timestamp(&self) -> (r: Option<u64>)
        ensures
            r == match self {
                Vertex::Unit(u) => Some(u@.unit.timestamp),
                _ => None,
            },
    {
        match self {
            Vertex::Unit(u) => Some(u.hashed_wire_unit.wire_unit.timestamp),
            _ => None,
        }
    }
}

/// Something a vertex depends on.
#[derive(Copy, Clone, Debug, PartialEq, Eq, Structural)]
pub enum Dependency {
    /// The unit with this hash.
    Unit(u64),
    /// Evidence against this validator.
    Evidence(ValidatorIndex),
    /// Endorsements of the unit with this hash.
    Endorsement(u64),
}

} // verus!
