//! The protocol state of a Highway instance: the units seen so far, the
//! latest unit of every validator, the faults known, and the endorsements
//! collected.

use vstd::prelude::*;

use crate::assoc::{assoc_map, keys_unique, lemma_assoc_key, lemma_assoc_lookup, lemma_assoc_push};
use crate::highway_types::{
    signature_of, Dependency, Endorsements, Evidence, Observation, Panorama, SignedUnitView, SignedWireUnit, ValidatorIndex,
    WireUnitView,
};

verus! {

/// Protocol parameters that units are checked against.
#[derive(Copy, Clone, Debug, PartialEq, Eq, Structural)]
pub struct Params {
    /// The smallest round length exponent a unit may have.
    pub min_round_exp: u8,
    /// The largest round length exponent a unit may have.
    pub max_round_exp: u8,
}

impl Params {
    /// Parameters with the given bounds on the round length exponent.
    pub fn new(min_round_exp: u8, max_round_exp: u8) -> (r: Params)
        ensures
            r.min_round_exp == min_round_exp,
            r.max_round_exp == max_round_exp,
    {
        Params { min_round_exp, max_round_exp }
    }
}

/// Why a validator is known to be faulty.
#[derive(Clone, Debug, PartialEq, Eq)]
pub enum Fault {
    /// The validator was banned from the start.
    Banned,
    /// We have direct evidence of the fault.
    Direct(Evidence),
    /// Some other validator saw the fault; we have no evidence ourselves.
    Indirect,
}

/// Why a unit is invalid.
#[derive(Copy, Clone, Debug, PartialEq, Eq, Structural)]
pub enum UnitError {
    /// The creator is not a validator.
    Creator,
    /// The unit was created for another protocol instance.
    InstanceId,
    /// The signature is invalid.
    Signature,
    /// The creator is banned.
    Banned,
    /// The round length exponent is below the minimum.
    RoundLengthExpLessThanMinimum,
    /// The round length exponent is above the maximum.
    RoundLengthExpGreaterThanMaximum,
    /// The panorama has this length, not the number of validators.
    PanoramaLength(usize),
    /// The unit accuses its own creator of a fault.
    FaultyCreator,
    /// The panorama holds a unit by the second validator in the slot of the first.
    PanoramaIndex(ValidatorIndex, ValidatorIndex),
    /// A cited unit is younger than the unit.
    Timestamps,
    /// The sequence number does not follow the creator's previous unit.
    SequenceNumber,
}

/// Why a unit could not be added.
#[derive(Copy, Clone, Debug, PartialEq, Eq, Structural)]
pub enum AddUnitError {
    /// The unit is invalid.
    Invalid(UnitError),
    /// The state lacks something the unit depends on.
    MissingDependency(Dependency),
}

/// The sum of the weights of the endorsers' validators.
pub open spec fn endorsers_weight(weights: Seq<u64>, es: Seq<(ValidatorIndex, u64)>) -> int
    decreases es.len(),
{
    if es.len() == 0 {
        0
    } else {
        let idx = es.last().0.0 as int;
        endorsers_weight(weights, es.drop_last()) + if idx < weights.len() {
            weights[idx] as int
        } else {
            0
        }
    }
}

/// Whether validator `idx` is among the endorsers.
pub open spec fn has_endorser(es: Seq<(ValidatorIndex, u64)>, idx: ValidatorIndex) -> bool {
    exists|i: int| 0 <= i < es.len() && (#[trigger] es[i]).0 == idx
}

/// `old` followed by the endorsements of `new` from validators not yet present.
pub open spec fn merge_endorsers(old: Seq<(ValidatorIndex, u64)>, new: Seq<(ValidatorIndex, u64)>) -> Seq<
    (ValidatorIndex, u64),
>
    decreases new.len(),
{
    if new.len() == 0 {
        old
    } else {
        let m = merge_endorsers(old, new.drop_last());
        if has_endorser(m, new.last().0) {
            m
        } else {
            m.push(new.last())
        }
    }
}

/// The weight above which a unit counts as endorsed: two thirds of the
/// total weight, rounded down as `total / 3 * 2`.
pub open spec fn endorsement_threshold(weights: Seq<u64>) -> int {
    total_weight(weights) / 3 * 2
}

/// The sum of all weights.
pub open spec fn total_weight(weights: Seq<u64>) -> int
    decreases weights.len(),
{
    if weights.len() == 0 {
        0
    } else {
        total_weight(weights.drop_last()) + weights.last()
    }
}

/// The protocol state.
pub struct State {
    pub params: Params,
    /// The weight of every validator, in index order.
    pub weights: Vec<u64>,
    /// Every unit seen, under its hash, in the order added.
    pub units: Vec<(u64, SignedWireUnit)>,
    /// The latest observation of every validator.
    pub panorama: Panorama,
    /// The fault of every validator, if it is known to be faulty.
    pub faults: Vec<Option<Fault>>,
    /// The endorsements of units that are endorsed.
    pub endorsements: Vec<Endorsements>,
    /// The endorsements of units that are not endorsed yet.
    pub incomplete_endorsements: Vec<Endorsements>,
}

impl State {
    /// The number of validators.
    pub open spec fn n(&self) -> nat {
        self.weights@.len()
    }

    /// The units as (hash, unit) pairs.
    pub open spec fn unit_entries(&self) -> Seq<(u64, SignedUnitView)> {
        self.units@.map_values(|p: (u64, SignedWireUnit)| (p.0, p.1@))
    }

    /// The units by hash.
    pub open spec fn unit_map(&self) -> Map<u64, SignedUnitView> {
        assoc_map(self.unit_entries())
    }

    /// Whether the state holds the unit with this hash.
    pub open spec fn holds_unit(&self, h: u64) -> bool {
        self.unit_map().contains_key(h)
    }

    /// Whether validator `i` is known to be faulty.
    pub open spec fn faulty(&self, i: int) -> bool {
        0 <= i < self.faults@.len() && self.faults@[i] is Some
    }

    /// Whether validator `i` is banned.
    pub open spec fn banned(&self, i: int) -> bool {
        0 <= i < self.faults@.len() && self.faults@[i] == Some(Fault::Banned)
    }

    /// Whether we hold direct evidence against validator `i`.
    pub open spec fn direct_evidence(&self, i: int) -> bool {
        0 <= i < self.faults@.len() && self.faults@[i] matches Some(Fault::Direct(_))
    }

    /// Whether the unit with hash `h` is endorsed.
    pub open spec fn endorsed(&self, h: u64) -> bool {
        exists|i: int| 0 <= i < self.endorsements@.len() && (#[trigger] self.endorsements@[i]).unit == h
    }

    /// Whether a panorama only cites units the state holds, each in its creator's slot.
    pub open spec fn cites_known(&self, p: Seq<Observation>) -> bool {
        forall|i: int|
            0 <= i < p.len() && (#[trigger] p[i]) is Correct ==> self.holds_unit(p[i]->Correct_0)
                && self.unit_map()[p[i]->Correct_0].unit.creator.0 == i
    }

    /// The state's invariant.
    pub open spec fn wf(&self) -> bool {
        &&& self.n() <= u32::MAX
        &&& self.panorama@.len() == self.n()
        &&& self.faults@.len() == self.n()
        &&& keys_unique(self.unit_entries())
        &&& forall|k: int| 0 <= k < self.units@.len() ==> (#[trigger] self.units@[k]).0 == self.units@[k].1@.hash
        &&& forall|h: u64| #[trigger]
            self.holds_unit(h) ==> {
                let u = self.unit_map()[h];
                &&& (u.unit.creator.0 as int) < self.n()
                &&& u.unit.panorama.len() == self.n()
                &&& self.cites_known(u.unit.panorama)
                &&& self.panorama@[u.unit.creator.0 as int] != Observation::Unseen
            }
        &&& self.cites_known(self.panorama@)
        &&& forall|i: int| 0 <= i < self.n() ==> ((#[trigger] self.panorama@[i]) is Faulty <==> self.faults@[i] is Some)
    }

    /// The number of validators.
    pub fn validator_count(&self) -> (r: usize)
        ensures
            r == self.n(),
    {
        self.weights.len()
    }

    /// The index in `units` of the unit with hash `h`.
    fn find_unit(&self, h: u64) -> (r: Option<usize>)
        requires
            keys_unique(self.unit_entries()),
        ensures
            match r {
                Some(i) => i < self.units@.len() && self.units@[i as int].0 == h && self.holds_unit(h)
                    && self.unit_map()[h] == self.units@[i as int].1@,
                None => !self.holds_unit(h),
            },
    {
        let mut i: usize = 0;
        while i < self.units.len()
            invariant
                i <= self.units@.len(),
                keys_unique(self.unit_entries()),
                forall|k: int| 0 <= k < i ==> (#[trigger] self.units@[k]).0 != h,
            decreases self.units@.len() - i,
        {
            if self.units[i].0 == h {
                proof {
                    lemma_assoc_lookup(self.unit_entries(), i as int);
                }
                return Some(i);
            }
            i += 1;
        }
        proof {
            if self.holds_unit(h) {
                let k = lemma_assoc_key(self.unit_entries(), h);
                assert(self.units@[k].0 == h);
            }
        }
        None
    }

    /// Whether the state holds the unit with hash `h`.
    pub fn has_unit(&self, h: u64) -> (r: bool)
        requires
            self.wf(),
        ensures
            r == self.holds_unit(h),
    {
        self.find_unit(h).is_some()
    }

    /// The unit with hash `h`, if the state holds it.
    pub fn unit(&self, h: u64) -> (r: Option<&SignedWireUnit>)
        requires
            self.wf(),
        ensures
            match r {
                Some(u) => self.holds_unit(h) && u@ == self.unit_map()[h],
                None => !self.holds_unit(h),
            },
    {
        match self.find_unit(h) {
            Some(i) => Some(&self.units[i].1),
            None => None,
        }
    }

    /// A copy of the unit with hash `h`, if the state holds it.
    pub fn wire_unit(&self, h: u64) -> (r: Option<SignedWireUnit>)
        requires
            self.wf(),
        ensures
            match r {
                Some(u) => self.holds_unit(h) && u@ == self.unit_map()[h],
                None => !self.holds_unit(h),
            },
    {
        match self.unit(h) {
            Some(u) => Some(u.copy()),
            None => None,
        }
    }

    /// Whether validator `idx` is known to be faulty.
    pub fn is_faulty(&self, idx: ValidatorIndex) -> (r: bool)
        ensures
            r == self.faulty(idx.0 as int),
    {
        let i = idx.0 as usize;
        i < self.faults.len() && self.faults[i].is_some()
    }

    /// Whether we hold direct evidence against validator `idx`.
    pub fn has_evidence(&self, idx: ValidatorIndex) -> (r: bool)
        ensures
            r == self.direct_evidence(idx.0 as int),
    {
        let i = idx.0 as usize;
        if i < self.faults.len() {
            match &self.faults[i] {
                Some(Fault::Direct(_)) => true,
                _ => false,
            }
        } else {
            false
        }
    }

    /// The fault of validator `idx`, if it is known to be faulty.
    pub fn maybe_fault(&self, idx: ValidatorIndex) -> (r: Option<&Fault>)
        ensures
            r == (if (idx.0 as int) < self.faults@.len() {
                match self.faults@[idx.0 as int] {
                    Some(f) => Some(&f),
                    None => None,
                }
            } else {
                None
            }),
    {
        let i = idx.0 as usize;
        if i < self.faults.len() {
            match &self.faults[i] {
                Some(f) => Some(f),
                None => None,
            }
        } else {
            None
        }
    }

    /// A copy of the direct evidence against validator `idx`, if we hold any.
    pub fn maybe_evidence(&self, idx: ValidatorIndex) -> (r: Option<Evidence>)
        ensures
            r is Some == self.direct_evidence(idx.0 as int),
            r is Some ==> match (self.faults@[idx.0 as int], r) {
                (Some(Fault::Direct(Evidence::Equivocation(a1, a2))), Some(Evidence::Equivocation(b1, b2))) =>
                    b1@ == a1@ && b2@ == a2@,
                _ => false,
            },
    {
        let i = idx.0 as usize;
        if i < self.faults.len() {
            match &self.faults[i] {
                Some(Fault::Direct(ev)) => Some(ev.copy()),
                _ => None,
            }
        } else {
            None
        }
    }

    /// Whether the unit with hash `h` is endorsed.
    pub fn is_endorsed(&self, h: u64) -> (r: bool)
        ensures
            r == self.endorsed(h),
    {
        let mut i: usize = 0;
        while i < self.endorsements.len()
            invariant
                i <= self.endorsements@.len(),
                forall|k: int| 0 <= k < i ==> (#[trigger] self.endorsements@[k]).unit != h,
            decreases self.endorsements@.len() - i,
        {
            if self.endorsements[i].unit == h {
                return true;
            }
            i += 1;
        }
        false
    }
}


impl State {
    /// The outcome of the checks of a unit that need none of its dependencies.
    pub open spec fn pre_validation(&self, w: WireUnitView) -> Result<(), UnitError> {
        if !((w.creator.0 as int) < self.n()) {
            Err(UnitError::Creator)
        } else if self.banned(w.creator.0 as int) {
            Err(UnitError::Banned)
        } else if w.round_exp < self.params.min_round_exp {
            Err(UnitError::RoundLengthExpLessThanMinimum)
        } else if w.round_exp > self.params.max_round_exp {
            Err(UnitError::RoundLengthExpGreaterThanMaximum)
        } else if w.panorama.len() != self.n() {
            Err(UnitError::PanoramaLength(w.panorama.len() as usize))
        } else if w.panorama[w.creator.0 as int] is Faulty {
            Err(UnitError::FaultyCreator)
        } else {
            Ok(())
        }
    }

    /// What is missing for observation `o` in slot `i`, if anything.
    pub open spec fn observation_dependency(&self, i: int, o: Observation) -> Option<Dependency> {
        match o {
            Observation::Correct(h) => if self.holds_unit(h) {
                None
            } else {
                Some(Dependency::Unit(h))
            },
            Observation::Faulty => if self.faulty(i) {
                None
            } else {
                Some(Dependency::Evidence(ValidatorIndex(i as u32)))
            },
            Observation::Unseen => None,
        }
    }

    /// The first dependency of the panorama `p`, from slot `from` on, that is missing.
    pub open spec fn first_missing(&self, p: Seq<Observation>, from: int) -> Option<Dependency>
        decreases p.len() - from,
    {
        if from < 0 || from >= p.len() {
            None
        } else {
            match self.observation_dependency(from, p[from]) {
                Some(d) => Some(d),
                None => self.first_missing(p, from + 1),
            }
        }
    }

    /// With nothing missing from slot `from` on, every unit cited from there is held.
    pub proof fn lemma_nothing_missing(&self, p: Seq<Observation>, from: int)
        requires
            0 <= from,
            self.first_missing(p, from) is None,
        ensures
            forall|i: int| from <= i < p.len() && (#[trigger] p[i]) is Correct ==> self.holds_unit(p[i]->Correct_0),
            forall|i: int| from <= i < p.len() && (#[trigger] p[i]) is Faulty ==> self.faulty(i),
        decreases p.len() - from,
    {
        if from < p.len() {
            self.lemma_nothing_missing(p, from + 1);
        }
    }

    /// The index error of the first slot, from `from` on, that holds a unit by another validator.
    pub open spec fn first_index_error(&self, p: Seq<Observation>, from: int) -> Option<UnitError>
        decreases p.len() - from,
    {
        if from < 0 || from >= p.len() {
            None
        } else {
            match p[from] {
                Observation::Correct(h) => {
                    let c = self.unit_map()[h].unit.creator;
                    if c.0 != from {
                        Some(UnitError::PanoramaIndex(ValidatorIndex(from as u32), c))
                    } else {
                        self.first_index_error(p, from + 1)
                    }
                },
                _ => self.first_index_error(p, from + 1),
            }
        }
    }

    /// Whether a unit cited by the panorama is younger than `timestamp`.
    pub open spec fn cites_younger(&self, p: Seq<Observation>, timestamp: u64) -> bool {
        exists|i: int|
            0 <= i < p.len() && (#[trigger] p[i]) is Correct && self.unit_map()[p[i]->Correct_0].unit.timestamp
                > timestamp
    }

    /// The sequence number that follows the creator's unit cited by the panorama.
    pub open spec fn next_seq(&self, p: Seq<Observation>, creator: ValidatorIndex) -> int {
        match p[creator.0 as int] {
            Observation::Correct(h) => self.unit_map()[h].unit.seq_number + 1,
            _ => 0,
        }
    }

    /// The outcome of the checks of a unit against its dependencies.
    pub open spec fn validation(&self, w: WireUnitView) -> Result<(), UnitError> {
        match self.first_index_error(w.panorama, 0) {
            Some(e) => Err(e),
            None => if self.cites_younger(w.panorama, w.timestamp) {
                Err(UnitError::Timestamps)
            } else if w.seq_number != self.next_seq(w.panorama, w.creator) {
                Err(UnitError::SequenceNumber)
            } else {
                Ok(())
            },
        }
    }

    /// Checks a unit as far as possible without its dependencies.
    pub fn pre_validate_unit(&self, swunit: &SignedWireUnit) -> (r: Result<(), UnitError>)
        requires
            self.wf(),
        ensures
            r == self.pre_validation(swunit@.unit),
    {
        let w = swunit.wire_unit();
        let creator = w.creator;
        let c = creator.0 as usize;
        if c >= self.weights.len() {
            return Err(UnitError::Creator);
        }
        match &self.faults[c] {
            Some(Fault::Banned) => return Err(UnitError::Banned),
            _ => {},
        }
        if w.round_exp < self.params.min_round_exp {
            return Err(UnitError::RoundLengthExpLessThanMinimum);
        }
        if w.round_exp > self.params.max_round_exp {
            return Err(UnitError::RoundLengthExpGreaterThanMaximum);
        }
        if w.panorama.len() != self.weights.len() {
            return Err(UnitError::PanoramaLength(w.panorama.len()));
        }
        if w.panorama.get(creator).is_faulty() {
            return Err(UnitError::FaultyCreator);
        }
        Ok(())
    }

    /// The first dependency of the panorama that the state lacks.
    pub fn missing_dependency(&self, panorama: &Panorama) -> (r: Option<Dependency>)
        requires
            self.wf(),
            panorama@.len() <= u32::MAX,
        ensures
            r == self.first_missing(panorama@, 0),
    {
        let p = &panorama.observations;
        let mut i: usize = 0;
        while i < p.len()
            invariant
                i <= p@.len(),
                p@.len() <= u32::MAX,
                self.wf(),
                p@ == panorama@,
                self.first_missing(panorama@, 0) == self.first_missing(panorama@, i as int),
            decreases p@.len() - i,
        {
            let dep = match p[i] {
                Observation::Correct(h) => if self.has_unit(h) {
                    None
                } else {
                    Some(Dependency::Unit(h))
                },
                Observation::Faulty => if self.is_faulty(ValidatorIndex(i as u32)) {
                    None
                } else {
                    Some(Dependency::Evidence(ValidatorIndex(i as u32)))
                },
                Observation::Unseen => None,
            };
            assert(dep == self.observation_dependency(i as int, panorama@[i as int]));
            if dep.is_some() {
                return dep;
            }
            i += 1;
        }
        None
    }

    /// The least unit that `swunit` endorses and that is not endorsed yet.
    pub fn needs_endorsements(&self, swunit: &SignedWireUnit) -> (r: Option<u64>)
        ensures
            match r {
                Some(h) => swunit@.unit.endorsed.contains(h) && !self.endorsed(h) && forall|k: int|
                    0 <= k < swunit@.unit.endorsed.len() && !self.endorsed(#[trigger] swunit@.unit.endorsed[k])
                        ==> h <= swunit@.unit.endorsed[k],
                None => forall|k: int|
                    0 <= k < swunit@.unit.endorsed.len() ==> self.endorsed(#[trigger] swunit@.unit.endorsed[k]),
            },
    {
        let e = &swunit.hashed_wire_unit.wire_unit.endorsed;
        let mut best: Option<u64> = None;
        let mut i: usize = 0;
        while i < e.len()
            invariant
                i <= e@.len(),
                e@ == swunit@.unit.endorsed,
                match best {
                    Some(h) => e@.contains(h) && !self.endorsed(h) && forall|k: int|
                        0 <= k < i && !self.endorsed(#[trigger] e@[k]) ==> h <= e@[k],
                    None => forall|k: int| 0 <= k < i ==> self.endorsed(#[trigger] e@[k]),
                },
            decreases e@.len() - i,
        {
            let h = e[i];
            if !self.is_endorsed(h) {
                match best {
                    Some(b) => {
                        if h < b {
                            best = Some(h);
                        }
                    },
                    None => {
                        best = Some(h);
                    },
                }
            }
            i += 1;
        }
        best
    }

    /// Checks a unit against its dependencies, which the state must hold.
    pub fn validate_unit(&self, swunit: &SignedWireUnit) -> (r: Result<(), UnitError>)
        requires
            self.wf(),
            self.pre_validation(swunit@.unit) is Ok,
            self.first_missing(swunit@.unit.panorama, 0) is None,
        ensures
            r == self.validation(swunit@.unit),
    {
        let w = swunit.wire_unit();
        let p = &w.panorama.observations;
        proof {
            self.lemma_nothing_missing(p@, 0);
        }
        let mut i: usize = 0;
        while i < p.len()
            invariant
                i <= p@.len(),
                p@.len() == self.n(),
                self.wf(),
                p@ == swunit@.unit.panorama,
                forall|k: int| 0 <= k < p@.len() && (#[trigger] p@[k]) is Correct ==> self.holds_unit(p@[k]->Correct_0),
                self.first_index_error(p@, 0) == self.first_index_error(p@, i as int),
            decreases p@.len() - i,
        {
            match p[i] {
                Observation::Correct(h) => {
                    match self.unit(h) {
                        Some(u) => {
                            let c = u.hashed_wire_unit.wire_unit.creator;
                            if c.0 as usize != i {
                                return Err(UnitError::PanoramaIndex(ValidatorIndex(i as u32), c));
                            }
                        },
                        None => {},
                    }
                },
                _ => {},
            }
            i += 1;
        }
        let mut j: usize = 0;
        while j < p.len()
            invariant
                j <= p@.len(),
                p@.len() == self.n(),
                self.wf(),
                p@ == swunit@.unit.panorama,
                forall|k: int| 0 <= k < p@.len() && (#[trigger] p@[k]) is Correct ==> self.holds_unit(p@[k]->Correct_0),
                forall|k: int|
                    0 <= k < j && (#[trigger] p@[k]) is Correct ==> self.unit_map()[p@[k]->Correct_0].unit.timestamp
                        <= w.timestamp,
                self.first_index_error(p@, 0) is None,
                w@ == swunit@.unit,
            decreases p@.len() - j,
        {
            match p[j] {
                Observation::Correct(h) => {
                    match self.unit(h) {
                        Some(u) => {
                            if u.hashed_wire_unit.wire_unit.timestamp > w.timestamp {
                                assert(p@[j as int] is Correct);
                                return Err(UnitError::Timestamps);
                            }
                        },
                        None => {},
                    }
                },
                _ => {},
            }
            j += 1;
        }
        let expected: Option<u64> = match w.panorama.get(w.creator) {
            Observation::Correct(h) => match self.unit(h) {
                Some(u) => u.hashed_wire_unit.wire_unit.seq_number.checked_add(1),
                None => None,
            },
            _ => Some(0),
        };
        match expected {
            Some(s) => {
                if s != w.seq_number {
                    return Err(UnitError::SequenceNumber);
                }
            },
            None => return Err(UnitError::SequenceNumber),
        }
        Ok(())
    }
}


impl State {
    /// A state of `weights.len()` validators in which those in `banned` are
    /// faulty from the start.
    pub fn new(weights: Vec<u64>, params: Params, banned: Vec<ValidatorIndex>) -> (r: State)
        requires
            weights@.len() <= u32::MAX,
        ensures
            r.wf(),
            r.weights == weights,
            r.params == params,
            r.units@.len() == 0,
            r.endorsements@.len() == 0,
            r.incomplete_endorsements@.len() == 0,
            forall|i: int| 0 <= i < weights@.len() ==> (#[trigger] r.faults@[i]) == (if banned@.contains(ValidatorIndex(i as u32)) {
                Some(Fault::Banned)
            } else {
                None
            }),
            forall|i: int| 0 <= i < weights@.len() ==> (#[trigger] r.panorama@[i]) == (if banned@.contains(ValidatorIndex(i as u32)) {
                Observation::Faulty
            } else {
                Observation::Unseen
            }),
    {
        let n = weights.len();
        let mut observations: Vec<Observation> = Vec::new();
        let mut faults: Vec<Option<Fault>> = Vec::new();
        let mut i: usize = 0;
        while i < n
            invariant
                i <= n,
                n == weights@.len(),
                n <= u32::MAX,
                observations@.len() == i,
                faults@.len() == i,
                forall|k: int| 0 <= k < i ==> (#[trigger] faults@[k]) == (if banned@.contains(ValidatorIndex(k as u32)) {
                    Some(Fault::Banned)
                } else {
                    None
                }),
                forall|k: int| 0 <= k < i ==> (#[trigger] observations@[k]) == (if banned@.contains(ValidatorIndex(k as u32)) {
                    Observation::Faulty
                } else {
                    Observation::Unseen
                }),
            decreases n - i,
        {
            let mut is_banned = false;
            let mut j: usize = 0;
            while j < banned.len()
                invariant
                    j <= banned@.len(),
                    i < n,
                    n <= u32::MAX,
                    is_banned == banned@.take(j as int).contains(ValidatorIndex(i as u32)),
                decreases banned@.len() - j,
            {
                let ghost x = ValidatorIndex(i as u32);
                let ghost before = banned@.take(j as int);
                let ghost after = banned@.take(j as int + 1);
                proof {
                    assert(after =~= before.push(banned@[j as int]));
                    if before.contains(x) {
                        let k = choose|k: int| 0 <= k < before.len() && before[k] == x;
                        assert(after[k] == x);
                    }
                    if banned@[j as int] == x {
                        assert(after[j as int] == x);
                    }
                    if after.contains(x) {
                        let k = choose|k: int| 0 <= k < after.len() && after[k] == x;
                        if k < j {
                            assert(before[k] == x);
                        }
                    }
                }
                if banned[j].0 as usize == i {
                    is_banned = true;
                }
                j += 1;
            }
            assert(banned@.take(banned@.len() as int) =~= banned@);
            if is_banned {
                observations.push(Observation::Faulty);
                faults.push(Some(Fault::Banned));
            } else {
                observations.push(Observation::Unseen);
                faults.push(None);
            }
            i += 1;
        }
        let r = State {
            params,
            weights,
            units: Vec::new(),
            panorama: Panorama { observations },
            faults,
            endorsements: Vec::new(),
            incomplete_endorsements: Vec::new(),
        };
        assert(r.unit_entries() =~= Seq::<(u64, SignedUnitView)>::empty());
        assert forall|h: u64| !r.holds_unit(h) by {
            if r.holds_unit(h) {
                let k = lemma_assoc_key(r.unit_entries(), h);
            }
        }
        r
    }

    /// Without index errors from slot `from` on, every held unit cited there
    /// was created by the validator of its slot.
    pub proof fn lemma_no_index_error(&self, p: Seq<Observation>, from: int)
        requires
            0 <= from,
            self.first_index_error(p, from) is None,
        ensures
            forall|i: int|
                from <= i < p.len() && (#[trigger] p[i]) is Correct ==> self.unit_map()[p[i]->Correct_0].unit.creator.0
                    == i,
        decreases p.len() - from,
    {
        if from < p.len() {
            self.lemma_no_index_error(p, from + 1);
        }
    }

    /// Marks validator `idx` as faulty, without evidence unless we already hold some.
    pub fn mark_faulty(&mut self, idx: ValidatorIndex)
        requires
            old(self).wf(),
        ensures
            final(self).wf(),
            final(self).weights == old(self).weights,
            final(self).params == old(self).params,
            final(self).units == old(self).units,
            final(self).endorsements == old(self).endorsements,
            final(self).incomplete_endorsements == old(self).incomplete_endorsements,
            (idx.0 as int) < old(self).n() ==> final(self).panorama@ == old(self).panorama@.update(
                idx.0 as int,
                Observation::Faulty,
            ),
            (idx.0 as int) < old(self).n() ==> final(self).faults@ == old(self).faults@.update(
                idx.0 as int,
                if old(self).faults@[idx.0 as int] is Some {
                    old(self).faults@[idx.0 as int]
                } else {
                    Some(Fault::Indirect)
                },
            ),
            !((idx.0 as int) < old(self).n()) ==> final(self).panorama@ == old(self).panorama@
                && final(self).faults@ == old(self).faults@,
    {
        let i = idx.0 as usize;
        if i < self.weights.len() {
            self.panorama.observations.set(i, Observation::Faulty);
            if self.faults[i].is_none() {
                self.faults.set(i, Some(Fault::Indirect));
            }
            proof {
                assert(self.unit_entries() == old(self).unit_entries());
                lemma_same_units(old(self), self);
                assert forall|h: u64| #[trigger] self.holds_unit(h) implies ({
                    let u = self.unit_map()[h];
                    &&& (u.unit.creator.0 as int) < self.n()
                    &&& u.unit.panorama.len() == self.n()
                    &&& self.cites_known(u.unit.panorama)
                    &&& self.panorama@[u.unit.creator.0 as int] != Observation::Unseen
                }) by {
                    assert(old(self).holds_unit(h));
                }
                assert(self.cites_known(self.panorama@)) by {
                    assert forall|k: int| 0 <= k < self.panorama@.len() && (#[trigger] self.panorama@[k]) is Correct
                        implies self.holds_unit(self.panorama@[k]->Correct_0) && self.unit_map()[self.panorama@[k]->Correct_0].unit.creator.0 == k by {
                        assert(old(self).panorama@[k] == self.panorama@[k]);
                    }
                }
                assert forall|k: int| 0 <= k < self.n() implies ((#[trigger] self.panorama@[k]) is Faulty <==> self.faults@[k] is Some) by {
                    if k != i {
                        assert(old(self).panorama@[k] == self.panorama@[k]);
                    }
                }
            }
        }
    }

    /// Records evidence against its perpetrator, unless the perpetrator is
    /// banned or we already hold evidence; returns whether it was recorded.
    pub fn add_evidence(&mut self, evidence: Evidence) -> (r: bool)
        requires
            old(self).wf(),
            (evidence.perpetrator_index() as int) < old(self).n(),
        ensures
            final(self).wf(),
            final(self).weights == old(self).weights,
            final(self).params == old(self).params,
            final(self).units == old(self).units,
            final(self).endorsements == old(self).endorsements,
            final(self).incomplete_endorsements == old(self).incomplete_endorsements,
            r == !(old(self).banned(evidence.perpetrator_index() as int) || old(self).direct_evidence(
                evidence.perpetrator_index() as int,
            )),
            r ==> final(self).panorama@ == old(self).panorama@.update(
                evidence.perpetrator_index() as int,
                Observation::Faulty,
            ),
            r ==> final(self).faults@ == old(self).faults@.update(
                evidence.perpetrator_index() as int,
                Some(Fault::Direct(evidence)),
            ),
            !r ==> final(self).panorama@ == old(self).panorama@ && final(self).faults@ == old(self).faults@,
            evidence_added(*old(self), *final(self), evidence),
    {
        let idx = evidence.perpetrator();
        let i = idx.0 as usize;
        match &self.faults[i] {
            Some(Fault::Banned) => return false,
            Some(Fault::Direct(_)) => return false,
            _ => {},
        }
        self.faults.set(i, Some(Fault::Direct(evidence)));
        self.panorama.observations.set(i, Observation::Faulty);
        proof {
            assert(self.unit_entries() == old(self).unit_entries());
            lemma_same_units(old(self), self);
            assert forall|h: u64| #[trigger] self.holds_unit(h) implies ({
                let u = self.unit_map()[h];
                &&& (u.unit.creator.0 as int) < self.n()
                &&& u.unit.panorama.len() == self.n()
                &&& self.cites_known(u.unit.panorama)
                &&& self.panorama@[u.unit.creator.0 as int] != Observation::Unseen
            }) by {
                assert(old(self).holds_unit(h));
            }
            assert(self.cites_known(self.panorama@)) by {
                assert forall|k: int| 0 <= k < self.panorama@.len() && (#[trigger] self.panorama@[k]) is Correct
                    implies self.holds_unit(self.panorama@[k]->Correct_0) && self.unit_map()[self.panorama@[k]->Correct_0].unit.creator.0 == k by {
                    assert(old(self).panorama@[k] == self.panorama@[k]);
                }
            }
            assert forall|k: int| 0 <= k < self.n() implies ((#[trigger] self.panorama@[k]) is Faulty <==> self.faults@[k] is Some) by {
                if k != i {
                    assert(old(self).panorama@[k] == self.panorama@[k]);
                }
            }
        }
        true
    }

    /// The `k`-th unit of the swimlane ending at `h`: `h` itself, then the
    /// unit that each one cites as its creator's previous unit, as long as
    /// it cites one.
    pub open spec fn swimlane_unit(&self, h: u64, k: nat) -> Option<u64>
        decreases k,
    {
        if k == 0 {
            if self.holds_unit(h) {
                Some(h)
            } else {
                None
            }
        } else {
            match self.swimlane_unit(h, (k - 1) as nat) {
                Some(x) => {
                    let u = self.unit_map()[x].unit;
                    match u.panorama[u.creator.0 as int] {
                        Observation::Correct(prev) => Some(prev),
                        _ => None,
                    }
                },
                None => None,
            }
        }
    }

    /// The sequence number of the `k`-th unit of the swimlane ending at `h`.
    pub open spec fn swimlane_seq(&self, h: u64, k: nat) -> int {
        self.unit_map()[self.swimlane_unit(h, k)->Some_0].unit.seq_number as int
    }

    /// Whether the search for `seq` down the swimlane ending at `h` stops at
    /// its `k`-th unit and finds it there: all units before it have greater
    /// sequence numbers, and it has `seq`.
    pub open spec fn swimlane_found_at(&self, h: u64, seq: u64, k: nat) -> bool {
        &&& self.swimlane_unit(h, k) is Some
        &&& self.swimlane_seq(h, k) == seq
        &&& forall|j: nat| j < k ==> #[trigger] self.swimlane_unit(h, j) is Some && self.swimlane_seq(h, j) > seq
    }
}

impl State {
    /// The unit in the swimlane ending at `h` (the chain of units of `h`'s
    /// creator, each citing the one before) with sequence number `seq`,
    /// searched down the swimlane, at most as many steps as the state holds
    /// units, until a unit with a sequence number not above `seq`.
    pub fn find_in_swimlane(&self, h: u64, seq: u64) -> (r: Option<u64>)
        requires
            self.wf(),
            self.holds_unit(h),
        ensures
            r matches Some(x) ==> self.holds_unit(x) && self.unit_map()[x].unit.seq_number == seq
                && self.unit_map()[x].unit.creator == self.unit_map()[h].unit.creator,
            r matches Some(x) ==> exists|k: nat| k <= self.units@.len() && self.swimlane_found_at(h, seq, k)
                && self.swimlane_unit(h, k) == Some(x),
            r is None ==> forall|k: nat| k <= self.units@.len() ==> !#[trigger] self.swimlane_found_at(h, seq, k),
    {
        let mut cur = h;
        let mut fuel: usize = self.units.len();
        let ghost mut steps: nat = 0;
        loop
            invariant
                self.wf(),
                self.holds_unit(cur),
                self.unit_map()[cur].unit.creator == self.unit_map()[h].unit.creator,
                steps + fuel == self.units@.len(),
                self.swimlane_unit(h, steps) == Some(cur),
                forall|j: nat| j < steps ==> #[trigger] self.swimlane_unit(h, j) is Some && self.swimlane_seq(h, j) > seq,
            decreases fuel,
        {
            let u = match self.unit(cur) {
                Some(u) => u,
                None => return None,
            };
            let w = u.wire_unit();
            if w.seq_number == seq {
                proof {
                    assert(self.swimlane_found_at(h, seq, steps));
                }
                return Some(cur);
            }
            if w.seq_number < seq || fuel == 0 {
                proof {
                    assert forall|k: nat| k <= self.units@.len() implies !#[trigger] self.swimlane_found_at(h, seq, k) by {
                        if k > steps {
                            assert(self.swimlane_unit(h, steps) is Some && self.swimlane_seq(h, steps) > seq ==> false);
                        }
                    }
                }
                return None;
            }
            match w.panorama.get(w.creator) {
                Observation::Correct(prev) => {
                    proof {
                        assert(self.cites_known(self.unit_map()[cur].unit.panorama));
                        assert(w@.panorama[w.creator.0 as int] is Correct);
                        assert(self.swimlane_unit(h, steps + 1) == Some(prev));
                        assert forall|j: nat| j < steps + 1 implies #[trigger] self.swimlane_unit(h, j) is Some
                            && self.swimlane_seq(h, j) > seq by {
                            if j == steps {
                            }
                        }
                        steps = steps + 1;
                    }
                    cur = prev;
                    fuel = fuel - 1;
                },
                _ => {
                    proof {
                        assert(self.swimlane_unit(h, steps + 1) is None);
                        assert forall|k: nat| k <= self.units@.len() implies !#[trigger] self.swimlane_found_at(h, seq, k) by {
                            if k > steps + 1 {
                                assert(!(self.swimlane_unit(h, steps + 1) is Some));
                            }
                        }
                    }
                    return None;
                },
            }
        }
    }
}

/// Whether `new` is `old` with the unit added: the unit is held besides
/// the units held before; every other validator's latest observation and
/// fault stay; the creator's latest observation becomes the unit, unless
/// the creator was faulty (it stays so, with its fault) or the unit does
/// not follow the creator's latest unit (the creator becomes faulty); the
/// weights, parameters and endorsements stay.
pub open spec fn unit_added(old: State, new: State, u: SignedUnitView) -> bool {
    let c = u.unit.creator.0 as int;
    let o0 = old.panorama@[c];
    let o1 = u.unit.panorama[c];
    &&& new.weights == old.weights
    &&& new.params == old.params
    &&& new.endorsements == old.endorsements
    &&& new.incomplete_endorsements == old.incomplete_endorsements
    &&& new.unit_map() == old.unit_map().insert(u.hash, u)
    &&& forall|i: int|
        0 <= i < old.n() && i != c ==> (#[trigger] new.panorama@[i]) == old.panorama@[i] && new.faults@[i]
            == old.faults@[i]
    &&& o0 is Faulty ==> new.panorama@[c] is Faulty && new.faults@[c] == old.faults@[c]
    &&& (o0 !is Faulty && o0 == o1) ==> new.panorama@[c] == Observation::Correct(u.hash) && new.faults@[c]
        == old.faults@[c]
    &&& (o0 !is Faulty && o0 != o1) ==> new.panorama@[c] is Faulty && new.faulty(c)
}

/// Whether `new` is `old` with the evidence added: the perpetrator becomes
/// faulty with this evidence (a copy of its units), unless it was banned or already had direct
/// evidence against it (then nothing changes); nothing else changes.
pub open spec fn evidence_added(old: State, new: State, ev: Evidence) -> bool {
    let p = ev.perpetrator_index() as int;
    &&& new.weights == old.weights
    &&& new.params == old.params
    &&& new.units == old.units
    &&& new.endorsements == old.endorsements
    &&& new.incomplete_endorsements == old.incomplete_endorsements
    &&& if old.banned(p) || old.direct_evidence(p) {
        new.panorama@ == old.panorama@ && new.faults@ == old.faults@
    } else {
        &&& new.panorama@ == old.panorama@.update(p, Observation::Faulty)
        &&& new.faults@.len() == old.faults@.len()
        &&& forall|i: int| 0 <= i < old.faults@.len() && i != p ==> #[trigger] new.faults@[i] == old.faults@[i]
        &&& new.faults@[p] matches Some(Fault::Direct(e)) && same_evidence(e, ev)
    }
}

/// Whether two pieces of evidence consist of the same units.
pub open spec fn same_evidence(a: Evidence, b: Evidence) -> bool {
    match (a, b) {
        (Evidence::Equivocation(a1, a2), Evidence::Equivocation(b1, b2)) => a1@ == b1@ && a2@ == b2@,
    }
}

impl State {
    /// Adds a unit that passed validation against this state. If its creator
    /// was seen as correct and the unit does not follow the creator's latest
    /// unit, the creator equivocated: it becomes faulty, with the evidence of
    /// its two units of that sequence number where they can be found.
    pub fn add_valid_unit(&mut self, swunit: SignedWireUnit)
        requires
            old(self).wf(),
            old(self).pre_validation(swunit@.unit) is Ok,
            old(self).first_missing(swunit@.unit.panorama, 0) is None,
            old(self).validation(swunit@.unit) is Ok,
        ensures
            final(self).wf(),
            final(self).weights == old(self).weights,
            final(self).params == old(self).params,
            final(self).endorsements == old(self).endorsements,
            final(self).incomplete_endorsements == old(self).incomplete_endorsements,
            old(self).holds_unit(swunit@.hash) ==> final(self).units == old(self).units && final(self).panorama
                == old(self).panorama && final(self).faults == old(self).faults,
            !old(self).holds_unit(swunit@.hash) ==> unit_added(*old(self), *final(self), swunit@),
    {
        let hash = swunit.hash();
        if self.has_unit(hash) {
            return;
        }
        let c = swunit.hashed_wire_unit.wire_unit.creator;
        let ci = c.0 as usize;
        let seq = swunit.hashed_wire_unit.wire_unit.seq_number;
        let o0 = self.panorama.get(c);
        let o1 = swunit.hashed_wire_unit.wire_unit.panorama.get(c);
        let ghost view = swunit@;
        proof {
            self.lemma_nothing_missing(view.unit.panorama, 0);
            self.lemma_no_index_error(view.unit.panorama, 0);
        }
        let earlier: Option<SignedWireUnit> = match o0 {
            Observation::Correct(h0) => {
                if o0 != o1 {
                    match self.find_in_swimlane(h0, seq) {
                        Some(x) => self.wire_unit(x),
                        None => None,
                    }
                } else {
                    None
                }
            },
            _ => None,
        };
        let later = swunit.copy();
        self.units.push((hash, swunit));
        proof {
            assert(self.unit_entries() =~= old(self).unit_entries().push((hash, view)));
            assert forall|k: int| 0 <= k < self.units@.len() implies (#[trigger] self.units@[k]).0 == self.units@[k].1@.hash by {
                if k < old(self).units@.len() {
                    assert(self.units@[k] == old(self).units@[k]);
                }
            }
        }
        match o0 {
            Observation::Faulty => {
                proof {
                    assert(self.panorama@ =~= old(self).panorama@.update(ci as int, o0));
                    lemma_push_unit(old(self), self, hash, view, o0);
                }
            },
            Observation::Unseen => {
                if o1 != o0 {
                    proof {
                        assert(o1 is Correct);
                        assert(old(self).holds_unit(o1->Correct_0));
                        assert(old(self).unit_map()[o1->Correct_0].unit.creator.0 == ci);
                        assert(false);
                    }
                }
                self.panorama.observations.set(ci, Observation::Correct(hash));
                proof {
                    lemma_push_unit(old(self), self, hash, view, Observation::Correct(hash));
                }
            },
            Observation::Correct(h0) => {
                if o0 == o1 {
                    self.panorama.observations.set(ci, Observation::Correct(hash));
                    proof {
                        lemma_push_unit(old(self), self, hash, view, Observation::Correct(hash));
                    }
                } else {
                    proof {
                        assert(self.panorama@ =~= old(self).panorama@.update(ci as int, o0));
                        lemma_push_unit(old(self), self, hash, view, o0);
                        assert(self.faults@[ci as int] is None);
                    }
                    match earlier {
                        Some(u0) => {
                            let ev = Evidence::Equivocation(u0, later);
                            proof {
                                assert(ev.perpetrator_index() == c.0);
                            }
                            self.add_evidence(ev);
                        },
                        None => {
                            self.mark_faulty(c);
                        },
                    }
                }
            },
        }
    }
}

/// The endorsers recorded for unit `h` by the first pending entry for it,
/// from entry `from` on; empty if there is none.
pub open spec fn pending_from(es: Seq<Endorsements>, h: u64, from: int) -> Seq<(ValidatorIndex, u64)>
    decreases es.len() - from,
{
    if from < 0 || from >= es.len() {
        Seq::empty()
    } else if es[from].unit == h {
        es[from].endorsers@
    } else {
        pending_from(es, h, from + 1)
    }
}

/// Whether validator `idx` is among the endorsers in `es`.
fn contains_endorser(es: &Vec<(ValidatorIndex, u64)>, idx: ValidatorIndex) -> (r: bool)
    ensures
        r == has_endorser(es@, idx),
{
    let mut i: usize = 0;
    while i < es.len()
        invariant
            i <= es@.len(),
            forall|k: int| 0 <= k < i ==> (#[trigger] es@[k]).0 != idx,
        decreases es@.len() - i,
    {
        if es[i].0 == idx {
            assert(es@[i as int].0 == idx);
            return true;
        }
        i += 1;
    }
    false
}

/// The sum of the weights of the endorsers, in 128 bits.
fn weight_of_endorsers(weights: &Vec<u64>, es: &Vec<(ValidatorIndex, u64)>) -> (r: u128)
    ensures
        r == endorsers_weight(weights@, es@),
{
    let mut acc: u128 = 0;
    let mut i: usize = 0;
    while i < es.len()
        invariant
            i <= es@.len(),
            acc == endorsers_weight(weights@, es@.take(i as int)),
            acc <= i * (u64::MAX as int),
        decreases es@.len() - i,
    {
        assert(es@.take(i as int + 1).drop_last() =~= es@.take(i as int));
        let idx = es[i].0.0 as usize;
        let w: u64 = if idx < weights.len() {
            weights[idx]
        } else {
            0
        };
        assert(acc + w <= (i + 1) * (u64::MAX as int)) by (nonlinear_arith)
            requires
                acc <= i * (u64::MAX as int),
                w <= u64::MAX,
        ;
        assert((i + 1) * (u64::MAX as int) <= u128::MAX) by (nonlinear_arith)
            requires
                i < usize::MAX,
                usize::MAX <= u64::MAX,
        ;
        acc = acc + w as u128;
        i += 1;
    }
    assert(es@.take(es@.len() as int) =~= es@);
    acc
}

/// The sum of the weights, in 128 bits.
fn sum_weights(weights: &Vec<u64>) -> (r: u128)
    ensures
        r == total_weight(weights@),
{
    let mut acc: u128 = 0;
    let mut i: usize = 0;
    while i < weights.len()
        invariant
            i <= weights@.len(),
            acc == total_weight(weights@.take(i as int)),
            acc <= i * (u64::MAX as int),
        decreases weights@.len() - i,
    {
        assert(weights@.take(i as int + 1).drop_last() =~= weights@.take(i as int));
        let w = weights[i];
        assert(acc + w <= (i + 1) * (u64::MAX as int)) by (nonlinear_arith)
            requires
                acc <= i * (u64::MAX as int),
                w <= u64::MAX,
        ;
        assert((i + 1) * (u64::MAX as int) <= u128::MAX) by (nonlinear_arith)
            requires
                i < usize::MAX,
                usize::MAX <= u64::MAX,
        ;
        acc = acc + w as u128;
        i += 1;
    }
    assert(weights@.take(weights@.len() as int) =~= weights@);
    acc
}

impl State {
    /// The endorsers recorded for unit `h` while it is not yet endorsed.
    pub open spec fn pending(&self, h: u64) -> Seq<(ValidatorIndex, u64)> {
        pending_from(self.incomplete_endorsements@, h, 0)
    }

    /// The index of the first pending entry for unit `h`.
    fn find_pending(&self, h: u64) -> (r: Option<usize>)
        ensures
            match r {
                Some(i) => i < self.incomplete_endorsements@.len() && self.incomplete_endorsements@[i as int].unit == h
                    && self.pending(h) == self.incomplete_endorsements@[i as int].endorsers@
                    && forall|k: int| 0 <= k < i ==> (#[trigger] self.incomplete_endorsements@[k]).unit != h,
                None => self.pending(h) == Seq::<(ValidatorIndex, u64)>::empty()
                    && forall|k: int| 0 <= k < self.incomplete_endorsements@.len() ==> (#[trigger] self.incomplete_endorsements@[k]).unit != h,
            },
    {
        let es = &self.incomplete_endorsements;
        let mut i: usize = 0;
        while i < es.len()
            invariant
                i <= es@.len(),
                es@ == self.incomplete_endorsements@,
                self.pending(h) == pending_from(es@, h, i as int),
                forall|k: int| 0 <= k < i ==> (#[trigger] es@[k]).unit != h,
            decreases es@.len() - i,
        {
            if es[i].unit == h {
                return Some(i);
            }
            i += 1;
        }
        None
    }

    /// The endorsements of unit `h`, if it is endorsed.
    pub fn maybe_endorsements(&self, h: u64) -> (r: Option<Endorsements>)
        ensures
            r is Some == self.endorsed(h),
            r matches Some(e) ==> e.unit == h && exists|i: int|
                0 <= i < self.endorsements@.len() && (#[trigger] self.endorsements@[i]).unit == h
                    && self.endorsements@[i].endorsers@ == e.endorsers@,
    {
        let mut i: usize = 0;
        while i < self.endorsements.len()
            invariant
                i <= self.endorsements@.len(),
                forall|k: int| 0 <= k < i ==> (#[trigger] self.endorsements@[k]).unit != h,
            decreases self.endorsements@.len() - i,
        {
            if self.endorsements[i].unit == h {
                let e = self.endorsements[i].copy();
                assert(self.endorsements@[i as int].unit == h);
                return Some(e);
            }
            i += 1;
        }
        None
    }

    /// Whether the state holds endorsements of unit `h` by all of `ids`: it
    /// does if the unit is endorsed, and otherwise if every one of them is
    /// among its pending endorsers.
    pub fn has_all_endorsements(&self, h: u64, ids: &Vec<ValidatorIndex>) -> (r: bool)
        ensures
            r == (self.endorsed(h) || forall|k: int| 0 <= k < ids@.len() ==> has_endorser(self.pending(h), #[trigger] ids@[k])),
    {
        if self.is_endorsed(h) {
            return true;
        }
        let empty: Vec<(ValidatorIndex, u64)> = Vec::new();
        let sigs = match self.find_pending(h) {
            Some(i) => &self.incomplete_endorsements[i].endorsers,
            None => &empty,
        };
        assert(sigs@ == self.pending(h));
        let mut k: usize = 0;
        while k < ids.len()
            invariant
                k <= ids@.len(),
                sigs@ == self.pending(h),
                !self.endorsed(h),
                forall|j: int| 0 <= j < k ==> has_endorser(self.pending(h), #[trigger] ids@[j]),
            decreases ids@.len() - k,
        {
            if !contains_endorser(sigs, ids[k]) {
                assert(!has_endorser(self.pending(h), ids@[k as int]));
                return false;
            }
            k += 1;
        }
        true
    }

    /// Records endorsements of a unit that is not yet endorsed: they join the
    /// pending ones, one per validator, and once their weight exceeds two
    /// thirds of the total the unit is endorsed.
    pub fn add_endorsements(&mut self, endorsements: Endorsements)
        requires
            old(self).wf(),
        ensures
            final(self).wf(),
            final(self).weights == old(self).weights,
            final(self).params == old(self).params,
            final(self).units == old(self).units,
            final(self).panorama == old(self).panorama,
            final(self).faults == old(self).faults,
            old(self).endorsed(endorsements.unit) ==> final(self).endorsements == old(self).endorsements
                && final(self).incomplete_endorsements == old(self).incomplete_endorsements,
            !old(self).endorsed(endorsements.unit) ==> ({
                let merged = merge_endorsers(old(self).pending(endorsements.unit), endorsements.endorsers@);
                let done = endorsers_weight(old(self).weights@, merged) > endorsement_threshold(old(self).weights@);
                &&& forall|h: u64| #[trigger] final(self).endorsed(h) == (old(self).endorsed(h) || (h == endorsements.unit
                    && done))
                &&& !done ==> final(self).pending(endorsements.unit) == merged
            }),
            forall|x: u64| x != endorsements.unit ==> #[trigger] final(self).pending(x) == old(self).pending(x),
    {
        let h = endorsements.unit;
        if self.is_endorsed(h) {
            return;
        }
        let found = self.find_pending(h);
        let mut merged: Vec<(ValidatorIndex, u64)> = match found {
            Some(i) => self.incomplete_endorsements[i].copy().endorsers,
            None => Vec::new(),
        };
        let ghost base = merged@;
        assert(base == old(self).pending(h));
        let new = &endorsements.endorsers;
        let mut i: usize = 0;
        while i < new.len()
            invariant
                i <= new@.len(),
                merged@ == merge_endorsers(base, new@.take(i as int)),
            decreases new@.len() - i,
        {
            assert(new@.take(i as int + 1).drop_last() =~= new@.take(i as int));
            let e = new[i];
            if !contains_endorser(&merged, e.0) {
                merged.push(e);
            }
            i += 1;
        }
        assert(new@.take(new@.len() as int) =~= new@);
        let weight = weight_of_endorsers(&self.weights, &merged);
        let total = sum_weights(&self.weights);
        let threshold = total / 3 * 2;
        if weight > threshold {
            match found {
                Some(i) => {
                    self.incomplete_endorsements.remove(i);
                },
                None => {},
            }
            let ghost old_e = self.endorsements@;
            self.endorsements.push(Endorsements { unit: h, endorsers: merged });
            proof {
                assert forall|x: u64| x != h implies #[trigger] self.pending(x) == old(self).pending(x) by {
                    match found {
                        Some(i) => {
                            lemma_pending_remove_other(old(self).incomplete_endorsements@, i as int, h, x, 0);
                        },
                        None => {},
                    }
                }
                lemma_wf_frame(old(self), self);
                assert forall|x: u64| #[trigger] self.endorsed(x) == (old(self).endorsed(x) || x == h) by {
                    if old(self).endorsed(x) {
                        let k = choose|k: int| 0 <= k < old_e.len() && (#[trigger] old_e[k]).unit == x;
                        assert(self.endorsements@[k] == old_e[k]);
                    }
                    if x == h {
                        assert(self.endorsements@[old_e.len() as int].unit == h);
                    }
                    if self.endorsed(x) {
                        let k = choose|k: int| 0 <= k < self.endorsements@.len() && (#[trigger] self.endorsements@[k]).unit == x;
                        if k < old_e.len() {
                            assert(self.endorsements@[k] == old_e[k]);
                        }
                    }
                }
            }
        } else {
            let entry = Endorsements { unit: h, endorsers: merged };
            match found {
                Some(i) => {
                    self.incomplete_endorsements.set(i, entry);
                    proof {
                        lemma_pending_set(old(self).incomplete_endorsements@, i as int, entry, h, 0);
                        assert forall|x: u64| x != h implies #[trigger] self.pending(x) == old(self).pending(x) by {
                            lemma_pending_set_other(old(self).incomplete_endorsements@, i as int, entry, h, x, 0);
                        }
                    }
                },
                None => {
                    self.incomplete_endorsements.push(entry);
                    proof {
                        lemma_pending_push(old(self).incomplete_endorsements@, entry, h, 0);
                        assert forall|x: u64| x != h implies #[trigger] self.pending(x) == old(self).pending(x) by {
                            lemma_pending_push_other(old(self).incomplete_endorsements@, entry, h, x, 0);
                        }
                    }
                },
            }
            proof {
                lemma_wf_frame(old(self), self);
            }
        }
    }

    /// Adds a unit after checking it: it fails if the unit is invalid or if
    /// the state lacks one of its dependencies.
    pub fn add_unit(&mut self, swunit: SignedWireUnit) -> (r: Result<(), AddUnitError>)
        requires
            old(self).wf(),
        ensures
            final(self).wf(),
            match r {
                Ok(()) => old(self).pre_validation(swunit@.unit) is Ok && old(self).first_missing(
                    swunit@.unit.panorama,
                    0,
                ) is None && old(self).validation(swunit@.unit) is Ok && final(self).holds_unit(swunit@.hash),
                Err(AddUnitError::Invalid(e)) => *final(self) == *old(self) && (old(self).pre_validation(
                    swunit@.unit,
                ) == Err::<(), UnitError>(e) || (old(self).pre_validation(swunit@.unit) is Ok && old(
                    self,
                ).first_missing(swunit@.unit.panorama, 0) is None && old(self).validation(swunit@.unit) == Err::<
                    (),
                    UnitError,
                >(e))),
                Err(AddUnitError::MissingDependency(d)) => *final(self) == *old(self) && old(self).pre_validation(
                    swunit@.unit,
                ) is Ok && old(self).first_missing(swunit@.unit.panorama, 0) == Some(d),
            },
    {
        match self.pre_validate_unit(&swunit) {
            Err(e) => return Err(AddUnitError::Invalid(e)),
            Ok(()) => {},
        }
        match self.missing_dependency(&swunit.hashed_wire_unit.wire_unit.panorama) {
            Some(d) => return Err(AddUnitError::MissingDependency(d)),
            None => {},
        }
        match self.validate_unit(&swunit) {
            Err(e) => return Err(AddUnitError::Invalid(e)),
            Ok(()) => {},
        }
        let ghost hash = swunit@.hash;
        self.add_valid_unit(swunit);
        proof {
            if !old(self).holds_unit(hash) {
                assert(self.unit_map().contains_key(hash));
            }
        }
        Ok(())
    }
}

/// Replacing the first pending entry for `h` replaces what is pending for it.
/// Replacing the entry of unit `h` leaves the pending endorsers of every
/// other unit.
proof fn lemma_pending_set_other(es: Seq<Endorsements>, i: int, entry: Endorsements, h: u64, x: u64, from: int)
    requires
        0 <= i < es.len(),
        0 <= from,
        es[i].unit == h,
        entry.unit == h,
        x != h,
    ensures
        pending_from(es.update(i, entry), x, from) == pending_from(es, x, from),
    decreases es.len() - from,
{
    if from < es.len() {
        lemma_pending_set_other(es, i, entry, h, x, from + 1);
    }
}

/// Appending an entry of unit `h` leaves the pending endorsers of every
/// other unit.
proof fn lemma_pending_push_other(es: Seq<Endorsements>, entry: Endorsements, h: u64, x: u64, from: int)
    requires
        0 <= from,
        entry.unit == h,
        x != h,
    ensures
        pending_from(es.push(entry), x, from) == pending_from(es, x, from),
    decreases es.len() + 1 - from,
{
    if from < es.len() {
        lemma_pending_push_other(es, entry, h, x, from + 1);
    } else if from == es.len() {
        assert(pending_from(es.push(entry), x, from + 1) == Seq::<(ValidatorIndex, u64)>::empty());
    }
}

/// After removing entry `i`, the entries from `k` on are those from `k + 1`
/// on before.
proof fn lemma_pending_shift(es: Seq<Endorsements>, i: int, x: u64, k: int)
    requires
        0 <= i <= k,
        i < es.len(),
    ensures
        pending_from(es.remove(i), x, k) == pending_from(es, x, k + 1),
    decreases es.len() - k,
{
    if k < es.len() - 1 {
        lemma_pending_shift(es, i, x, k + 1);
        assert(es.remove(i)[k] == es[k + 1]);
    }
}

/// Removing the entry of unit `h` leaves the pending endorsers of every
/// other unit.
proof fn lemma_pending_remove_other(es: Seq<Endorsements>, i: int, h: u64, x: u64, from: int)
    requires
        0 <= from <= i < es.len(),
        es[i].unit == h,
        x != h,
    ensures
        pending_from(es.remove(i), x, from) == pending_from(es, x, from),
    decreases i - from,
{
    if from < i {
        lemma_pending_remove_other(es, i, h, x, from + 1);
        assert(es.remove(i)[from] == es[from]);
    } else {
        lemma_pending_shift(es, i, x, i);
    }
}

proof fn lemma_pending_set(es: Seq<Endorsements>, i: int, entry: Endorsements, h: u64, from: int)
    requires
        0 <= from <= i < es.len(),
        es[i].unit == h,
        entry.unit == h,
        pending_from(es, h, from) == es[i].endorsers@,
        forall|k: int| from <= k < i ==> (#[trigger] es[k]).unit != h,
    ensures
        pending_from(es.update(i, entry), h, from) == entry.endorsers@,
    decreases i - from,
{
    if from < i {
        lemma_pending_set(es, i, entry, h, from + 1);
    }
}

/// Appending an entry for `h` when none is pending makes its endorsers pending.
proof fn lemma_pending_push(es: Seq<Endorsements>, entry: Endorsements, h: u64, from: int)
    requires
        0 <= from <= es.len(),
        entry.unit == h,
        pending_from(es, h, from) == Seq::<(ValidatorIndex, u64)>::empty(),
        forall|k: int| from <= k < es.len() ==> (#[trigger] es[k]).unit != h,
    ensures
        pending_from(es.push(entry), h, from) == entry.endorsers@,
    decreases es.len() - from,
{
    if from < es.len() {
        lemma_pending_push(es, entry, h, from + 1);
    }
}

/// Adding a validated unit, with the creator's slot of the panorama set to
/// `obs`, keeps the state's invariant.
pub proof fn lemma_push_unit(old_s: &State, new_s: &State, hash: u64, view: SignedUnitView, obs: Observation)
    requires
        old_s.wf(),
        !old_s.holds_unit(hash),
        view.hash == hash,
        old_s.pre_validation(view.unit) is Ok,
        old_s.first_missing(view.unit.panorama, 0) is None,
        old_s.first_index_error(view.unit.panorama, 0) is None,
        new_s.unit_entries() == old_s.unit_entries().push((hash, view)),
        forall|k: int| 0 <= k < new_s.units@.len() ==> (#[trigger] new_s.units@[k]).0 == new_s.units@[k].1@.hash,
        new_s.weights == old_s.weights,
        new_s.faults@ == old_s.faults@,
        new_s.panorama@ == old_s.panorama@.update(view.unit.creator.0 as int, obs),
        (obs == old_s.panorama@[view.unit.creator.0 as int] && obs != Observation::Unseen) || (obs
            == Observation::Correct(hash) && old_s.panorama@[view.unit.creator.0 as int] !is Faulty),
    ensures
        new_s.wf(),
        new_s.unit_map() == old_s.unit_map().insert(hash, view),
{
    let c = view.unit.creator.0 as int;
    lemma_assoc_push(old_s.unit_entries(), hash, view);
    assert(new_s.unit_map() =~= old_s.unit_map().insert(hash, view));
    old_s.lemma_nothing_missing(view.unit.panorama, 0);
    old_s.lemma_no_index_error(view.unit.panorama, 0);
    assert forall|p: Seq<Observation>| old_s.cites_known(p) implies new_s.cites_known(p) by {
        assert forall|i: int| 0 <= i < p.len() && (#[trigger] p[i]) is Correct implies new_s.holds_unit(p[i]->Correct_0)
            && new_s.unit_map()[p[i]->Correct_0].unit.creator.0 == i by {
            assert(old_s.holds_unit(p[i]->Correct_0));
        }
    }
    assert(old_s.cites_known(view.unit.panorama)) by {
        assert forall|i: int| 0 <= i < view.unit.panorama.len() && (#[trigger] view.unit.panorama[i]) is Correct
            implies old_s.holds_unit(view.unit.panorama[i]->Correct_0)
            && old_s.unit_map()[view.unit.panorama[i]->Correct_0].unit.creator.0 == i by {
        }
    }
    assert forall|h: u64| #[trigger] new_s.holds_unit(h) implies ({
        let u = new_s.unit_map()[h];
        &&& (u.unit.creator.0 as int) < new_s.n()
        &&& u.unit.panorama.len() == new_s.n()
        &&& new_s.cites_known(u.unit.panorama)
        &&& new_s.panorama@[u.unit.creator.0 as int] != Observation::Unseen
    }) by {
        if h != hash {
            assert(old_s.holds_unit(h));
            let u = old_s.unit_map()[h];
            assert(old_s.cites_known(u.unit.panorama));
            if u.unit.creator.0 as int != c {
                assert(new_s.panorama@[u.unit.creator.0 as int] == old_s.panorama@[u.unit.creator.0 as int]);
            }
        }
    }
    assert(new_s.cites_known(new_s.panorama@)) by {
        assert forall|i: int| 0 <= i < new_s.panorama@.len() && (#[trigger] new_s.panorama@[i]) is Correct implies new_s.holds_unit(
            new_s.panorama@[i]->Correct_0,
        ) && new_s.unit_map()[new_s.panorama@[i]->Correct_0].unit.creator.0 == i by {
            if i != c {
                assert(new_s.panorama@[i] == old_s.panorama@[i]);
                assert(old_s.holds_unit(old_s.panorama@[i]->Correct_0));
            } else if obs != Observation::Correct(hash) {
                assert(old_s.holds_unit(old_s.panorama@[i]->Correct_0));
            }
        }
    }
    assert forall|i: int| 0 <= i < new_s.n() implies ((#[trigger] new_s.panorama@[i]) is Faulty <==> new_s.faults@[i] is Some) by {
        if i != c {
            assert(new_s.panorama@[i] == old_s.panorama@[i]);
        } else {
            assert(old_s.panorama@[c] is Faulty <==> old_s.faults@[c] is Some);
        }
    }
}

/// The invariant only depends on the weights, units, panorama and faults.
pub proof fn lemma_wf_frame(a: &State, b: &State)
    requires
        a.wf(),
        b.weights == a.weights,
        b.units == a.units,
        b.panorama == a.panorama,
        b.faults == a.faults,
    ensures
        b.wf(),
{
    lemma_same_units(a, b);
    assert forall|h: u64| #[trigger] b.holds_unit(h) implies ({
        let u = b.unit_map()[h];
        &&& (u.unit.creator.0 as int) < b.n()
        &&& u.unit.panorama.len() == b.n()
        &&& b.cites_known(u.unit.panorama)
        &&& b.panorama@[u.unit.creator.0 as int] != Observation::Unseen
    }) by {
        assert(a.holds_unit(h));
    }
}

/// Two states with the same units hold the same units and agree on which
/// panoramas cite known units.
pub proof fn lemma_same_units(a: &State, b: &State)
    requires
        a.units == b.units,
    ensures
        a.unit_map() == b.unit_map(),
        forall|p: Seq<Observation>| #[trigger] a.cites_known(p) == b.cites_known(p),
{
    assert(a.unit_entries() == b.unit_entries());
}

} // verus!
