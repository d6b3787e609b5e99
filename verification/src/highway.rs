//! A passive instance of the Highway protocol: it checks incoming vertices,
//! finds what they depend on, and adds them to its protocol state.
//!
//! A vertex goes through three steps: initial validation against its contents
//! alone, a wait until every dependency is in the state, and full validation,
//! after which it can be added.

use vstd::prelude::*;

use crate::highway_state::{
    endorsement_threshold, endorsers_weight, evidence_added, has_endorser, merge_endorsers, unit_added, Fault, Params,
    State, UnitError,
};
use crate::highway_types::{
    endorsement_hash, equivocation_check, signature_of, verify_signature, Dependency, Endorsement,
    Endorsements, Evidence, EvidenceError, SignedUnitView, SignedWireUnit, ValidatorIndex, Validators,
    Vertex,
};

verus! {

/// Why endorsements are invalid.
#[derive(Copy, Clone, Debug, PartialEq, Eq, Structural)]
pub enum EndorsementError {
    /// There are no endorsements.
    Empty,
    /// An endorser is not a validator.
    Creator,
    /// An endorser is banned.
    Banned,
    /// A signature is invalid.
    Signature,
}

/// An error due to an invalid vertex.
#[derive(Copy, Clone, Debug, PartialEq, Eq, Structural)]
pub enum VertexError {
    /// The vertex contains an invalid unit.
    Unit(UnitError),
    /// The vertex contains invalid evidence.
    Evidence(EvidenceError),
    /// The endorsements contain an invalid entry.
    Endorsement(EndorsementError),
}

/// A vertex that passed initial validation.
#[derive(Clone, Debug, PartialEq, Eq)]
pub struct PreValidatedVertex(pub Vertex);

/// A vertex that passed full validation against this instance's state.
#[derive(Clone, Debug, PartialEq, Eq)]
pub struct ValidVertex(pub Vertex);

impl PreValidatedVertex {
    /// The vertex.
    pub fn inner(&self) -> (r: &Vertex)
        ensures
            r == self.0,
    {
        &self.0
    }

    /// The unit's timestamp, if the vertex is a unit.
    pub fn timestamp(&self) -> (r: Option<u64>)
        ensures
            r == match self.0 {
                Vertex::Unit(u) => Some(u@.unit.timestamp),
                _ => None,
            },
    {
        self.0.timestamp()
    }

    /// The vertex, taken out.
    pub fn into_vertex(self) -> (r: Vertex)
        ensures
            r == self.0,
    {
        self.0
    }
}

impl ValidVertex {
    /// The vertex.
    pub fn inner(&self) -> (r: &Vertex)
        ensures
            r == self.0,
    {
        &self.0
    }

    /// Whether the vertex proposes a value.
    pub fn is_proposal(&self) -> (r: bool)
        ensures
            r == (self.0 matches Vertex::Unit(u) && u@.unit.value is Some),
    {
        self.0.value().is_some()
    }

    /// The endorsements, if the vertex holds endorsements.
    pub fn endorsements(&self) -> (r: Option<&Endorsements>)
        ensures
            r == match self.0 {
                Vertex::Endorsements(e) => Some(&e),
                _ => None,
            },
    {
        match &self.0 {
            Vertex::Endorsements(e) => Some(e),
            _ => None,
        }
    }
}

/// Whether and how a requested dependency is satisfied.
#[derive(Clone, Debug, PartialEq, Eq)]
pub enum GetDepOutcome {
    /// We don't have this dependency.
    Unavailable,
    /// This vertex satisfies the dependency.
    Vertex(ValidVertex),
    /// The dependency must be satisfied by evidence against this validator,
    /// of which this instance holds none itself.
    Evidence(u32),
}

/// What the protocol asks its environment to do.
#[derive(Clone, Debug, PartialEq, Eq)]
pub enum Effect {
    /// Gossip a new vertex.
    NewVertex(ValidVertex),
    /// Call back at this timestamp.
    ScheduleTimer(u64),
    /// Ask for a block to propose at this timestamp.
    RequestNewBlock(u64),
    /// This node's own validator is faulty.
    WeAreFaulty(Fault),
}

/// A passive instance of the Highway protocol, containing its local state.
pub struct Highway {
    /// The protocol instance ID, unique to prevent replay attacks.
    pub instance_id: u64,
    /// The validator IDs and weights.
    pub validators: Validators,
    /// The abstract protocol state.
    pub state: State,
    /// The validator this node runs, while it takes part in the protocol.
    pub active_validator: Option<ValidatorIndex>,
}

/// The first invalid entry among the endorsers of `unit`, from entry `from` on.
pub open spec fn endorser_error(
    h: Highway,
    unit: u64,
    es: Seq<(ValidatorIndex, u64)>,
    from: int,
) -> Option<EndorsementError>
    decreases es.len() - from,
{
    if from < 0 || from >= es.len() {
        None
    } else {
        let (creator, signature) = es[from];
        if !((creator.0 as int) < h.validators.validators@.len()) {
            Some(EndorsementError::Creator)
        } else if h.state.banned(creator.0 as int) {
            Some(EndorsementError::Banned)
        } else if signature != signature_of(
            endorsement_hash(unit, creator),
            h.validators.validators@[creator.0 as int].id,
        ) {
            Some(EndorsementError::Signature)
        } else {
            endorser_error(h, unit, es, from + 1)
        }
    }
}

/// The least unit among `endorsed` that `state` does not hold as endorsed.
pub open spec fn least_unendorsed(state: State, endorsed: Seq<u64>) -> Option<u64> {
    if exists|h: u64| is_least_unendorsed(state, endorsed, h) {
        Some(choose|h: u64| is_least_unendorsed(state, endorsed, h))
    } else {
        None
    }
}

/// Whether `h` is the least unit among `endorsed` that is not endorsed.
pub open spec fn is_least_unendorsed(state: State, endorsed: Seq<u64>, h: u64) -> bool {
    &&& endorsed.contains(h)
    &&& !state.endorsed(h)
    &&& forall|k: int| 0 <= k < endorsed.len() && !state.endorsed(#[trigger] endorsed[k]) ==> h <= endorsed[k]
}

impl Highway {
    /// The instance's invariant.
    pub open spec fn wf(&self) -> bool {
        &&& self.state.wf()
        &&& self.state.n() == self.validators.validators@.len()
    }

    /// The outcome of the initial checks of a unit.
    pub open spec fn unit_check(&self, u: SignedUnitView) -> Result<(), VertexError> {
        let c = u.unit.creator.0 as int;
        if !(c < self.validators.validators@.len()) {
            Err(VertexError::Unit(UnitError::Creator))
        } else if u.unit.instance_id != self.instance_id {
            Err(VertexError::Unit(UnitError::InstanceId))
        } else if u.signature != signature_of(u.hash, self.validators.validators@[c].id) {
            Err(VertexError::Unit(UnitError::Signature))
        } else {
            match self.state.pre_validation(u.unit) {
                Err(e) => Err(VertexError::Unit(e)),
                Ok(()) => Ok(()),
            }
        }
    }

    /// The outcome of the initial checks of a vertex.
    pub open spec fn pre_check(&self, v: Vertex) -> Result<(), VertexError> {
        match v {
            Vertex::Unit(u) => self.unit_check(u@),
            Vertex::Evidence(Evidence::Equivocation(a, b)) => match equivocation_check(
                a@,
                b@,
                self.validators.validators@,
                self.instance_id,
            ) {
                Err(e) => Err(VertexError::Evidence(e)),
                Ok(()) => Ok(()),
            },
            Vertex::Endorsements(e) => if e.endorsers@.len() == 0 {
                Err(VertexError::Endorsement(EndorsementError::Empty))
            } else {
                match endorser_error(*self, e.unit, e.endorsers@, 0) {
                    Some(err) => Err(VertexError::Endorsement(err)),
                    None => Ok(()),
                }
            },
        }
    }

    /// The next dependency of a vertex that the state lacks.
    pub open spec fn missing(&self, v: Vertex) -> Option<Dependency> {
        match v {
            Vertex::Evidence(_) => None,
            Vertex::Endorsements(e) => if self.state.holds_unit(e.unit) {
                None
            } else {
                Some(Dependency::Unit(e.unit))
            },
            Vertex::Unit(u) => match self.state.first_missing(u@.unit.panorama, 0) {
                Some(d) => Some(d),
                None => match least_unendorsed(self.state, u@.unit.endorsed) {
                    Some(h) => Some(Dependency::Endorsement(h)),
                    None => None,
                },
            },
        }
    }

    /// The outcome of the checks of a vertex against its dependencies.
    pub open spec fn full_check(&self, v: Vertex) -> Result<(), VertexError> {
        match v {
            Vertex::Unit(u) => match self.state.validation(u@.unit) {
                Err(e) => Err(VertexError::Unit(e)),
                Ok(()) => Ok(()),
            },
            _ => Ok(()),
        }
    }

    /// Whether the state already holds what the vertex carries.
    pub open spec fn holds_vertex(&self, v: Vertex) -> bool {
        match v {
            Vertex::Unit(u) => self.state.holds_unit(u@.hash),
            Vertex::Evidence(ev) => self.state.direct_evidence(ev.perpetrator_index() as int),
            Vertex::Endorsements(e) => self.state.endorsed(e.unit) || forall|k: int|
                0 <= k < e.endorsers@.len() ==> has_endorser(self.state.pending(e.unit), (#[trigger] e.endorsers@[k]).0),
        }
    }

    /// Creates a new instance: all participants must agree on the parameters.
    pub fn new(instance_id: u64, validators: Validators, params: Params) -> (r: Highway)
        requires
            validators.validators@.len() <= u32::MAX,
        ensures
            r.wf(),
            r.instance_id == instance_id,
            r.validators == validators,
            r.active_validator is None,
            r.state.units@.len() == 0,
            forall|i: int| 0 <= i < validators.validators@.len() ==> (r.state.faulty(i) <==> (#[trigger] validators.validators@[i]).banned),
    {
        let weights = validators.weights();
        let banned = validators.banned_indices();
        let state = State::new(weights, params, banned);
        proof {
            assert forall|i: int| 0 <= i < validators.validators@.len() implies (state.faulty(i) <==> (#[trigger] validators.validators@[i]).banned) by {
                if validators.validators@[i].banned {
                    assert(banned@.contains(ValidatorIndex(i as u32)));
                } else if banned@.contains(ValidatorIndex(i as u32)) {
                    let k = choose|k: int| 0 <= k < banned@.len() && banned@[k] == ValidatorIndex(i as u32);
                    assert(crate::highway_types::is_banned_index(validators.validators@, banned@[k]));
                }
            }
        }
        Highway { instance_id, validators, state, active_validator: None }
    }

    /// Turns this instance into an active validator run by this node.
    pub fn activate_validator(&mut self, id: u32) -> (r: bool)
        requires
            old(self).wf(),
        ensures
            final(self).wf(),
            final(self).state == old(self).state,
            final(self).validators == old(self).validators,
            final(self).instance_id == old(self).instance_id,
            r == (old(self).active_validator is None && exists|k: int|
                0 <= k < old(self).validators.validators@.len() && (#[trigger] old(self).validators.validators@[k]).id == id),
            r ==> (final(self).active_validator matches Some(idx) && old(self).validators.validators@[idx.0 as int].id == id),
            !r ==> final(self).active_validator == old(self).active_validator,
    {
        if self.active_validator.is_some() {
            return false;
        }
        match self.validators.get_index(id) {
            Some(idx) => {
                self.active_validator = Some(idx);
                true
            },
            None => false,
        }
    }

    /// Turns this instance into a passive observer.
    pub fn deactivate_validator(&mut self)
        ensures
            final(self).active_validator is None,
            final(self).state == old(self).state,
            final(self).validators == old(self).validators,
            final(self).instance_id == old(self).instance_id,
    {
        self.active_validator = None;
    }

    /// Whether this instance is an active validator.
    pub fn is_active(&self) -> (r: bool)
        ensures
            r == self.active_validator is Some,
    {
        self.active_validator.is_some()
    }

    /// The instance ID.
    pub fn instance_id(&self) -> (r: u64)
        ensures
            r == self.instance_id,
    {
        self.instance_id
    }

    /// The validators.
    pub fn validators(&self) -> (r: &Validators)
        ensures
            r == self.validators,
    {
        &self.validators
    }

    /// The protocol state.
    pub fn state(&self) -> (r: &State)
        ensures
            r == self.state,
    {
        &self.state
    }

    /// The initial checks of a unit.
    fn pre_validate_unit(&self, unit: &SignedWireUnit) -> (r: Result<(), VertexError>)
        requires
            self.wf(),
        ensures
            r == self.unit_check(unit@),
    {
        let w = unit.wire_unit();
        let v_id = match self.validators.id(w.creator) {
            Some(v) => v,
            None => return Err(VertexError::Unit(UnitError::Creator)),
        };
        if w.instance_id != self.instance_id {
            return Err(VertexError::Unit(UnitError::InstanceId));
        }
        if !verify_signature(unit.hash(), v_id, unit.signature) {
            return Err(VertexError::Unit(UnitError::Signature));
        }
        match self.state.pre_validate_unit(unit) {
            Err(e) => Err(VertexError::Unit(e)),
            Ok(()) => Ok(()),
        }
    }

    /// The initial checks of endorsements.
    fn pre_validate_endorsements(&self, e: &Endorsements) -> (r: Result<(), VertexError>)
        requires
            self.wf(),
        ensures
            r == self.pre_check(Vertex::Endorsements(*e)),
    {
        if e.endorsers.len() == 0 {
            return Err(VertexError::Endorsement(EndorsementError::Empty));
        }
        let mut i: usize = 0;
        while i < e.endorsers.len()
            invariant
                i <= e.endorsers@.len(),
                self.wf(),
                endorser_error(*self, e.unit, e.endorsers@, 0) == endorser_error(*self, e.unit, e.endorsers@, i as int),
            decreases e.endorsers@.len() - i,
        {
            let (creator, signature) = e.endorsers[i];
            let v_id = match self.validators.id(creator) {
                Some(v) => v,
                None => return Err(VertexError::Endorsement(EndorsementError::Creator)),
            };
            match self.state.maybe_fault(creator) {
                Some(Fault::Banned) => return Err(VertexError::Endorsement(EndorsementError::Banned)),
                _ => {},
            }
            let endorsement = Endorsement::new(e.unit, creator);
            if !verify_signature(endorsement.hash(), v_id, signature) {
                return Err(VertexError::Endorsement(EndorsementError::Signature));
            }
            i += 1;
        }
        Ok(())
    }

    /// Initial validation: fails, handing the vertex back, if it is invalid
    /// on its contents alone.
    pub fn pre_validate_vertex(&self, vertex: Vertex) -> (r: Result<PreValidatedVertex, (Vertex, VertexError)>)
        requires
            self.wf(),
        ensures
            match r {
                Ok(pvv) => pvv.0 == vertex && self.pre_check(vertex) is Ok,
                Err((v, e)) => v == vertex && self.pre_check(vertex) == Err::<(), VertexError>(e),
            },
    {
        let checked = match &vertex {
            Vertex::Unit(unit) => self.pre_validate_unit(unit),
            Vertex::Evidence(evidence) => match evidence.validate(&self.validators, self.instance_id) {
                Err(e) => Err(VertexError::Evidence(e)),
                Ok(()) => Ok(()),
            },
            Vertex::Endorsements(e) => self.pre_validate_endorsements(e),
        };
        match checked {
            Err(e) => Err((vertex, e)),
            Ok(()) => Ok(PreValidatedVertex(vertex)),
        }
    }

    /// The next missing dependency of a pre-validated vertex, or `None` if
    /// everything it depends on is in the state.
    pub fn missing_dependency(&self, pvv: &PreValidatedVertex) -> (r: Option<Dependency>)
        requires
            self.wf(),
            self.pre_check(pvv.0) is Ok,
        ensures
            r == self.missing(pvv.0),
    {
        match &pvv.0 {
            Vertex::Evidence(_) => None,
            Vertex::Endorsements(e) => {
                if !self.state.has_unit(e.unit) {
                    Some(Dependency::Unit(e.unit))
                } else {
                    None
                }
            },
            Vertex::Unit(unit) => {
                match self.state.missing_dependency(&unit.hashed_wire_unit.wire_unit.panorama) {
                    Some(d) => Some(d),
                    None => {
                        let r = self.state.needs_endorsements(unit);
                        proof {
                            let e = unit@.unit.endorsed;
                            match r {
                                Some(h) => {
                                    assert(is_least_unendorsed(self.state, e, h));
                                    let c = choose|x: u64| is_least_unendorsed(self.state, e, x);
                                    assert(is_least_unendorsed(self.state, e, c));
                                    let kc = choose|k: int| 0 <= k < e.len() && e[k] == c;
                                    let kh = choose|k: int| 0 <= k < e.len() && e[k] == h;
                                    assert(h <= e[kc]);
                                    assert(c <= e[kh]);
                                },
                                None => {
                                    assert forall|x: u64| !is_least_unendorsed(self.state, e, x) by {
                                        if e.contains(x) {
                                            let k = choose|k: int| 0 <= k < e.len() && e[k] == x;
                                            assert(self.state.endorsed(e[k]));
                                        }
                                    }
                                },
                            }
                        }
                        match r {
                            Some(h) => Some(Dependency::Endorsement(h)),
                            None => None,
                        }
                    },
                }
            },
        }
    }

    /// Full validation of a vertex whose dependencies are all in the state.
    pub fn validate_vertex(&self, pvv: PreValidatedVertex) -> (r: Result<ValidVertex, (PreValidatedVertex, VertexError)>)
        requires
            self.wf(),
            self.pre_check(pvv.0) is Ok,
            self.missing(pvv.0) is None,
        ensures
            match r {
                Ok(vv) => vv.0 == pvv.0 && self.full_check(pvv.0) is Ok,
                Err((p, e)) => p == pvv && self.full_check(pvv.0) == Err::<(), VertexError>(e),
            },
    {
        let checked = match &pvv.0 {
            Vertex::Unit(unit) => match self.state.validate_unit(unit) {
                Err(e) => Err(VertexError::Unit(e)),
                Ok(()) => Ok(()),
            },
            _ => Ok(()),
        };
        match checked {
            Err(e) => Err((pvv, e)),
            Ok(()) => Ok(ValidVertex(pvv.0)),
        }
    }
}

/// The ids of the validators against which `state` holds direct evidence,
/// among the first `upto`, in index order.
pub open spec fn ids_with_evidence(vs: Seq<crate::highway_types::Validator>, state: State, upto: int) -> Seq<u32>
    decreases upto,
{
    if upto <= 0 {
        Seq::empty()
    } else {
        let before = ids_with_evidence(vs, state, upto - 1);
        if state.direct_evidence(upto - 1) {
            before.push(vs[upto - 1].id)
        } else {
            before
        }
    }
}

/// Whether `k` is the first index of a validator with id `id`.
pub open spec fn is_first_index(vs: Seq<crate::highway_types::Validator>, id: u32, k: int) -> bool {
    &&& 0 <= k < vs.len()
    &&& vs[k].id == id
    &&& forall|j: int| 0 <= j < k ==> (#[trigger] vs[j]).id != id
}

/// What adding a vertex the state did not hold does: the state now holds
/// it, and the effects are the gossip of evidence learned for the first time.
pub open spec fn vertex_added(old_h: Highway, new_h: Highway, v: Vertex, effects: Seq<Effect>) -> bool {
    match v {
        Vertex::Unit(u) => {
            let c = u@.unit.creator.0 as int;
            &&& new_h.state.holds_unit(u@.hash)
            &&& unit_added(old_h.state, new_h.state, u@)
            &&& effects.len() <= 1
            &&& effects.len() == 1 <==> (!old_h.state.faulty(c) && new_h.state.direct_evidence(c))
            &&& effects.len() == 1 ==> effects[0] matches Effect::NewVertex(ValidVertex(Vertex::Evidence(_)))
        },
        Vertex::Evidence(ev) => {
            &&& evidence_added(old_h.state, new_h.state, ev)
            &&& new_h.state.direct_evidence(ev.perpetrator_index() as int) || new_h.state.banned(
                ev.perpetrator_index() as int,
            )
            &&& effects == if old_h.state.banned(ev.perpetrator_index() as int) {
                Seq::<Effect>::empty()
            } else {
                seq![Effect::NewVertex(ValidVertex(Vertex::Evidence(ev)))]
            }
        },
        Vertex::Endorsements(e) => {
            &&& effects.len() == 0
            &&& new_h.state.weights == old_h.state.weights
            &&& new_h.state.params == old_h.state.params
            &&& forall|x: u64| x != e.unit ==> #[trigger] new_h.state.pending(x) == old_h.state.pending(x)
            &&& new_h.state.units == old_h.state.units
            &&& new_h.state.panorama == old_h.state.panorama
            &&& new_h.state.faults == old_h.state.faults
            &&& old_h.state.endorsed(e.unit) ==> new_h.state.endorsements == old_h.state.endorsements
            &&& old_h.state.endorsed(e.unit) ==> new_h.state.incomplete_endorsements
                == old_h.state.incomplete_endorsements
            &&& !old_h.state.endorsed(e.unit) ==> ({
                let merged = merge_endorsers(old_h.state.pending(e.unit), e.endorsers@);
                let done = endorsers_weight(old_h.state.weights@, merged) > endorsement_threshold(old_h.state.weights@);
                &&& forall|h: u64| #[trigger] new_h.state.endorsed(h) == (old_h.state.endorsed(h) || (h == e.unit && done))
                &&& !done ==> new_h.state.pending(e.unit) == merged
            })
        },
    }
}

impl Highway {
    /// The effects of learning new evidence: it is gossiped.
    fn on_new_evidence(&self, evidence: Evidence) -> (r: Vec<Effect>)
        ensures
            r@ == seq![Effect::NewVertex(ValidVertex(Vertex::Evidence(evidence)))],
    {
        let mut effects: Vec<Effect> = Vec::new();
        effects.push(Effect::NewVertex(ValidVertex(Vertex::Evidence(evidence))));
        effects
    }

    /// Adds a valid unit; if it shows for the first time that its creator is
    /// faulty, the evidence is gossiped.
    fn add_valid_unit(&mut self, swunit: SignedWireUnit, now: u64) -> (r: Vec<Effect>)
        requires
            old(self).wf(),
            old(self).state.pre_validation(swunit@.unit) is Ok,
            old(self).state.first_missing(swunit@.unit.panorama, 0) is None,
            old(self).state.validation(swunit@.unit) is Ok,
            !old(self).state.holds_unit(swunit@.hash),
        ensures
            final(self).wf(),
            final(self).validators == old(self).validators,
            final(self).instance_id == old(self).instance_id,
            final(self).active_validator == old(self).active_validator,
            final(self).state.holds_unit(swunit@.hash),
            unit_added(old(self).state, final(self).state, swunit@),
            ({
                let c = swunit@.unit.creator.0 as int;
                &&& r@.len() <= 1
                &&& r@.len() == 1 <==> (!old(self).state.faulty(c) && final(self).state.direct_evidence(c))
                &&& r@.len() == 1 ==> r@[0] matches Effect::NewVertex(ValidVertex(Vertex::Evidence(_)))
            }),
    {
        let hash = swunit.hash();
        let creator = swunit.hashed_wire_unit.wire_unit.creator;
        let was_honest = !self.state.is_faulty(creator);
        self.state.add_valid_unit(swunit);
        proof {
            assert(self.state.unit_map().contains_key(hash));
        }
        match self.state.maybe_evidence(creator) {
            Some(ev) => {
                if was_honest {
                    self.on_new_evidence(ev)
                } else {
                    Vec::new()
                }
            },
            None => Vec::new(),
        }
    }

    /// Adds evidence; gossips it if it is the first evidence against its perpetrator.
    fn add_evidence(&mut self, evidence: Evidence) -> (r: Vec<Effect>)
        requires
            old(self).wf(),
            (evidence.perpetrator_index() as int) < old(self).state.n(),
        ensures
            final(self).wf(),
            final(self).validators == old(self).validators,
            final(self).instance_id == old(self).instance_id,
            final(self).active_validator == old(self).active_validator,
            final(self).state.direct_evidence(evidence.perpetrator_index() as int) || final(self).state.banned(
                evidence.perpetrator_index() as int,
            ),
            evidence_added(old(self).state, final(self).state, evidence),
            r@ == if old(self).state.banned(evidence.perpetrator_index() as int) || old(self).state.direct_evidence(
                evidence.perpetrator_index() as int,
            ) {
                Seq::<Effect>::empty()
            } else {
                seq![Effect::NewVertex(ValidVertex(Vertex::Evidence(evidence)))]
            },
    {
        let copy = evidence.copy();
        assert(copy.perpetrator_index() == evidence.perpetrator_index());
        if self.state.add_evidence(copy) {
            self.on_new_evidence(evidence)
        } else {
            Vec::new()
        }
    }

    /// Adds a validated vertex to the protocol state, unless the state
    /// already holds it, and returns the effects. Adding a vertex that is
    /// held already does nothing, so adding a vertex twice is adding it
    /// once.
    pub fn add_valid_vertex(&mut self, vv: ValidVertex, now: u64) -> (r: Vec<Effect>)
        requires
            old(self).wf(),
            !old(self).holds_vertex(vv.0) ==> old(self).pre_check(vv.0) is Ok && old(self).missing(vv.0) is None
                && old(self).full_check(vv.0) is Ok,
        ensures
            final(self).wf(),
            final(self).validators == old(self).validators,
            final(self).instance_id == old(self).instance_id,
            final(self).active_validator == old(self).active_validator,
            old(self).holds_vertex(vv.0) ==> r@.len() == 0 && *final(self) == *old(self),
            !old(self).holds_vertex(vv.0) ==> vertex_added(*old(self), *final(self), vv.0, r@),
    {
        if self.has_vertex(&vv.0) {
            return Vec::new();
        }
        match vv.0 {
            Vertex::Unit(unit) => self.add_unit_vertex(unit, now),
            Vertex::Evidence(evidence) => self.add_evidence_vertex(evidence),
            Vertex::Endorsements(endorsements) => self.add_endorsements_vertex(endorsements),
        }
    }

    /// Adds a validated unit that the state does not hold yet.
    fn add_unit_vertex(&mut self, unit: SignedWireUnit, now: u64) -> (r: Vec<Effect>)
        requires
            old(self).wf(),
            old(self).pre_check(Vertex::Unit(unit)) is Ok,
            old(self).missing(Vertex::Unit(unit)) is None,
            old(self).full_check(Vertex::Unit(unit)) is Ok,
            !old(self).holds_vertex(Vertex::Unit(unit)),
        ensures
            final(self).wf(),
            final(self).validators == old(self).validators,
            final(self).instance_id == old(self).instance_id,
            final(self).active_validator == old(self).active_validator,
            vertex_added(*old(self), *final(self), Vertex::Unit(unit), r@),
    {
        self.add_valid_unit(unit, now)
    }

    /// Adds validated evidence that the state does not hold yet.
    fn add_evidence_vertex(&mut self, evidence: Evidence) -> (r: Vec<Effect>)
        requires
            old(self).wf(),
            old(self).pre_check(Vertex::Evidence(evidence)) is Ok,
            !old(self).holds_vertex(Vertex::Evidence(evidence)),
        ensures
            final(self).wf(),
            final(self).validators == old(self).validators,
            final(self).instance_id == old(self).instance_id,
            final(self).active_validator == old(self).active_validator,
            vertex_added(*old(self), *final(self), Vertex::Evidence(evidence), r@),
    {
        self.add_evidence(evidence)
    }

    /// Adds validated endorsements that the state does not hold yet.
    fn add_endorsements_vertex(&mut self, endorsements: Endorsements) -> (r: Vec<Effect>)
        requires
            old(self).wf(),
        ensures
            final(self).wf(),
            final(self).validators == old(self).validators,
            final(self).instance_id == old(self).instance_id,
            final(self).active_validator == old(self).active_validator,
            vertex_added(*old(self), *final(self), Vertex::Endorsements(endorsements), r@),
    {
        self.state.add_endorsements(endorsements);
        Vec::new()
    }

    /// Whether the vertex is already part of the protocol state.
    pub fn has_vertex(&self, vertex: &Vertex) -> (r: bool)
        requires
            self.wf(),
        ensures
            r == self.holds_vertex(*vertex),
    {
        match vertex {
            Vertex::Unit(unit) => self.state.has_unit(unit.hash()),
            Vertex::Evidence(evidence) => self.state.has_evidence(evidence.perpetrator()),
            Vertex::Endorsements(endorsements) => {
                let mut ids: Vec<ValidatorIndex> = Vec::new();
                let mut i: usize = 0;
                while i < endorsements.endorsers.len()
                    invariant
                        i <= endorsements.endorsers@.len(),
                        ids@.len() == i,
                        forall|k: int| 0 <= k < i ==> ids@[k] == (#[trigger] endorsements.endorsers@[k]).0,
                    decreases endorsements.endorsers@.len() - i,
                {
                    ids.push(endorsements.endorsers[i].0);
                    i += 1;
                }
                let r = self.state.has_all_endorsements(endorsements.unit, &ids);
                proof {
                    let pend = self.state.pending(endorsements.unit);
                    let es = endorsements.endorsers@;
                    assert((forall|k: int| 0 <= k < ids@.len() ==> has_endorser(pend, #[trigger] ids@[k])) == (forall|k: int|
                        0 <= k < es.len() ==> has_endorser(pend, (#[trigger] es[k]).0))) by {
                        if forall|k: int| 0 <= k < ids@.len() ==> has_endorser(pend, #[trigger] ids@[k]) {
                            assert forall|k: int| 0 <= k < es.len() implies has_endorser(pend, (#[trigger] es[k]).0) by {
                                assert(has_endorser(pend, ids@[k]));
                            }
                        }
                        if forall|k: int| 0 <= k < es.len() ==> has_endorser(pend, (#[trigger] es[k]).0) {
                            assert forall|k: int| 0 <= k < ids@.len() implies has_endorser(pend, #[trigger] ids@[k]) by {
                                assert(has_endorser(pend, es[k].0));
                            }
                        }
                    }
                }
                r
            },
        }
    }

    /// Whether the validator with this id is known to be faulty and we hold evidence.
    pub fn has_evidence(&self, vid: u32) -> (r: bool)
        requires
            self.wf(),
        ensures
            r == exists|k: int| #[trigger] is_first_index(self.validators.validators@, vid, k) && self.state.direct_evidence(k),
    {
        match self.validators.get_index(vid) {
            Some(idx) => {
                let r = self.state.has_evidence(idx);
                proof {
                    assert(is_first_index(self.validators.validators@, vid, idx.0 as int));
                    assert forall|k: int| #[trigger] is_first_index(self.validators.validators@, vid, k) implies k == idx.0 as int by {
                        if k < idx.0 as int {
                            assert(self.validators.validators@[k].id != vid);
                        } else if k > idx.0 as int {
                            assert(self.validators.validators@[idx.0 as int].id != vid);
                        }
                    }
                }
                r
            },
            None => false,
        }
    }

    /// Marks the validator with this id as faulty, if it exists.
    pub fn mark_faulty(&mut self, vid: u32)
        requires
            old(self).wf(),
        ensures
            final(self).wf(),
            final(self).validators == old(self).validators,
            final(self).instance_id == old(self).instance_id,
            final(self).active_validator == old(self).active_validator,
            final(self).state.units == old(self).state.units,
            forall|k: int| #[trigger] is_first_index(old(self).validators.validators@, vid, k) ==> final(self).state.faulty(k),
            (forall|k: int| !#[trigger] is_first_index(old(self).validators.validators@, vid, k)) ==> final(self).state
                == old(self).state,
    {
        match self.validators.get_index(vid) {
            Some(idx) => {
                self.state.mark_faulty(idx);
                proof {
                    assert forall|k: int| #[trigger] is_first_index(old(self).validators.validators@, vid, k) implies self.state.faulty(k) by {
                        if k < idx.0 as int {
                            assert(self.validators.validators@[k].id != vid);
                        } else if k > idx.0 as int {
                            assert(self.validators.validators@[idx.0 as int].id != vid);
                        }
                    }
                    assert(is_first_index(old(self).validators.validators@, vid, idx.0 as int));
                }
            },
            None => {},
        }
    }

    /// Whether the state holds something that satisfies the dependency.
    pub fn has_dependency(&self, dependency: &Dependency) -> (r: bool)
        requires
            self.wf(),
        ensures
            r == match *dependency {
                Dependency::Unit(h) => self.state.holds_unit(h),
                Dependency::Evidence(idx) => self.state.faulty(idx.0 as int),
                Dependency::Endorsement(h) => self.state.endorsed(h),
            },
    {
        match dependency {
            Dependency::Unit(h) => self.state.has_unit(*h),
            Dependency::Evidence(idx) => self.state.is_faulty(*idx),
            Dependency::Endorsement(h) => self.state.is_endorsed(*h),
        }
    }

    /// A vertex that satisfies the dependency, if the state holds one; for a
    /// validator we only know indirectly to be faulty, its id.
    pub fn get_dependency(&self, dependency: &Dependency) -> (r: GetDepOutcome)
        requires
            self.wf(),
        ensures
            match *dependency {
                Dependency::Unit(h) => if self.state.holds_unit(h) {
                    r matches GetDepOutcome::Vertex(ValidVertex(Vertex::Unit(u))) && u@ == self.state.unit_map()[h]
                } else {
                    r is Unavailable
                },
                Dependency::Evidence(idx) => if self.state.direct_evidence(idx.0 as int) {
                    r matches GetDepOutcome::Vertex(ValidVertex(Vertex::Evidence(_)))
                } else if self.state.faulty(idx.0 as int) && !self.state.banned(idx.0 as int) {
                    r == GetDepOutcome::Evidence(self.validators.validators@[idx.0 as int].id)
                } else {
                    r is Unavailable
                },
                Dependency::Endorsement(h) => if self.state.endorsed(h) {
                    r matches GetDepOutcome::Vertex(ValidVertex(Vertex::Endorsements(e))) && e.unit == h
                } else {
                    r is Unavailable
                },
            },
    {
        match dependency {
            Dependency::Unit(h) => match self.state.wire_unit(*h) {
                Some(u) => GetDepOutcome::Vertex(ValidVertex(Vertex::Unit(u))),
                None => GetDepOutcome::Unavailable,
            },
            Dependency::Evidence(idx) => match self.state.maybe_fault(*idx) {
                Some(Fault::Direct(ev)) => GetDepOutcome::Vertex(ValidVertex(Vertex::Evidence(ev.copy()))),
                Some(Fault::Indirect) => match self.validators.id(*idx) {
                    Some(vid) => GetDepOutcome::Evidence(vid),
                    None => GetDepOutcome::Unavailable,
                },
                _ => GetDepOutcome::Unavailable,
            },
            Dependency::Endorsement(h) => match self.state.maybe_endorsements(*h) {
                Some(e) => GetDepOutcome::Vertex(ValidVertex(Vertex::Endorsements(e))),
                None => GetDepOutcome::Unavailable,
            },
        }
    }

    /// The ids of the validators against which we hold direct evidence, in index order.
    pub fn validators_with_evidence(&self) -> (r: Vec<u32>)
        requires
            self.wf(),
        ensures
            r@ == ids_with_evidence(self.validators.validators@, self.state, self.validators.validators@.len() as int),
    {
        let mut r: Vec<u32> = Vec::new();
        let mut i: usize = 0;
        while i < self.validators.validators.len()
            invariant
                i <= self.validators.validators@.len(),
                self.wf(),
                r@ == ids_with_evidence(self.validators.validators@, self.state, i as int),
            decreases self.validators.validators@.len() - i,
        {
            if self.state.has_evidence(ValidatorIndex(i as u32)) {
                r.push(self.validators.validators[i].id);
            }
            i += 1;
        }
        r
    }

    /// Applies the effects that this node's active validator produced at
    /// `timestamp`: its new vertices are added to the state (those that pass
    /// validation here), and if it found itself faulty it is deactivated.
    /// Returns `None` if this instance is not an active validator; otherwise
    /// the effects of adding the vertices followed by the given effects.
    pub fn apply_validator_effects(&mut self, effects: Vec<Effect>, timestamp: u64) -> (r: Option<Vec<Effect>>)
        requires
            old(self).wf(),
        ensures
            final(self).wf(),
            final(self).validators == old(self).validators,
            final(self).instance_id == old(self).instance_id,
            old(self).active_validator is None ==> r is None && final(self).state == old(self).state
                && final(self).active_validator is None,
            old(self).active_validator is Some ==> (r matches Some(out) && out@.len() >= effects@.len()
                && out@.subrange(out@.len() - effects@.len(), out@.len() as int) == effects@),
            (old(self).active_validator is Some && exists|k: int|
                0 <= k < effects@.len() && (#[trigger] effects@[k]) is WeAreFaulty) ==> final(self).active_validator is None,
    {
        if self.active_validator.is_none() {
            return None;
        }
        let mut result: Vec<Effect> = Vec::new();
        let mut i: usize = 0;
        while i < effects.len()
            invariant
                i <= effects@.len(),
                self.wf(),
                self.validators == old(self).validators,
                self.instance_id == old(self).instance_id,
                forall|k: int| 0 <= k < i && (#[trigger] effects@[k]) is WeAreFaulty ==> self.active_validator is None,
            decreases effects@.len() - i,
        {
            match &effects[i] {
                Effect::NewVertex(vv) => {
                    let vertex = vv.0.clone();
                    match self.pre_validate_vertex(vertex) {
                        Ok(pvv) => {
                            if self.missing_dependency(&pvv).is_none() {
                                match self.validate_vertex(pvv) {
                                    Ok(valid) => {
                                        let mut added = self.add_valid_vertex(valid, timestamp);
                                        result.append(&mut added);
                                    },
                                    Err(_) => {},
                                }
                            }
                        },
                        Err(_) => {},
                    }
                },
                Effect::WeAreFaulty(_) => {
                    self.deactivate_validator();
                },
                _ => {},
            }
            i += 1;
        }
        let ghost before = result@;
        let mut given = effects;
        result.append(&mut given);
        assert(result@.subrange(before.len() as int, result@.len() as int) =~= effects@);
        Some(result)
    }

    /// What a timer at `timestamp` does: the active validator's effects for
    /// it, applied; an observer does nothing.
    pub fn handle_timer(&mut self, timestamp: u64, validator_effects: Vec<Effect>) -> (r: Vec<Effect>)
        requires
            old(self).wf(),
        ensures
            final(self).wf(),
            final(self).validators == old(self).validators,
            final(self).instance_id == old(self).instance_id,
            old(self).active_validator is None ==> r@.len() == 0 && final(self).state == old(self).state
                && final(self).active_validator is None,
            old(self).active_validator is Some ==> r@.len() >= validator_effects@.len() && r@.subrange(
                r@.len() - validator_effects@.len(),
                r@.len() as int,
            ) == validator_effects@,
    {
        match self.apply_validator_effects(validator_effects, timestamp) {
            Some(effects) => effects,
            None => Vec::new(),
        }
    }

    /// Proposes a block whose context has the given timestamp: the active
    /// validator's effects for the proposal, applied; a deactivated
    /// validator does nothing.
    pub fn propose(&mut self, block_timestamp: u64, validator_effects: Vec<Effect>) -> (r: Vec<Effect>)
        requires
            old(self).wf(),
        ensures
            final(self).wf(),
            final(self).validators == old(self).validators,
            final(self).instance_id == old(self).instance_id,
            old(self).active_validator is None ==> r@.len() == 0 && final(self).state == old(self).state
                && final(self).active_validator is None,
            old(self).active_validator is Some ==> r@.len() >= validator_effects@.len() && r@.subrange(
                r@.len() - validator_effects@.len(),
                r@.len() as int,
            ) == validator_effects@,
    {
        match self.apply_validator_effects(validator_effects, block_timestamp) {
            Some(effects) => effects,
            None => Vec::new(),
        }
    }
}

} // verus!
