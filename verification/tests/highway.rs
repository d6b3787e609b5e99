use casper_node_logic::highway::{Effect, GetDepOutcome, Highway, PreValidatedVertex, ValidVertex, VertexError};
use casper_node_logic::highway_state::{AddUnitError, Params, State, UnitError};
use casper_node_logic::highway_types::{
    Dependency, Endorsement, Endorsements, Evidence, EvidenceError, Observation, Panorama, SignedWireUnit,
    TestSecret, ValidatorIndex, Validators, Vertex, WireUnit,
};

const TEST_INSTANCE_ID: u64 = 42;

const ALICE: ValidatorIndex = ValidatorIndex(0);
const BOB: ValidatorIndex = ValidatorIndex(1);
const CAROL: ValidatorIndex = ValidatorIndex(2);

const ALICE_SEC: TestSecret = TestSecret(0);
const BOB_SEC: TestSecret = TestSecret(1);
const CAROL_SEC: TestSecret = TestSecret(2);

const WEIGHTS: [u64; 3] = [3, 4, 5];

fn test_validators() -> Validators {
    let vid_weights: Vec<(u32, u64)> = vec![(ALICE_SEC, ALICE), (BOB_SEC, BOB), (CAROL_SEC, CAROL)]
        .into_iter()
        .map(|(sk, vid)| {
            assert_eq!(sk.0, vid.0);
            (sk.0, WEIGHTS[vid.0 as usize])
        })
        .collect();
    Validators::from_pairs(vid_weights)
}

fn test_state() -> State {
    State::new(WEIGHTS.to_vec(), Params::new(4, 19), vec![])
}

fn new_highway(state: State) -> Highway {
    Highway {
        instance_id: TEST_INSTANCE_ID,
        validators: test_validators(),
        state,
        active_validator: None,
    }
}

/// Adds a unit by `creator` with the given panorama and endorsed units to the state.
fn add_unit(
    state: &mut State,
    creator: ValidatorIndex,
    value: u32,
    panorama: Vec<Observation>,
    endorsed: Vec<u64>,
) -> Result<u64, AddUnitError> {
    let seq_number = match panorama[creator.0 as usize] {
        Observation::Correct(h) => state.unit(h).unwrap().wire_unit().seq_number + 1,
        _ => 0,
    };
    let wunit = WireUnit {
        panorama: Panorama { observations: panorama },
        creator,
        instance_id: TEST_INSTANCE_ID,
        value: Some(value),
        seq_number,
        timestamp: 0,
        round_exp: 4,
        endorsed,
    };
    let swunit = SignedWireUnit::new(wunit.into_hashed(), &TestSecret(creator.0));
    let hash = swunit.hash();
    state.add_unit(swunit)?;
    Ok(hash)
}

/// Records endorsements of `unit` by each of `by`.
fn endorse(state: &mut State, unit: u64, by: &[ValidatorIndex]) {
    let endorsers: Vec<(ValidatorIndex, u64)> = by
        .iter()
        .map(|v| (*v, TestSecret(v.0).sign(Endorsement::new(unit, *v).hash())))
        .collect();
    state.add_endorsements(Endorsements::new(unit, endorsers));
}

const N: Observation = Observation::Unseen;
const F: Observation = Observation::Faulty;

fn c(h: u64) -> Observation {
    Observation::Correct(h)
}

fn carol_unit(value: u32) -> WireUnit {
    WireUnit {
        panorama: Panorama::new(WEIGHTS.len()),
        creator: CAROL,
        instance_id: TEST_INSTANCE_ID,
        value: Some(value),
        seq_number: 0,
        timestamp: 0,
        round_exp: 4,
        endorsed: Vec::new(),
    }
}

#[test]
fn invalid_signature_error() {
    let now: u64 = 500;

    let state: State = test_state();
    let mut highway = new_highway(state);
    let wunit = WireUnit {
        panorama: Panorama::new(WEIGHTS.len()),
        creator: CAROL,
        instance_id: highway.instance_id,
        value: Some(0),
        seq_number: 0,
        timestamp: 0,
        round_exp: 4,
        endorsed: Vec::new(),
    };
    let invalid_signature = 1u64;
    let invalid_signature_unit = SignedWireUnit {
        hashed_wire_unit: wunit.clone().into_hashed(),
        signature: invalid_signature,
    };
    let invalid_vertex = Vertex::Unit(invalid_signature_unit);
    let err = VertexError::Unit(UnitError::Signature);
    let expected = (invalid_vertex.clone(), err);
    assert_eq!(Err(expected), highway.pre_validate_vertex(invalid_vertex));

    let hwunit = wunit.into_hashed();
    let valid_signature = CAROL_SEC.sign(hwunit.hash());
    let correct_signature_unit = SignedWireUnit {
        hashed_wire_unit: hwunit,
        signature: valid_signature,
    };
    let valid_vertex = Vertex::Unit(correct_signature_unit);
    let pvv = highway.pre_validate_vertex(valid_vertex).unwrap();
    assert_eq!(None, highway.missing_dependency(&pvv));
    let vv = highway.validate_vertex(pvv).unwrap();
    assert!(highway.add_valid_vertex(vv, now).is_empty());
}

#[test]
fn missing_dependency() -> Result<(), AddUnitError> {
    let mut state = test_state();
    let now: u64 = 500;

    let _ = add_unit(&mut state, CAROL, 0xC0, vec![N, N, N], vec![])?;
    let _ = add_unit(&mut state, CAROL, 0xC1, vec![N, N, N], vec![])?;
    let a = add_unit(&mut state, ALICE, 0xA, vec![N, N, N], vec![])?;
    endorse(&mut state, a, &[ALICE, BOB, CAROL]);
    // Bob's unit depends on Alice's unit, an endorsement of Alice's unit, and evidence against
    // Carol.
    let b = add_unit(&mut state, BOB, 0xB, vec![c(a), N, F], vec![a])?;

    let end_a = state.maybe_endorsements(a).expect("unit a is endorsed");
    let ev_c = state.maybe_evidence(CAROL).unwrap().clone();
    let wunit_a = state.wire_unit(a).unwrap();
    let wunit_b = state.wire_unit(b).unwrap();

    let mut highway = new_highway(test_state());

    let vertex_end_a = Vertex::Endorsements(end_a);
    let pvv_a = highway.pre_validate_vertex(Vertex::Unit(wunit_a)).unwrap();
    let pvv_end_a = highway.pre_validate_vertex(vertex_end_a).unwrap();
    let pvv_ev_c = highway.pre_validate_vertex(Vertex::Evidence(ev_c)).unwrap();
    let pvv_b = highway.pre_validate_vertex(Vertex::Unit(wunit_b)).unwrap();

    assert_eq!(Some(Dependency::Unit(a)), highway.missing_dependency(&pvv_b));
    assert_eq!(Some(Dependency::Unit(a)), highway.missing_dependency(&pvv_end_a));
    assert_eq!(None, highway.missing_dependency(&pvv_a));
    let vv_a = highway.validate_vertex(pvv_a).unwrap();
    highway.add_valid_vertex(vv_a, now);

    assert_eq!(None, highway.missing_dependency(&pvv_end_a));
    assert_eq!(Some(Dependency::Evidence(CAROL)), highway.missing_dependency(&pvv_b));
    assert_eq!(None, highway.missing_dependency(&pvv_ev_c));
    let vv_ev_c = highway.validate_vertex(pvv_ev_c).unwrap();
    highway.add_valid_vertex(vv_ev_c, now);

    assert_eq!(Some(Dependency::Endorsement(a)), highway.missing_dependency(&pvv_b));
    assert_eq!(None, highway.missing_dependency(&pvv_end_a));
    let vv_end_a = highway.validate_vertex(pvv_end_a).unwrap();
    highway.add_valid_vertex(vv_end_a, now);

    assert_eq!(None, highway.missing_dependency(&pvv_b));
    let vv_b = highway.validate_vertex(pvv_b).unwrap();
    highway.add_valid_vertex(vv_b, now);

    Ok(())
}

#[test]
fn invalid_evidence() {
    let state: State = test_state();
    let highway = new_highway(state);

    let validate = |wunit0: &WireUnit, signer0: &TestSecret, wunit1: &WireUnit, signer1: &TestSecret| {
        let hwunit0 = wunit0.clone().into_hashed();
        let swunit0 = SignedWireUnit::new(hwunit0, signer0);
        let hwunit1 = wunit1.clone().into_hashed();
        let swunit1 = SignedWireUnit::new(hwunit1, signer1);
        let evidence = Evidence::Equivocation(swunit0, swunit1);
        let vertex = Vertex::Evidence(evidence);
        highway.pre_validate_vertex(vertex.clone()).map_err(|(v, err)| {
            assert_eq!(v, vertex);
            err
        })
    };

    // Two units with different values and the same sequence number. Carol equivocated!
    let mut wunit0 = WireUnit {
        panorama: Panorama::new(WEIGHTS.len()),
        creator: CAROL,
        instance_id: highway.instance_id,
        value: Some(0),
        seq_number: 0,
        timestamp: 0,
        round_exp: 4,
        endorsed: Vec::new(),
    };
    let wunit1 = WireUnit {
        panorama: Panorama::new(WEIGHTS.len()),
        creator: CAROL,
        instance_id: highway.instance_id,
        value: Some(1),
        seq_number: 0,
        timestamp: 0,
        round_exp: 4,
        endorsed: Vec::new(),
    };

    assert!(validate(&wunit0, &CAROL_SEC, &wunit1, &CAROL_SEC,).is_ok());

    // It's only an equivocation if the two units are different.
    assert_eq!(
        Err(VertexError::Evidence(EvidenceError::EquivocationSameUnit)),
        validate(&wunit0, &CAROL_SEC, &wunit0, &CAROL_SEC)
    );

    // Both units have Carol as their creator; Bob's signature would be invalid.
    assert_eq!(
        Err(VertexError::Evidence(EvidenceError::Signature)),
        validate(&wunit0, &CAROL_SEC, &wunit1, &BOB_SEC)
    );
    assert_eq!(
        Err(VertexError::Evidence(EvidenceError::Signature)),
        validate(&wunit0, &BOB_SEC, &wunit1, &CAROL_SEC)
    );

    // If the first unit was actually Bob's and the second Carol's, nobody equivocated.
    wunit0.creator = BOB;
    assert_eq!(
        Err(VertexError::Evidence(EvidenceError::EquivocationDifferentCreators)),
        validate(&wunit0, &BOB_SEC, &wunit1, &CAROL_SEC)
    );
    wunit0.creator = CAROL;

    // If the units have different sequence numbers they might belong to the same fork.
    wunit0.seq_number = 1;
    assert_eq!(
        Err(VertexError::Evidence(EvidenceError::EquivocationDifferentSeqNumbers)),
        validate(&wunit0, &CAROL_SEC, &wunit1, &CAROL_SEC)
    );
    wunit0.seq_number = 0;

    // If the units are from a different network or era we don't accept the evidence.
    wunit0.instance_id = TEST_INSTANCE_ID + 1;
    assert_eq!(
        Err(VertexError::Evidence(EvidenceError::EquivocationInstanceId)),
        validate(&wunit0, &CAROL_SEC, &wunit1, &CAROL_SEC)
    );
}

#[test]
fn equivocation_makes_creator_faulty_with_evidence() {
    let mut state = test_state();
    let c0 = add_unit(&mut state, CAROL, 0xC0, vec![N, N, N], vec![]).unwrap();
    assert_eq!(state.panorama.observations[2], Observation::Correct(c0));
    assert!(!state.is_faulty(CAROL));
    let _c1 = add_unit(&mut state, CAROL, 0xC1, vec![N, N, N], vec![]).unwrap();
    assert!(state.is_faulty(CAROL));
    assert!(state.has_evidence(CAROL));
    assert_eq!(state.panorama.observations[2], Observation::Faulty);
    let ev = state.maybe_evidence(CAROL).unwrap();
    let vs = test_validators();
    assert_eq!(Ok(()), ev.validate(&vs, TEST_INSTANCE_ID));
}

#[test]
fn follow_up_unit_is_correct() {
    let mut state = test_state();
    let a0 = add_unit(&mut state, ALICE, 1, vec![N, N, N], vec![]).unwrap();
    let a1 = add_unit(&mut state, ALICE, 2, vec![c(a0), N, N], vec![]).unwrap();
    assert_eq!(state.panorama.observations[0], Observation::Correct(a1));
    assert!(!state.is_faulty(ALICE));
    assert_eq!(state.find_in_swimlane(a1, 0), Some(a0));
    assert_eq!(state.find_in_swimlane(a1, 1), Some(a1));
    assert_eq!(state.find_in_swimlane(a1, 2), None);
}

#[test]
fn unit_errors_are_reported() {
    let mut state = test_state();
    let a0 = add_unit(&mut state, ALICE, 1, vec![N, N, N], vec![]).unwrap();
    // Alice's unit in Bob's slot.
    assert_eq!(
        add_unit(&mut state, BOB, 1, vec![N, c(a0), N], vec![]),
        Err(AddUnitError::Invalid(UnitError::PanoramaIndex(BOB, ALICE)))
    );
    // A unit that accuses its own creator.
    assert_eq!(
        add_unit(&mut state, BOB, 1, vec![N, F, N], vec![]),
        Err(AddUnitError::Invalid(UnitError::FaultyCreator))
    );
    // A panorama of the wrong length.
    assert_eq!(
        add_unit(&mut state, BOB, 1, vec![N, N], vec![]),
        Err(AddUnitError::Invalid(UnitError::PanoramaLength(2)))
    );
    // A cited unit that the state does not hold.
    assert_eq!(
        add_unit(&mut state, BOB, 1, vec![c(12345), N, N], vec![]),
        Err(AddUnitError::MissingDependency(Dependency::Unit(12345)))
    );
    // Citing a faulty validator without knowing of the fault.
    assert_eq!(
        add_unit(&mut state, BOB, 1, vec![N, N, F], vec![]),
        Err(AddUnitError::MissingDependency(Dependency::Evidence(CAROL)))
    );
    // A wrong sequence number.
    let wunit = WireUnit {
        panorama: Panorama { observations: vec![c(a0), N, N] },
        creator: ALICE,
        instance_id: TEST_INSTANCE_ID,
        value: None,
        seq_number: 5,
        timestamp: 0,
        round_exp: 4,
        endorsed: Vec::new(),
    };
    let swunit = SignedWireUnit::new(wunit.into_hashed(), &ALICE_SEC);
    assert_eq!(state.add_unit(swunit), Err(AddUnitError::Invalid(UnitError::SequenceNumber)));
    // A round length exponent below the minimum.
    let mut low = carol_unit(7);
    low.round_exp = 3;
    let swunit = SignedWireUnit::new(low.into_hashed(), &CAROL_SEC);
    assert_eq!(
        state.add_unit(swunit),
        Err(AddUnitError::Invalid(UnitError::RoundLengthExpLessThanMinimum))
    );
}

#[test]
fn younger_citation_is_rejected() {
    let mut state = test_state();
    let mut first = carol_unit(1);
    first.timestamp = 100;
    let s0 = SignedWireUnit::new(first.into_hashed(), &CAROL_SEC);
    let h0 = s0.hash();
    state.add_unit(s0).unwrap();
    let later = WireUnit {
        panorama: Panorama { observations: vec![N, N, c(h0)] },
        creator: ALICE,
        instance_id: TEST_INSTANCE_ID,
        value: None,
        seq_number: 0,
        timestamp: 50,
        round_exp: 4,
        endorsed: Vec::new(),
    };
    let s1 = SignedWireUnit::new(later.into_hashed(), &ALICE_SEC);
    assert_eq!(state.add_unit(s1), Err(AddUnitError::Invalid(UnitError::Timestamps)));
}

#[test]
fn endorsements_need_two_thirds_of_the_weight() {
    let mut state = test_state();
    let a = add_unit(&mut state, ALICE, 1, vec![N, N, N], vec![]).unwrap();
    // Alice and Bob weigh 7 of 12: not more than 12 / 3 * 2 = 8.
    endorse(&mut state, a, &[ALICE, BOB]);
    assert!(!state.is_endorsed(a));
    assert!(state.has_all_endorsements(a, &vec![ALICE, BOB]));
    assert!(!state.has_all_endorsements(a, &vec![CAROL]));
    endorse(&mut state, a, &[CAROL]);
    assert!(state.is_endorsed(a));
    assert!(state.has_all_endorsements(a, &vec![CAROL]));
}

#[test]
fn dependencies_are_served() {
    let mut state = test_state();
    let _ = add_unit(&mut state, CAROL, 0xC0, vec![N, N, N], vec![]).unwrap();
    let _ = add_unit(&mut state, CAROL, 0xC1, vec![N, N, N], vec![]).unwrap();
    let a = add_unit(&mut state, ALICE, 0xA, vec![N, N, N], vec![]).unwrap();
    endorse(&mut state, a, &[ALICE, BOB, CAROL]);
    let highway = new_highway(state);
    assert!(highway.has_dependency(&Dependency::Unit(a)));
    assert!(highway.has_dependency(&Dependency::Evidence(CAROL)));
    assert!(highway.has_dependency(&Dependency::Endorsement(a)));
    assert!(!highway.has_dependency(&Dependency::Evidence(BOB)));
    match highway.get_dependency(&Dependency::Unit(a)) {
        GetDepOutcome::Vertex(ValidVertex(Vertex::Unit(u))) => assert_eq!(u.hash(), a),
        other => panic!("unexpected {:?}", other),
    }
    match highway.get_dependency(&Dependency::Evidence(CAROL)) {
        GetDepOutcome::Vertex(ValidVertex(Vertex::Evidence(ev))) => assert_eq!(ev.perpetrator(), CAROL),
        other => panic!("unexpected {:?}", other),
    }
    assert_eq!(highway.get_dependency(&Dependency::Evidence(BOB)), GetDepOutcome::Unavailable);
    assert_eq!(highway.get_dependency(&Dependency::Unit(7)), GetDepOutcome::Unavailable);
    assert_eq!(highway.validators_with_evidence(), vec![2]);
    assert!(highway.has_evidence(2));
    assert!(!highway.has_evidence(1));
}

#[test]
fn indirect_fault_is_served_by_id() {
    let mut highway = new_highway(test_state());
    highway.mark_faulty(1);
    assert!(highway.state.is_faulty(BOB));
    assert!(!highway.has_evidence(1));
    assert_eq!(highway.get_dependency(&Dependency::Evidence(BOB)), GetDepOutcome::Evidence(1));
}

#[test]
fn new_evidence_is_gossiped_once() {
    let mut state = test_state();
    let _ = add_unit(&mut state, CAROL, 0xC0, vec![N, N, N], vec![]).unwrap();
    let _ = add_unit(&mut state, CAROL, 0xC1, vec![N, N, N], vec![]).unwrap();
    let ev = state.maybe_evidence(CAROL).unwrap();
    let mut highway = new_highway(test_state());
    let pvv: PreValidatedVertex = highway.pre_validate_vertex(Vertex::Evidence(ev.clone())).unwrap();
    let vv = highway.validate_vertex(pvv.clone()).unwrap();
    let effects = highway.add_valid_vertex(vv, 0);
    assert_eq!(effects, vec![Effect::NewVertex(ValidVertex(Vertex::Evidence(ev)))]);
    let vv = highway.validate_vertex(pvv).unwrap();
    assert!(highway.add_valid_vertex(vv, 0).is_empty());
}

#[test]
fn effects_apply_only_to_an_active_validator() {
    let mut highway = new_highway(test_state());
    assert_eq!(highway.apply_validator_effects(vec![Effect::ScheduleTimer(5)], 0), None);
    assert!(highway.activate_validator(1));
    assert!(highway.is_active());
    let out = highway.apply_validator_effects(vec![Effect::ScheduleTimer(5)], 0).unwrap();
    assert_eq!(out, vec![Effect::ScheduleTimer(5)]);
    let out = highway
        .apply_validator_effects(
            vec![Effect::WeAreFaulty(casper_node_logic::highway_state::Fault::Indirect)],
            0,
        )
        .unwrap();
    assert_eq!(out.len(), 1);
    assert!(!highway.is_active());
}

#[test]
fn banned_validators_start_faulty() {
    let mut vs = test_validators();
    vs.ban(1);
    let highway = Highway::new(TEST_INSTANCE_ID, vs, Params::new(4, 19));
    assert!(highway.state.is_faulty(BOB));
    assert!(!highway.state.is_faulty(ALICE));
    let wunit = WireUnit {
        panorama: Panorama::new(3),
        creator: BOB,
        instance_id: TEST_INSTANCE_ID,
        value: None,
        seq_number: 0,
        timestamp: 0,
        round_exp: 4,
        endorsed: Vec::new(),
    };
    let swunit = SignedWireUnit::new(wunit.into_hashed(), &BOB_SEC);
    let v = Vertex::Unit(swunit);
    assert_eq!(
        highway.pre_validate_vertex(v.clone()),
        Err((v, VertexError::Unit(UnitError::Banned)))
    );
}

#[test]
fn timers_and_proposals_only_act_for_an_active_validator() {
    let mut highway = new_highway(test_state());
    assert!(highway.handle_timer(10, vec![Effect::ScheduleTimer(20)]).is_empty());
    assert!(highway.propose(10, vec![Effect::ScheduleTimer(20)]).is_empty());
    assert!(highway.activate_validator(2));
    assert_eq!(highway.handle_timer(10, vec![Effect::ScheduleTimer(20)]), vec![Effect::ScheduleTimer(20)]);
    assert_eq!(highway.propose(10, vec![Effect::RequestNewBlock(10)]), vec![Effect::RequestNewBlock(10)]);
}

#[test]
fn pre_validated_vertex_gives_its_vertex_back() {
    let v = Vertex::Endorsements(Endorsements::new(7, vec![]));
    assert_eq!(PreValidatedVertex(v.clone()).into_vertex(), v);
}

#[test]
fn evidence_validity_ignores_unit_order() {
    let unit = |value: u32, seq: u64| {
        let w = WireUnit {
            panorama: Panorama::new(WEIGHTS.len()),
            creator: CAROL,
            instance_id: TEST_INSTANCE_ID,
            value: Some(value),
            seq_number: seq,
            timestamp: 0,
            round_exp: 4,
            endorsed: Vec::new(),
        };
        SignedWireUnit::new(w.into_hashed(), &CAROL_SEC)
    };
    let vs = test_validators();
    for (a, b) in [((0, 0), (1, 0)), ((0, 0), (1, 1)), ((2, 0), (2, 0))] {
        let forward = Evidence::Equivocation(unit(a.0, a.1), unit(b.0, b.1));
        let backward = Evidence::Equivocation(unit(b.0, b.1), unit(a.0, a.1));
        assert_eq!(forward.validate(&vs, TEST_INSTANCE_ID), backward.validate(&vs, TEST_INSTANCE_ID));
    }
}
