use std::collections::{BTreeSet, HashSet};

use casper_node_logic::gossip::{choose_gossip_peers, interleave, GossipTarget, NodeId};
use rand::{rngs::StdRng, seq::SliceRandom, Rng, SeedableRng};

const VALIDATOR_COUNT: usize = 10;
const NON_VALIDATOR_COUNT: usize = 20;

struct Fixture {
    validators: BTreeSet<NodeId>,
    non_validators: BTreeSet<NodeId>,
    all_peers: Vec<NodeId>,
}

impl Fixture {
    fn new(rng: &mut StdRng) -> Self {
        let mut ids: BTreeSet<NodeId> = BTreeSet::new();
        while ids.len() < VALIDATOR_COUNT + NON_VALIDATOR_COUNT {
            ids.insert(rng.gen());
        }
        let ids: Vec<NodeId> = ids.into_iter().collect();
        let validators: BTreeSet<NodeId> = ids.iter().copied().take(VALIDATOR_COUNT).collect();
        let non_validators: BTreeSet<NodeId> = ids.iter().copied().skip(VALIDATOR_COUNT).collect();

        let mut all_peers: Vec<NodeId> = validators.iter().copied().chain(non_validators.iter().copied()).collect();
        all_peers.shuffle(rng);

        Fixture { validators, non_validators, all_peers }
    }

    fn validators_in_era(&self) -> HashSet<NodeId> {
        self.validators.iter().copied().collect()
    }

    fn num_validators<'a>(&self, input: impl Iterator<Item = &'a NodeId>) -> usize {
        input.filter(move |&node_id| self.validators.contains(node_id)).count()
    }

    fn num_non_validators<'a>(&self, input: impl Iterator<Item = &'a NodeId>) -> usize {
        input.filter(move |&node_id| self.non_validators.contains(node_id)).count()
    }
}

fn pick_peers(
    rng: &mut StdRng,
    target: GossipTarget,
    count: usize,
    exclude: &HashSet<NodeId>,
    peers: Vec<NodeId>,
    fixture: &Fixture,
) -> HashSet<NodeId> {
    choose_gossip_peers(rng, target, count, exclude, &peers, &fixture.validators_in_era())
}

#[test]
fn should_choose_mixed() {
    const TARGET: GossipTarget = GossipTarget::Mixed(1);

    let mut rng = StdRng::seed_from_u64(0x5eed);
    let fixture = Fixture::new(&mut rng);

    // Choose more than total count from all peers, exclude none, should return all peers.
    let chosen = pick_peers(
        &mut rng,
        TARGET,
        VALIDATOR_COUNT + NON_VALIDATOR_COUNT + 1,
        &HashSet::new(),
        fixture.all_peers.clone(),
        &fixture,
    );
    assert_eq!(chosen.len(), fixture.all_peers.len());

    // Choose total count from all peers, exclude none, should return all peers.
    let chosen = pick_peers(&mut rng, TARGET, VALIDATOR_COUNT + NON_VALIDATOR_COUNT, &HashSet::new(), fixture.all_peers.clone(), &fixture);
    assert_eq!(chosen.len(), fixture.all_peers.len());

    // Choose 2 * VALIDATOR_COUNT from all peers, exclude none, should return all validators and
    // VALIDATOR_COUNT non-validators.
    let chosen = pick_peers(&mut rng, TARGET, 2 * VALIDATOR_COUNT, &HashSet::new(), fixture.all_peers.clone(), &fixture);
    assert_eq!(chosen.len(), 2 * VALIDATOR_COUNT);
    assert_eq!(fixture.num_validators(chosen.iter()), VALIDATOR_COUNT);
    assert_eq!(fixture.num_non_validators(chosen.iter()), VALIDATOR_COUNT);

    // Choose VALIDATOR_COUNT from all peers, exclude none, should return VALIDATOR_COUNT peers,
    // half validators and half non-validators.
    let chosen = pick_peers(&mut rng, TARGET, VALIDATOR_COUNT, &HashSet::new(), fixture.all_peers.clone(), &fixture);
    assert_eq!(chosen.len(), VALIDATOR_COUNT);
    assert_eq!(fixture.num_validators(chosen.iter()), VALIDATOR_COUNT / 2);
    assert_eq!(fixture.num_non_validators(chosen.iter()), VALIDATOR_COUNT / 2);

    // Choose two from all peers, exclude none, should return two peers, one validator and one
    // non-validator.
    let chosen = pick_peers(&mut rng, TARGET, 2, &HashSet::new(), fixture.all_peers.clone(), &fixture);
    assert_eq!(chosen.len(), 2);
    assert_eq!(fixture.num_validators(chosen.iter()), 1);
    assert_eq!(fixture.num_non_validators(chosen.iter()), 1);

    // Choose one from all peers, exclude none, should return one peer with 50-50 chance of
    // being a validator.
    let mut got_validator = false;
    let mut got_non_validator = false;
    let mut attempts = 0;
    while !got_validator || !got_non_validator {
        let chosen = pick_peers(&mut rng, TARGET, 1, &HashSet::new(), fixture.all_peers.clone(), &fixture);
        assert_eq!(chosen.len(), 1);
        let node_id = chosen.iter().next().unwrap();
        got_validator |= fixture.validators.contains(node_id);
        got_non_validator |= fixture.non_validators.contains(node_id);
        attempts += 1;
        assert!(attempts < 1_000_000);
    }

    // Choose VALIDATOR_COUNT from all peers, exclude all but one validator, should return the
    // one validator and VALIDATOR_COUNT - 1 non-validators.
    let exclude: HashSet<_> = fixture.validators.iter().copied().take(VALIDATOR_COUNT - 1).collect();
    let chosen = pick_peers(&mut rng, TARGET, VALIDATOR_COUNT, &exclude, fixture.all_peers.clone(), &fixture);
    assert_eq!(chosen.len(), VALIDATOR_COUNT);
    assert_eq!(fixture.num_validators(chosen.iter()), 1);
    assert_eq!(fixture.num_non_validators(chosen.iter()), VALIDATOR_COUNT - 1);
    assert!(exclude.is_disjoint(&chosen));

    // Choose 3 from all peers, exclude all non-validators, should return 3 validators.
    let exclude: HashSet<_> = fixture.non_validators.iter().copied().collect();
    let chosen = pick_peers(&mut rng, TARGET, 3, &exclude, fixture.all_peers.clone(), &fixture);
    assert_eq!(chosen.len(), 3);
    assert_eq!(fixture.num_validators(chosen.iter()), 3);
    assert!(exclude.is_disjoint(&chosen));
}

#[test]
fn should_choose_all() {
    const TARGET: GossipTarget = GossipTarget::All;

    let mut rng = StdRng::seed_from_u64(0xa11);
    let fixture = Fixture::new(&mut rng);

    // Choose more than total count from all peers, exclude none, should return all peers.
    let chosen = pick_peers(
        &mut rng,
        TARGET,
        VALIDATOR_COUNT + NON_VALIDATOR_COUNT + 1,
        &HashSet::new(),
        fixture.all_peers.clone(),
        &fixture,
    );
    assert_eq!(chosen.len(), fixture.all_peers.len());

    // Choose total count from all peers, exclude none, should return all peers.
    let chosen = pick_peers(&mut rng, TARGET, VALIDATOR_COUNT + NON_VALIDATOR_COUNT, &HashSet::new(), fixture.all_peers.clone(), &fixture);
    assert_eq!(chosen.len(), fixture.all_peers.len());

    // Choose VALIDATOR_COUNT from only validators, exclude none, should return all validators.
    let chosen = pick_peers(
        &mut rng,
        TARGET,
        VALIDATOR_COUNT,
        &HashSet::new(),
        fixture.validators.iter().copied().collect(),
        &fixture,
    );
    assert_eq!(chosen.len(), VALIDATOR_COUNT);
    assert_eq!(fixture.num_validators(chosen.iter()), VALIDATOR_COUNT);

    // Choose VALIDATOR_COUNT from only non-validators, exclude none, should return
    // VALIDATOR_COUNT non-validators.
    let chosen = pick_peers(
        &mut rng,
        TARGET,
        VALIDATOR_COUNT,
        &HashSet::new(),
        fixture.non_validators.iter().copied().collect(),
        &fixture,
    );
    assert_eq!(chosen.len(), VALIDATOR_COUNT);
    assert_eq!(fixture.num_non_validators(chosen.iter()), VALIDATOR_COUNT);

    // Choose VALIDATOR_COUNT from all peers, exclude all but VALIDATOR_COUNT from all peers,
    // should return all the non-excluded peers.
    let exclude: HashSet<_> = fixture.all_peers.iter().copied().take(NON_VALIDATOR_COUNT).collect();
    let chosen = pick_peers(&mut rng, TARGET, VALIDATOR_COUNT, &exclude, fixture.all_peers.clone(), &fixture);
    assert_eq!(chosen.len(), VALIDATOR_COUNT);
    assert!(exclude.is_disjoint(&chosen));

    // Choose one from all peers, exclude enough non-validators to have an even chance of
    // returning a validator as a non-validator, should return one peer with 50-50 chance of
    // being a validator.
    let exclude: HashSet<_> = fixture.non_validators.iter().copied().take(NON_VALIDATOR_COUNT - VALIDATOR_COUNT).collect();
    let mut got_validator = false;
    let mut got_non_validator = false;
    let mut attempts = 0;
    while !got_validator || !got_non_validator {
        let chosen = pick_peers(&mut rng, TARGET, 1, &exclude, fixture.all_peers.clone(), &fixture);
        assert_eq!(chosen.len(), 1);
        assert!(exclude.is_disjoint(&chosen));
        let node_id = chosen.iter().next().unwrap();
        got_validator |= fixture.validators.contains(node_id);
        got_non_validator |= fixture.non_validators.contains(node_id);
        attempts += 1;
        assert!(attempts < 1_000_000);
    }
}

#[test]
fn interleave_alternates_then_continues() {
    assert_eq!(interleave(&vec![1, 2, 3], &vec![10, 20]), vec![1, 10, 2, 20, 3]);
    assert_eq!(interleave(&vec![1], &vec![10, 20, 30]), vec![1, 10, 20, 30]);
    assert_eq!(interleave(&vec![], &vec![7]), vec![7]);
}
