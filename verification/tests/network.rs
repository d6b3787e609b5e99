use std::collections::HashSet;

use casper_node_logic::hash32::Hash32;
use casper_node_logic::gossip::fully_connected_peers_random;
use casper_node_logic::network::{
    event_gate, has_sufficient_fully_connected_peers, validators_for_broadcast, is_blockable_offense_for_outgoing, state_after_initialize, update_syncing_nodes_set,
    BlocklistJustification, ComponentState, Network, ConnectionError, EventGate, EventKind, FlakinessConfig,
    IncomingAdmission, PeerDropData, PeerDrops,
};
use rand::rngs::StdRng;
use rand::SeedableRng;

const FLAKY: FlakinessConfig = FlakinessConfig {
    drop_peer_after_min: 1_000,
    drop_peer_after_max: 5_000,
    block_peer_after_drop_min: 200,
    block_peer_after_drop_max: 300,
};

#[test]
fn outgoing_cancel_turns_incoming_only_into_both() {
    let data: PeerDropData<u32> = PeerDropData::IncomingOnly { drop_on: 7, cancel_incoming: vec![1] };
    match data.add_outgoing_cancel(2) {
        PeerDropData::IncomingAndOutgoing { drop_on, cancel_outgoing, cancel_incoming } => {
            assert_eq!(drop_on, 7);
            assert_eq!(cancel_outgoing, vec![2]);
            assert_eq!(cancel_incoming, vec![1]);
        }
        _ => panic!("expected both directions"),
    }
}

#[test]
fn incoming_cancel_is_appended() {
    let data: PeerDropData<u32> = PeerDropData::IncomingOnly { drop_on: 7, cancel_incoming: vec![1] };
    match data.extend_with_incoming(3) {
        PeerDropData::IncomingOnly { drop_on, cancel_incoming } => {
            assert_eq!(drop_on, 7);
            assert_eq!(cancel_incoming, vec![1, 3]);
        }
        _ => panic!("expected incoming only"),
    }
    let blocked: PeerDropData<u32> = PeerDropData::CurrentlyBlocked;
    assert!(matches!(blocked.extend_with_incoming(3), PeerDropData::CurrentlyBlocked));
}

#[test]
fn no_drops_outside_flakiness_mode() {
    let mut rng = StdRng::seed_from_u64(1);
    let mut drops: PeerDrops<u32> = PeerDrops::new();
    assert_eq!(drops.schedule_incoming_drop(&None, &mut rng, 100, 5, 1), None);
    assert!(drops.peer_drop_handles.is_empty());
}

#[test]
fn first_connection_schedules_a_drop_later_ones_join_it() {
    let mut rng = StdRng::seed_from_u64(2);
    let mut drops: PeerDrops<u32> = PeerDrops::new();
    let scheduled = drops.schedule_incoming_drop(&Some(FLAKY), &mut rng, 100, 5, 1).unwrap();
    assert_eq!(scheduled.peer_id, 5);
    assert!(scheduled.sleep_for >= 1_000 && scheduled.sleep_for <= 5_000);
    assert_eq!(scheduled.drop_on, 100 + scheduled.sleep_for);
    assert_eq!(drops.schedule_outgoing_drop(&Some(FLAKY), &mut rng, 200, 5, 2), None);
    assert_eq!(drops.peer_drop_handles.len(), 1);
    match &drops.peer_drop_handles[&5] {
        PeerDropData::IncomingAndOutgoing { drop_on, cancel_outgoing, cancel_incoming } => {
            assert_eq!(*drop_on, scheduled.drop_on);
            assert_eq!(cancel_outgoing, &vec![2]);
            assert_eq!(cancel_incoming, &vec![1]);
        }
        _ => panic!("expected both directions"),
    }
}

#[test]
fn dropped_peer_is_blocked_and_refused() {
    let mut rng = StdRng::seed_from_u64(3);
    let mut drops: PeerDrops<u32> = PeerDrops::new();
    let scheduled = drops.schedule_outgoing_drop(&Some(FLAKY), &mut rng, 0, 9, 4).unwrap();
    assert!(drops.timed_peer_drop(&Some(FLAKY), &mut rng, scheduled.drop_on - 1, 9, scheduled.drop_on).is_none());
    let (block_for, orders) =
        drops.timed_peer_drop(&Some(FLAKY), &mut rng, scheduled.drop_on, 9, scheduled.drop_on).unwrap();
    assert!(block_for >= 200 && block_for <= 300);
    assert_eq!(orders.cancel_outgoing, vec![4]);
    assert!(orders.cancel_incoming.is_empty());
    assert!(orders.block_outgoing);
    assert!(drops.is_currently_blocked(9));
    assert!(!drops.admit_outgoing(9));
    assert!(drops.admit_outgoing(8));
    assert_eq!(drops.admit_incoming(0, None, true, 9), IncomingAdmission::PeerBlocked);
    assert_eq!(drops.admit_incoming(0, None, false, 9), IncomingAdmission::Accept);
    drops.forget_unblocked(&vec![9]);
    assert!(!drops.is_currently_blocked(9));
}

#[test]
fn dropping_unknown_peer_only_blocks_it() {
    let mut drops: PeerDrops<u32> = PeerDrops::new();
    let orders = drops.drop_peer(3);
    assert!(orders.cancel_incoming.is_empty() && orders.cancel_outgoing.is_empty());
    assert!(!orders.block_outgoing);
    assert!(drops.is_currently_blocked(3));
}

#[test]
fn incoming_limit() {
    let drops: PeerDrops<u32> = PeerDrops::new();
    assert_eq!(drops.admit_incoming(2, Some(2), false, 1), IncomingAdmission::LimitExceeded);
    assert_eq!(drops.admit_incoming(2, Some(1), false, 1), IncomingAdmission::Accept);
    assert_eq!(drops.admit_incoming(0, Some(100), false, 1), IncomingAdmission::Accept);
    assert_eq!(drops.admit_incoming(2, None, false, 1), IncomingAdmission::Accept);
}

#[test]
fn only_network_and_chainspec_mismatches_are_blockable() {
    assert_eq!(
        is_blockable_offense_for_outgoing(&ConnectionError::WrongNetwork("other".to_string())),
        Some(BlocklistJustification::WrongNetwork { peer_network_name: "other".to_string() })
    );
    let h = Hash32::new([4; 32]);
    assert_eq!(
        is_blockable_offense_for_outgoing(&ConnectionError::WrongChainspecHash(h)),
        Some(BlocklistJustification::WrongChainspecHash { peer_chainspec_hash: h })
    );
    assert_eq!(
        is_blockable_offense_for_outgoing(&ConnectionError::MissingChainspecHash),
        Some(BlocklistJustification::MissingChainspecHash)
    );
    assert_eq!(is_blockable_offense_for_outgoing(&ConnectionError::TcpConnection("refused".to_string())), None);
    assert_eq!(is_blockable_offense_for_outgoing(&ConnectionError::IncompatibleVersion("1.0".to_string())), None);
    assert_eq!(is_blockable_offense_for_outgoing(&ConnectionError::NoPeerCertificate), None);
}

#[test]
fn events_are_gated_by_state() {
    assert_eq!(event_gate(&ComponentState::Uninitialized, EventKind::Initialize), EventGate::Ignore);
    assert_eq!(event_gate(&ComponentState::Initializing, EventKind::Initialize), EventGate::Initialize);
    assert_eq!(event_gate(&ComponentState::Initializing, EventKind::SweepOutgoing), EventGate::Ignore);
    assert_eq!(event_gate(&ComponentState::Initialized, EventKind::Initialize), EventGate::Ignore);
    assert_eq!(event_gate(&ComponentState::Initialized, EventKind::TimedPeerDrop), EventGate::Handle);
    assert_eq!(event_gate(&ComponentState::Fatal("x".to_string()), EventKind::IncomingMessage), EventGate::Ignore);
    assert_eq!(state_after_initialize(Ok(())), ComponentState::Initialized);
    assert_eq!(
        state_after_initialize(Err("no known addresses".to_string())),
        ComponentState::Fatal("no known addresses".to_string())
    );
}

#[test]
fn syncing_set() {
    let mut set = HashSet::new();
    update_syncing_nodes_set(&mut set, 4, true);
    assert!(set.contains(&4));
    update_syncing_nodes_set(&mut set, 4, false);
    assert!(set.is_empty());
}

#[test]
fn broadcast_goes_to_connected_validators_in_order() {
    let validators: HashSet<u64> = [2, 4, 9].into_iter().collect();
    assert_eq!(validators_for_broadcast(&vec![1, 4, 2, 3, 9], &validators), vec![4, 2, 9]);
    assert!(validators_for_broadcast(&vec![1, 3], &validators).is_empty());
}

#[test]
fn enough_fully_connected_peers() {
    assert!(has_sufficient_fully_connected_peers(3, 3));
    assert!(!has_sufficient_fully_connected_peers(2, 3));
}

#[test]
fn random_fully_connected_peers_are_distinct_and_connected() {
    let mut rng = StdRng::seed_from_u64(7);
    let peers = vec![10, 11, 12, 13];
    let chosen = fully_connected_peers_random(&mut rng, &peers, 2);
    assert_eq!(chosen.len(), 2);
    assert!(chosen.iter().all(|p| peers.contains(p)));
    assert_ne!(chosen[0], chosen[1]);
    assert_eq!(fully_connected_peers_random(&mut rng, &peers, 10).len(), 4);
}

#[test]
fn network_life_cycle() {
    let mut network = Network { state: ComponentState::Uninitialized };
    assert_eq!(network.handle_event(EventKind::Initialize), EventGate::Ignore);
    assert_eq!(network.state(), &ComponentState::Uninitialized);
    network.set_state(ComponentState::Initializing);
    assert_eq!(network.handle_event(EventKind::IncomingMessage), EventGate::Ignore);
    assert_eq!(network.handle_event(EventKind::Initialize), EventGate::Initialize);
    assert_eq!(network.state(), &ComponentState::Initializing);
    network.after_initialize(Err("no known addresses".to_string()));
    assert_eq!(network.state(), &ComponentState::Fatal("no known addresses".to_string()));
    assert_eq!(network.handle_event(EventKind::SweepOutgoing), EventGate::Ignore);
    network.set_state(ComponentState::Initializing);
    network.after_initialize(Ok(()));
    assert_eq!(network.handle_event(EventKind::Initialize), EventGate::Ignore);
    assert_eq!(network.handle_event(EventKind::SweepOutgoing), EventGate::Handle);
}
