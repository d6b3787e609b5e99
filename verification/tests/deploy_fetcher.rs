use casper_node_logic::deploy_fetcher::{
    Deploy, DeployFetcher, Effect, Event, Message, RequestDirection, StorageError,
};
use casper_node_logic::hash32::Hash32;

fn h(b: u8) -> Hash32 {
    Hash32::new([b; 32])
}

#[test]
fn own_fetch_reads_storage_then_asks_the_peer() {
    let mut fetcher = DeployFetcher::new(30);
    let effects = fetcher.handle_event(Event::FetchDeploy { deploy_hash: h(1), peer: 7, maybe_responder: Some(100) });
    assert_eq!(effects.len(), 1);
    assert!(matches!(
        effects[0],
        Effect::GetFromStorage { request_direction: RequestDirection::Outbound, peer: 7, .. }
    ));

    let effects = fetcher.handle_event(Event::GetFromStoreResult {
        request_direction: RequestDirection::Outbound,
        deploy_hash: h(1),
        peer: 7,
        result: Err(StorageError::NotFound),
    });
    assert_eq!(effects.len(), 2);
    assert!(matches!(effects[0], Effect::SendMessage { peer: 7, message: Message::GetRequest(_), refetch: true }));
    assert!(matches!(effects[1], Effect::SetTimeout { seconds: 30, peer: 7, .. }));

    let effects = fetcher.handle_event(Event::MessageReceived {
        sender: 7,
        message: Message::GetResponse(Deploy { hash: h(1), body: vec![1, 2, 3] }),
    });
    assert_eq!(effects.len(), 2);
    assert!(matches!(&effects[0], Effect::PutToStorage { deploy } if deploy.hash == h(1)));
    assert!(matches!(effects[1], Effect::Release { responder: 100 }));

    // Nobody waits any more.
    assert!(fetcher.handle_event(Event::TimeoutPeer { deploy_hash: h(1), peer: 7 }).is_empty());
}

#[test]
fn peer_request_is_answered_from_storage() {
    let mut fetcher = DeployFetcher::new(30);
    let effects = fetcher.handle_event(Event::MessageReceived { sender: 3, message: Message::GetRequest(h(2)) });
    assert!(matches!(
        effects[0],
        Effect::GetFromStorage { request_direction: RequestDirection::Inbound, peer: 3, .. }
    ));
    let effects = fetcher.handle_event(Event::GetFromStoreResult {
        request_direction: RequestDirection::Inbound,
        deploy_hash: h(2),
        peer: 3,
        result: Ok(Deploy { hash: h(2), body: vec![] }),
    });
    assert_eq!(effects.len(), 1);
    assert!(matches!(&effects[0], Effect::SendMessage { peer: 3, message: Message::GetResponse(d), refetch: false } if d.hash == h(2)));
}

#[test]
fn timeout_releases_every_waiting_responder_in_order() {
    let mut fetcher = DeployFetcher::new(5);
    fetcher.handle_event(Event::FetchDeploy { deploy_hash: h(4), peer: 1, maybe_responder: Some(10) });
    fetcher.handle_event(Event::FetchDeploy { deploy_hash: h(4), peer: 1, maybe_responder: Some(11) });
    fetcher.handle_event(Event::FetchDeploy { deploy_hash: h(4), peer: 2, maybe_responder: Some(12) });
    let effects = fetcher.handle_event(Event::TimeoutPeer { deploy_hash: h(4), peer: 1 });
    assert_eq!(effects.len(), 2);
    assert!(matches!(effects[0], Effect::Release { responder: 10 }));
    assert!(matches!(effects[1], Effect::Release { responder: 11 }));
    let effects = fetcher.handle_event(Event::TimeoutPeer { deploy_hash: h(4), peer: 2 });
    assert!(matches!(effects[..], [Effect::Release { responder: 12 }]));
    assert!(fetcher
        .handle_event(Event::PutToStoreResult { deploy_hash: h(4), maybe_sender: None, result: Ok(true) })
        .is_empty());
}
