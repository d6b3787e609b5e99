//! Fetches deploys, from local storage or from a peer, for the requests
//! that the node's other components make.
//!
//! The fetcher decides; the node performs what it decides. Every handler
//! takes an event and returns the effects to perform, and the effects'
//! outcomes come back as further events.

use vstd::prelude::*;

use crate::assoc::{assoc_map, keys_unique, lemma_assoc_lookup, lemma_assoc_push, lemma_assoc_remove, lemma_assoc_update};
use crate::hash32::Hash32;

verus! {

/// The hash identifying a deploy.
pub type DeployHash = Hash32;

/// A peer of the node.
pub type NodeId = u64;

/// The handle of a component waiting for a deploy; the node keeps the real
/// responder under this number.
pub type ResponderId = u64;

/// A deploy: its hash and its serialized body.
#[derive(Debug)]
pub struct Deploy {
    pub hash: DeployHash,
    pub body: Vec<u8>,
}

impl Deploy {
    /// The deploy's hash.
    pub fn id(&self) -> (r: &DeployHash)
        ensures
            *r == self.hash,
    {
        &self.hash
    }
}

/// Whether a fetch serves a peer's request or one of the node's own.
#[derive(Debug, PartialEq, Eq, Structural, Clone, Copy)]
pub enum RequestDirection {
    Inbound,
    Outbound,
}

/// Messages exchanged with peers.
#[derive(Debug)]
pub enum Message {
    /// Requesting a deploy.
    GetRequest(DeployHash),
    /// A deploy sent by a peer.
    GetResponse(Deploy),
}

/// Why storage could not give a deploy.
#[derive(Debug, Clone, Copy, PartialEq, Eq, Structural)]
pub enum StorageError {
    NotFound,
    Failed,
}

/// The fetcher's events.
#[derive(Debug)]
pub enum Event {
    /// A request to get a deploy by its hash, from storage or else from the peer.
    FetchDeploy { deploy_hash: DeployHash, peer: NodeId, maybe_responder: Option<ResponderId> },
    /// The outcome of getting a deploy from storage.
    GetFromStoreResult {
        request_direction: RequestDirection,
        deploy_hash: DeployHash,
        peer: NodeId,
        result: Result<Deploy, StorageError>,
    },
    /// The time to wait for a peer's answer is up.
    TimeoutPeer { deploy_hash: DeployHash, peer: NodeId },
    /// A message from a peer.
    MessageReceived { sender: NodeId, message: Message },
    /// The outcome of putting a deploy into storage.
    PutToStoreResult { deploy_hash: DeployHash, maybe_sender: Option<NodeId>, result: Result<bool, StorageError> },
}

/// What the node is to do.
#[derive(Debug)]
pub enum Effect {
    /// Get the deploy from storage; its outcome is a `GetFromStoreResult` event.
    GetFromStorage { request_direction: RequestDirection, deploy_hash: DeployHash, peer: NodeId },
    /// Send a message to the peer; with `refetch`, once it is sent, a
    /// `FetchDeploy` event without responder follows for the same hash and peer.
    SendMessage { peer: NodeId, message: Message, refetch: bool },
    /// After the given number of seconds, a `TimeoutPeer` event follows.
    SetTimeout { seconds: u64, deploy_hash: DeployHash, peer: NodeId },
    /// Put the deploy into storage; its outcome is not reported back.
    PutToStorage { deploy: Deploy },
    /// The responder is let go without an answer.
    Release { responder: ResponderId },
}

/// The component that fetches deploys.
pub struct DeployFetcher {
    get_from_peer_timeout_secs: u64,
    responders: Vec<((DeployHash, NodeId), Vec<ResponderId>)>,
}

/// The waiting responders by deploy hash and peer.
pub open spec fn waiting_map(s: Seq<((DeployHash, NodeId), Vec<ResponderId>)>) -> Map<(DeployHash, NodeId), Seq<ResponderId>> {
    assoc_map(s.map_values(|p: ((DeployHash, NodeId), Vec<ResponderId>)| (p.0, p.1@)))
}

/// The pairs of keys and responder sequences of the list.
pub open spec fn waiting_pairs(s: Seq<((DeployHash, NodeId), Vec<ResponderId>)>) -> Seq<((DeployHash, NodeId), Seq<ResponderId>)> {
    s.map_values(|p: ((DeployHash, NodeId), Vec<ResponderId>)| (p.0, p.1@))
}

/// The responders waiting for a key: none where the key is absent.
pub open spec fn waiting_for(w: Map<(DeployHash, NodeId), Seq<ResponderId>>, key: (DeployHash, NodeId)) -> Seq<ResponderId> {
    if w.contains_key(key) { w[key] } else { Seq::empty() }
}

/// The effects that release the given responders, in order.
pub open spec fn releases(effects: Seq<Effect>, responders: Seq<ResponderId>) -> bool {
    &&& effects.len() == responders.len()
    &&& forall|i: int| 0 <= i < effects.len() ==> (#[trigger] effects[i]) == (Effect::Release { responder: responders[i] })
}

impl DeployFetcher {
    /// The responders waiting, by deploy hash and peer.
    pub closed spec fn waiting(&self) -> Map<(DeployHash, NodeId), Seq<ResponderId>> {
        waiting_map(self.responders@)
    }

    /// The seconds to wait for a peer's answer.
    pub closed spec fn timeout_secs(&self) -> u64 {
        self.get_from_peer_timeout_secs
    }

    /// No deploy hash and peer pair is held twice.
    pub closed spec fn wf(&self) -> bool {
        keys_unique(waiting_pairs(self.responders@))
    }

    /// A fetcher that waits the given number of seconds for a peer's answer.
    pub fn new(get_remainder_timeout_secs: u64) -> (r: Self)
        ensures
            r.wf(),
            r.waiting() == Map::<(DeployHash, NodeId), Seq<ResponderId>>::empty(),
            r.timeout_secs() == get_remainder_timeout_secs,
    {
        let r = DeployFetcher { get_from_peer_timeout_secs: get_remainder_timeout_secs, responders: Vec::new() };
        assert(r.waiting() =~= Map::<(DeployHash, NodeId), Seq<ResponderId>>::empty());
        r
    }

    fn position(&self, deploy_hash: &DeployHash, peer: NodeId) -> (r: Option<usize>)
        requires
            self.wf(),
        ensures
            match r {
                Some(i) => i < self.responders@.len() && self.responders@[i as int].0 == (*deploy_hash, peer),
                None => !self.waiting().contains_key((*deploy_hash, peer)),
            },
    {
        let mut i: usize = 0;
        while i < self.responders.len()
            invariant
                0 <= i <= self.responders@.len(),
                forall|j: int| 0 <= j < i ==> (#[trigger] self.responders@[j]).0 != (*deploy_hash, peer),
            decreases self.responders@.len() - i,
        {
            if self.responders[i].0.0.same_as(deploy_hash) && self.responders[i].0.1 == peer {
                return Some(i);
            }
            i += 1;
        }
        proof {
            if self.waiting().contains_key((*deploy_hash, peer)) {
                let j = crate::assoc::lemma_assoc_key(waiting_pairs(self.responders@), (*deploy_hash, peer));
                assert(waiting_pairs(self.responders@)[j].0 == self.responders@[j].0);
            }
        }
        None
    }

    /// Adds a responder to those waiting for the deploy from the peer.
    fn add_responder(&mut self, deploy_hash: DeployHash, peer: NodeId, responder: ResponderId)
        requires
            old(self).wf(),
        ensures
            final(self).wf(),
            final(self).timeout_secs() == old(self).timeout_secs(),
            final(self).waiting() == old(self).waiting().insert(
                (deploy_hash, peer),
                (if old(self).waiting().contains_key((deploy_hash, peer)) {
                    old(self).waiting()[(deploy_hash, peer)]
                } else {
                    Seq::<ResponderId>::empty()
                }).push(responder),
            ),
    {
        let ghost before = self.responders@;
        match self.position(&deploy_hash, peer) {
            Some(i) => {
                proof {
                    lemma_assoc_lookup(waiting_pairs(before), i as int);
                }
                let (key, mut list) = self.responders.remove(i);
                list.push(responder);
                let ghost l = list@;
                self.responders.insert(i, (key, list));
                proof {
                    lemma_assoc_update(waiting_pairs(before), i as int, l);
                    assert(waiting_pairs(self.responders@) =~= waiting_pairs(before).update(
                        i as int, (waiting_pairs(before)[i as int].0, l)));
                }
            },
            None => {
                let mut list: Vec<ResponderId> = Vec::new();
                list.push(responder);
                let ghost l = list@;
                self.responders.push(((deploy_hash, peer), list));
                proof {
                    lemma_assoc_push(waiting_pairs(before), (deploy_hash, peer), l);
                    assert(waiting_pairs(self.responders@) =~= waiting_pairs(before).push(((deploy_hash, peer), l)));
                    assert(l =~= Seq::<ResponderId>::empty().push(responder));
                }
            },
        }
    }

    /// Takes the responders waiting for the deploy from the peer out.
    fn take_responders(&mut self, deploy_hash: &DeployHash, peer: NodeId) -> (r: Option<Vec<ResponderId>>)
        requires
            old(self).wf(),
        ensures
            final(self).wf(),
            final(self).timeout_secs() == old(self).timeout_secs(),
            final(self).waiting() == old(self).waiting().remove((*deploy_hash, peer)),
            old(self).waiting().contains_key((*deploy_hash, peer)) ==> (r matches Some(l)
                && l@ == old(self).waiting()[(*deploy_hash, peer)]),
            !old(self).waiting().contains_key((*deploy_hash, peer)) ==> r is None,
    {
        let ghost before = self.responders@;
        match self.position(deploy_hash, peer) {
            Some(i) => {
                proof {
                    lemma_assoc_lookup(waiting_pairs(before), i as int);
                }
                let (_key, list) = self.responders.remove(i);
                proof {
                    lemma_assoc_remove(waiting_pairs(before), i as int);
                    assert(waiting_pairs(self.responders@) =~= waiting_pairs(before).remove(i as int));
                }
                Some(list)
            },
            None => {
                assert(self.waiting().remove((*deploy_hash, peer)) =~= self.waiting());
                None
            },
        }
    }

    /// Asks storage for a deploy; a responder, when given, makes the request
    /// the node's own and waits for the answer.
    pub fn fetch(&mut self, deploy_hash: DeployHash, peer: NodeId, maybe_responder: Option<ResponderId>) -> (r: Vec<Effect>)
        requires
            old(self).wf(),
        ensures
            final(self).wf(),
            final(self).timeout_secs() == old(self).timeout_secs(),
            match maybe_responder {
                Some(resp) => final(self).waiting() == old(self).waiting().insert(
                    (deploy_hash, peer),
                    (if old(self).waiting().contains_key((deploy_hash, peer)) {
                        old(self).waiting()[(deploy_hash, peer)]
                    } else {
                        Seq::<ResponderId>::empty()
                    }).push(resp),
                ),
                None => final(self).waiting() == old(self).waiting(),
            },
            r@ == seq![Effect::GetFromStorage {
                request_direction: if maybe_responder is Some { RequestDirection::Outbound } else { RequestDirection::Inbound },
                deploy_hash,
                peer,
            }],
    {
        let request_direction = match maybe_responder {
            Some(responder) => {
                self.add_responder(deploy_hash, peer, responder);
                RequestDirection::Outbound
            },
            None => RequestDirection::Inbound,
        };
        let mut effects: Vec<Effect> = Vec::new();
        effects.push(Effect::GetFromStorage { request_direction, deploy_hash, peer });
        proof {
            assert(effects@ =~= seq![Effect::GetFromStorage { request_direction, deploy_hash, peer }]);
        }
        effects
    }

    fn release_all(responders: Vec<ResponderId>) -> (r: Vec<Effect>)
        ensures
            releases(r@, responders@),
    {
        let mut effects: Vec<Effect> = Vec::new();
        let mut i: usize = 0;
        while i < responders.len()
            invariant
                0 <= i <= responders@.len(),
                releases(effects@, responders@.subrange(0, i as int)),
            decreases responders@.len() - i,
        {
            effects.push(Effect::Release { responder: responders[i] });
            i += 1;
        }
        assert(responders@.subrange(0, responders@.len() as int) =~= responders@);
        effects
    }

    /// Storage had the deploy: a peer's request is answered with it; for the
    /// node's own request, the responders waiting for it from that peer are
    /// let go.
    pub fn got_from_store(&mut self, request_direction: RequestDirection, deploy: Deploy, peer: NodeId) -> (r: Vec<Effect>)
        requires
            old(self).wf(),
        ensures
            final(self).wf(),
            final(self).timeout_secs() == old(self).timeout_secs(),
            request_direction == RequestDirection::Inbound ==> {
                &&& final(self).waiting() == old(self).waiting()
                &&& r@ == seq![Effect::SendMessage { peer, message: Message::GetResponse(deploy), refetch: false }]
            },
            request_direction == RequestDirection::Outbound ==> {
                &&& final(self).waiting() == old(self).waiting().remove((deploy.hash, peer))
                &&& releases(r@, if old(self).waiting().contains_key((deploy.hash, peer)) {
                        old(self).waiting()[(deploy.hash, peer)]
                    } else {
                        Seq::<ResponderId>::empty()
                    })
            },
    {
        if request_direction == RequestDirection::Inbound {
            let mut effects: Vec<Effect> = Vec::new();
            let ghost d = deploy;
            effects.push(Effect::SendMessage { peer, message: Message::GetResponse(deploy), refetch: false });
            assert(effects@ =~= seq![Effect::SendMessage { peer, message: Message::GetResponse(d), refetch: false }]);
            effects
        } else {
            match self.take_responders(deploy.id(), peer) {
                Some(responders) => Self::release_all(responders),
                None => Vec::new(),
            }
        }
    }

    /// Storage did not have the deploy: ask the peer for it, and set a
    /// timeout for its answer.
    pub fn failed_to_get_from_store(&mut self, deploy_hash: DeployHash, peer: NodeId) -> (r: Vec<Effect>)
        requires
            old(self).wf(),
        ensures
            final(self).wf(),
            final(self).waiting() == old(self).waiting(),
            final(self).timeout_secs() == old(self).timeout_secs(),
            r@ == seq![
                Effect::SendMessage { peer, message: Message::GetRequest(deploy_hash), refetch: true },
                Effect::SetTimeout { seconds: old(self).timeout_secs(), deploy_hash, peer },
            ],
    {
        let mut effects: Vec<Effect> = Vec::new();
        effects.push(Effect::SendMessage { peer, message: Message::GetRequest(deploy_hash), refetch: true });
        effects.push(Effect::SetTimeout { seconds: self.get_from_peer_timeout_secs, deploy_hash, peer });
        effects
    }

    /// A peer sent the deploy: store it, and let go of the responders waiting
    /// for it from that peer.
    pub fn got_from_peer(&mut self, deploy: Deploy, peer: NodeId) -> (r: Vec<Effect>)
        requires
            old(self).wf(),
        ensures
            final(self).wf(),
            final(self).timeout_secs() == old(self).timeout_secs(),
            final(self).waiting() == old(self).waiting().remove((deploy.hash, peer)),
            r.len() >= 1,
            r@[0] == (Effect::PutToStorage { deploy }),
            releases(r@.drop_first(), if old(self).waiting().contains_key((deploy.hash, peer)) {
                old(self).waiting()[(deploy.hash, peer)]
            } else {
                Seq::<ResponderId>::empty()
            }),
    {
        let hash = deploy.hash;
        let ghost d = deploy;
        let released = match self.take_responders(&hash, peer) {
            Some(responders) => Self::release_all(responders),
            None => Vec::new(),
        };
        let mut effects: Vec<Effect> = Vec::new();
        effects.push(Effect::PutToStorage { deploy });
        let ghost rel = released@;
        let mut released = released;
        while released.len() > 0
            invariant
                effects.len() >= 1,
                effects@[0] == (Effect::PutToStorage { deploy: d }),
                effects@.drop_first() + released@ == rel,
            decreases released@.len(),
        {
            let e = released.remove(0);
            let ghost before = effects@;
            effects.push(e);
            assert(effects@.drop_first() =~= before.drop_first().push(e));
            assert(effects@.drop_first() + released@ =~= before.drop_first() + (seq![e] + released@));
        }
        assert(effects@.drop_first() =~= rel);
        effects
    }

    /// The time for the peer's answer is up: let go of the responders still
    /// waiting for the deploy from it.
    pub fn timeout_peer(&mut self, deploy_hash: DeployHash, peer: NodeId) -> (r: Vec<Effect>)
        requires
            old(self).wf(),
        ensures
            final(self).wf(),
            final(self).timeout_secs() == old(self).timeout_secs(),
            final(self).waiting() == old(self).waiting().remove((deploy_hash, peer)),
            releases(r@, if old(self).waiting().contains_key((deploy_hash, peer)) {
                old(self).waiting()[(deploy_hash, peer)]
            } else {
                Seq::<ResponderId>::empty()
            }),
    {
        match self.take_responders(&deploy_hash, peer) {
            Some(responders) => Self::release_all(responders),
            None => Vec::new(),
        }
    }

    /// Handles an event: returns the effects to perform.
    pub fn handle_event(&mut self, event: Event) -> (r: Vec<Effect>)
        requires
            old(self).wf(),
        ensures
            final(self).wf(),
            final(self).timeout_secs() == old(self).timeout_secs(),
            match event {
                Event::FetchDeploy { deploy_hash, peer, maybe_responder } => {
                    &&& final(self).waiting() == match maybe_responder {
                        Some(resp) => old(self).waiting().insert(
                            (deploy_hash, peer),
                            waiting_for(old(self).waiting(), (deploy_hash, peer)).push(resp),
                        ),
                        None => old(self).waiting(),
                    }
                    &&& r@ == seq![Effect::GetFromStorage {
                        request_direction: if maybe_responder is Some { RequestDirection::Outbound } else { RequestDirection::Inbound },
                        deploy_hash,
                        peer,
                    }]
                },
                Event::TimeoutPeer { deploy_hash, peer } => {
                    &&& final(self).waiting() == old(self).waiting().remove((deploy_hash, peer))
                    &&& releases(r@, waiting_for(old(self).waiting(), (deploy_hash, peer)))
                },
                Event::MessageReceived { sender, message: Message::GetRequest(deploy_hash) } => {
                    &&& final(self).waiting() == old(self).waiting()
                    &&& r@ == seq![Effect::GetFromStorage {
                        request_direction: RequestDirection::Inbound,
                        deploy_hash,
                        peer: sender,
                    }]
                },
                Event::MessageReceived { sender, message: Message::GetResponse(deploy) } => {
                    &&& final(self).waiting() == old(self).waiting().remove((deploy.hash, sender))
                    &&& r.len() >= 1
                    &&& r@[0] == (Effect::PutToStorage { deploy })
                    &&& releases(r@.drop_first(), waiting_for(old(self).waiting(), (deploy.hash, sender)))
                },
                Event::GetFromStoreResult { request_direction, deploy_hash: _, peer, result: Ok(deploy) } => {
                    &&& request_direction == RequestDirection::Inbound ==> {
                        &&& final(self).waiting() == old(self).waiting()
                        &&& r@ == seq![Effect::SendMessage { peer, message: Message::GetResponse(deploy), refetch: false }]
                    }
                    &&& request_direction == RequestDirection::Outbound ==> {
                        &&& final(self).waiting() == old(self).waiting().remove((deploy.hash, peer))
                        &&& releases(r@, waiting_for(old(self).waiting(), (deploy.hash, peer)))
                    }
                },
                Event::GetFromStoreResult { request_direction: _, deploy_hash, peer, result: Err(_) } => {
                    &&& final(self).waiting() == old(self).waiting()
                    &&& r@ == seq![
                        Effect::SendMessage { peer, message: Message::GetRequest(deploy_hash), refetch: true },
                        Effect::SetTimeout { seconds: old(self).timeout_secs(), deploy_hash, peer },
                    ]
                },
                Event::PutToStoreResult { .. } => final(self).waiting() == old(self).waiting() && r.len() == 0,
            },
    {
        match event {
            Event::FetchDeploy { deploy_hash, peer, maybe_responder } => self.fetch(deploy_hash, peer, maybe_responder),
            Event::TimeoutPeer { deploy_hash, peer } => self.timeout_peer(deploy_hash, peer),
            Event::MessageReceived { message, sender } => match message {
                Message::GetRequest(deploy_hash) => self.fetch(deploy_hash, sender, None),
                Message::GetResponse(deploy) => self.got_from_peer(deploy, sender),
            },
            Event::GetFromStoreResult { request_direction, deploy_hash, peer, result } => match result {
                Ok(deploy) => self.got_from_store(request_direction, deploy, peer),
                Err(_) => self.failed_to_get_from_store(deploy_hash, peer),
            },
            Event::PutToStoreResult { .. } => Vec::new(),
        }
    }
}

} // verus!
