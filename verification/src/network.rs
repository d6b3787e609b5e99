//! The decisions of the networking component: which events it handles in
//! which state, which connections it admits, which connection failures get
//! a peer blocked, and the bookkeeping of the simulated peer drops that the
//! network flakiness mode performs.
//!
//! Sockets, timers and the outgoing connection manager are outside work;
//! the functions here say what to do, and the caller does it. A peer's
//! cancel handle (whatever closes one of its connections) is of a type `H`
//! that nothing here looks into.

use vstd::prelude::*;

use rand::rngs::StdRng;

use std::collections::HashMap;

use vstd::std_specs::hash::obeys_key_model;

use crate::gossip::NodeId;
use crate::hash32::Hash32;

verus! {

/// The simulated drop of a peer: when it happens, and the handles that
/// close the peer's incoming and outgoing connections then; or the mark
/// that the peer is blocked after a drop.
pub enum PeerDropData<H> {
    IncomingOnly { drop_on: u64, cancel_incoming: Vec<H> },
    OutgoingOnly { drop_on: u64, cancel_outgoing: Vec<H> },
    IncomingAndOutgoing { drop_on: u64, cancel_outgoing: Vec<H>, cancel_incoming: Vec<H> },
    CurrentlyBlocked,
}

impl<H> PeerDropData<H> {
    /// Whether the peer is blocked after a drop.
    pub open spec fn blocked(&self) -> bool {
        self is CurrentlyBlocked
    }

    /// When the drop happens.
    pub open spec fn drop_time(&self) -> u64 {
        match self {
            PeerDropData::IncomingOnly { drop_on, .. } => *drop_on,
            PeerDropData::OutgoingOnly { drop_on, .. } => *drop_on,
            PeerDropData::IncomingAndOutgoing { drop_on, .. } => *drop_on,
            PeerDropData::CurrentlyBlocked => 0,
        }
    }

    /// Whether incoming connections are to be closed.
    pub open spec fn has_incoming(&self) -> bool {
        self is IncomingOnly || self is IncomingAndOutgoing
    }

    /// Whether outgoing connections are to be closed.
    pub open spec fn has_outgoing(&self) -> bool {
        self is OutgoingOnly || self is IncomingAndOutgoing
    }

    /// The handles of the incoming connections.
    pub open spec fn incoming(&self) -> Seq<H> {
        match self {
            PeerDropData::IncomingOnly { cancel_incoming, .. } => cancel_incoming@,
            PeerDropData::IncomingAndOutgoing { cancel_incoming, .. } => cancel_incoming@,
            _ => Seq::empty(),
        }
    }

    /// The handles of the outgoing connections.
    pub open spec fn outgoing(&self) -> Seq<H> {
        match self {
            PeerDropData::OutgoingOnly { cancel_outgoing, .. } => cancel_outgoing@,
            PeerDropData::IncomingAndOutgoing { cancel_outgoing, .. } => cancel_outgoing@,
            _ => Seq::empty(),
        }
    }

    /// Adds the handle of an outgoing connection to a scheduled drop; a
    /// blocked peer stays blocked.
    pub fn add_outgoing_cancel(self, cancel_callback: H) -> (r: PeerDropData<H>)
        ensures
            self.blocked() ==> r.blocked(),
            !self.blocked() ==> {
                &&& !r.blocked()
                &&& r.has_outgoing()
                &&& r.has_incoming() == self.has_incoming()
                &&& r.drop_time() == self.drop_time()
                &&& r.incoming() == self.incoming()
                &&& r.outgoing() == self.outgoing().push(cancel_callback)
            },
    {
        match self {
            PeerDropData::OutgoingOnly { drop_on, mut cancel_outgoing } => {
                cancel_outgoing.push(cancel_callback);
                PeerDropData::OutgoingOnly { drop_on, cancel_outgoing }
            },
            PeerDropData::IncomingOnly { drop_on, cancel_incoming } => {
                let mut cancel_outgoing = Vec::new();
                cancel_outgoing.push(cancel_callback);
                PeerDropData::IncomingAndOutgoing { drop_on, cancel_incoming, cancel_outgoing }
            },
            PeerDropData::IncomingAndOutgoing { drop_on, mut cancel_outgoing, cancel_incoming } => {
                cancel_outgoing.push(cancel_callback);
                PeerDropData::IncomingAndOutgoing { drop_on, cancel_outgoing, cancel_incoming }
            },
            PeerDropData::CurrentlyBlocked => PeerDropData::CurrentlyBlocked,
        }
    }

    /// Adds the handle of an incoming connection to a scheduled drop; a
    /// blocked peer stays blocked.
    pub fn extend_with_incoming(self, cancel_callback: H) -> (r: PeerDropData<H>)
        ensures
            self.blocked() ==> r.blocked(),
            !self.blocked() ==> {
                &&& !r.blocked()
                &&& r.has_incoming()
                &&& r.has_outgoing() == self.has_outgoing()
                &&& r.drop_time() == self.drop_time()
                &&& r.outgoing() == self.outgoing()
                &&& r.incoming() == self.incoming().push(cancel_callback)
            },
    {
        match self {
            PeerDropData::IncomingOnly { drop_on, mut cancel_incoming } => {
                cancel_incoming.push(cancel_callback);
                PeerDropData::IncomingOnly { drop_on, cancel_incoming }
            },
            PeerDropData::OutgoingOnly { drop_on, cancel_outgoing } => {
                let mut cancel_incoming = Vec::new();
                cancel_incoming.push(cancel_callback);
                PeerDropData::IncomingAndOutgoing { drop_on, cancel_incoming, cancel_outgoing }
            },
            PeerDropData::IncomingAndOutgoing { drop_on, cancel_outgoing, mut cancel_incoming } => {
                cancel_incoming.push(cancel_callback);
                PeerDropData::IncomingAndOutgoing { drop_on, cancel_outgoing, cancel_incoming }
            },
            PeerDropData::CurrentlyBlocked => PeerDropData::CurrentlyBlocked,
        }
    }
}

/// That `new` is `old` with the incoming handle `h` added, as
/// [`PeerDropData::extend_with_incoming`] does.
pub open spec fn incoming_added<H>(old: PeerDropData<H>, new: PeerDropData<H>, h: H) -> bool {
    &&& old.blocked() ==> new.blocked()
    &&& !old.blocked() ==> {
        &&& !new.blocked()
        &&& new.has_incoming()
        &&& new.has_outgoing() == old.has_outgoing()
        &&& new.drop_time() == old.drop_time()
        &&& new.outgoing() == old.outgoing()
        &&& new.incoming() == old.incoming().push(h)
    }
}

/// That `new` is `old` with the outgoing handle `h` added, as
/// [`PeerDropData::add_outgoing_cancel`] does.
pub open spec fn outgoing_added<H>(old: PeerDropData<H>, new: PeerDropData<H>, h: H) -> bool {
    &&& old.blocked() ==> new.blocked()
    &&& !old.blocked() ==> {
        &&& !new.blocked()
        &&& new.has_outgoing()
        &&& new.has_incoming() == old.has_incoming()
        &&& new.drop_time() == old.drop_time()
        &&& new.incoming() == old.incoming()
        &&& new.outgoing() == old.outgoing().push(h)
    }
}

/// The drops scheduled per peer.
pub struct PeerDrops<H> {
    pub peer_drop_handles: HashMap<NodeId, PeerDropData<H>>,
}

impl<H> PeerDrops<H> {
    /// The drop data of each peer that has some.
    pub open spec fn map(&self) -> Map<NodeId, PeerDropData<H>> {
        self.peer_drop_handles@
    }

    /// Whether the peer is blocked after a drop.
    pub open spec fn peer_blocked(&self, peer: NodeId) -> bool {
        self.map().contains_key(peer) && self.map()[peer].blocked()
    }

    /// No drops.
    pub fn new() -> (r: PeerDrops<H>)
        ensures
            r.map() == Map::<NodeId, PeerDropData<H>>::empty(),
    {
        PeerDrops { peer_drop_handles: HashMap::new() }
    }

    /// Whether the peer is blocked after a drop.
    pub fn is_currently_blocked(&self, peer: NodeId) -> (r: bool)
        ensures
            r == self.peer_blocked(peer),
    {
        assert(obeys_key_model::<NodeId>());
        match self.peer_drop_handles.get(&peer) {
            Some(PeerDropData::CurrentlyBlocked) => true,
            _ => false,
        }
    }

    /// Removes the peer's drop data, giving it.
    pub fn take(&mut self, peer: NodeId) -> (r: Option<PeerDropData<H>>)
        ensures
            final(self).map() == old(self).map().remove(peer),
            r == if old(self).map().contains_key(peer) {
                Some(old(self).map()[peer])
            } else {
                None
            },
    {
        assert(obeys_key_model::<NodeId>());
        self.peer_drop_handles.remove(&peer)
    }

    /// Sets the peer's drop data.
    pub fn put(&mut self, peer: NodeId, data: PeerDropData<H>)
        ensures
            final(self).map() == old(self).map().insert(peer, data),
    {
        assert(obeys_key_model::<NodeId>());
        let _ = self.peer_drop_handles.insert(peer, data);
    }
}

/// The settings of the network flakiness mode, in milliseconds: a peer is
/// dropped a random time after its first connection, within the first
/// bounds, and then blocked for a random time within the second.
#[derive(Copy, Clone, Debug, PartialEq, Eq, Structural)]
pub struct FlakinessConfig {
    pub drop_peer_after_min: u64,
    pub drop_peer_after_max: u64,
    pub block_peer_after_drop_min: u64,
    pub block_peer_after_drop_max: u64,
}

/// A drop that was scheduled: a timer is to fire after `sleep_for`
/// milliseconds, for the drop of `peer_id` due at `drop_on`.
#[derive(Copy, Clone, Debug, PartialEq, Eq, Structural)]
pub struct ScheduledDrop {
    pub peer_id: NodeId,
    pub sleep_for: u64,
    pub drop_on: u64,
}

/// What dropping a peer asks for: close these connections, and if any
/// outgoing ones were closed, block the peer's address.
pub struct PeerDropOrders<H> {
    pub cancel_incoming: Vec<H>,
    pub cancel_outgoing: Vec<H>,
    pub block_outgoing: bool,
}

/// Whether the flakiness settings can be drawn from: both ranges are
/// non-empty and a drop time computed from `now` fits.
pub open spec fn flakiness_usable(flakiness: Option<FlakinessConfig>, now: u64) -> bool {
    flakiness matches Some(f) ==> {
        &&& f.drop_peer_after_min <= f.drop_peer_after_max
        &&& f.block_peer_after_drop_min <= f.block_peer_after_drop_max
        &&& now + f.drop_peer_after_max <= u64::MAX
    }
}

/// rand's `Rng::gen_range` on an inclusive range of integers: a number
/// within the bounds, drawn by the generator. It panics on an empty range,
/// so the bounds must be in order.
#[verifier::external_body]
fn random_in_range(rng: &mut StdRng, low: u64, high: u64) -> (r: u64)
    requires
        low <= high,
    ensures
        low <= r <= high,
{
    rand::Rng::gen_range(rng, low..=high)
}

impl<H> PeerDrops<H> {
    /// Schedules the drop of a peer over a new incoming connection, whose
    /// handle is given: nothing happens outside the flakiness mode; a peer
    /// that has drop data gets the handle added; otherwise a drop is
    /// scheduled a random time from `now`.
    pub fn schedule_incoming_drop(
        &mut self,
        flakiness: &Option<FlakinessConfig>,
        rng: &mut StdRng,
        now: u64,
        peer_id: NodeId,
        handle: H,
    ) -> (r: Option<ScheduledDrop>)
        requires
            flakiness_usable(*flakiness, now),
        ensures
            flakiness is None ==> r is None && final(self).map() == old(self).map(),
            flakiness is Some ==> {
                &&& final(self).map().contains_key(peer_id)
                &&& final(self).map().remove(peer_id) == old(self).map().remove(peer_id)
            },
            (flakiness is Some && old(self).map().contains_key(peer_id)) ==> r is None && incoming_added(
                old(self).map()[peer_id],
                final(self).map()[peer_id],
                handle,
            ),
            flakiness matches Some(f) ==> (!old(self).map().contains_key(peer_id) ==> (r matches Some(d) && {
                let data = final(self).map()[peer_id];
                &&& d.peer_id == peer_id
                &&& f.drop_peer_after_min <= d.sleep_for <= f.drop_peer_after_max
                &&& d.drop_on == now + d.sleep_for
                &&& data is IncomingOnly
                &&& data.drop_time() == d.drop_on
                &&& data.incoming() == seq![handle]
            })),
    {
        match flakiness {
            None => None,
            Some(f) => {
                match self.take(peer_id) {
                    Some(data) => {
                        self.put(peer_id, data.extend_with_incoming(handle));
                        proof {
                            assert(self.map().remove(peer_id) =~= old(self).map().remove(peer_id));
                        }
                        None
                    },
                    None => {
                        let sleep_for = random_in_range(rng, f.drop_peer_after_min, f.drop_peer_after_max);
                        let drop_on = now + sleep_for;
                        let mut cancel_incoming = Vec::new();
                        cancel_incoming.push(handle);
                        self.put(peer_id, PeerDropData::IncomingOnly { drop_on, cancel_incoming });
                        proof {
                            assert(self.map().remove(peer_id) =~= old(self).map().remove(peer_id));
                        }
                        Some(ScheduledDrop { peer_id, sleep_for, drop_on })
                    },
                }
            },
        }
    }

    /// Schedules the drop of a peer over a new outgoing connection, whose
    /// handle is given: nothing happens outside the flakiness mode; a peer
    /// that has drop data gets the handle added; otherwise a drop is
    /// scheduled a random time from `now`.
    pub fn schedule_outgoing_drop(
        &mut self,
        flakiness: &Option<FlakinessConfig>,
        rng: &mut StdRng,
        now: u64,
        peer_id: NodeId,
        handle: H,
    ) -> (r: Option<ScheduledDrop>)
        requires
            flakiness_usable(*flakiness, now),
        ensures
            flakiness is None ==> r is None && final(self).map() == old(self).map(),
            flakiness is Some ==> {
                &&& final(self).map().contains_key(peer_id)
                &&& final(self).map().remove(peer_id) == old(self).map().remove(peer_id)
            },
            (flakiness is Some && old(self).map().contains_key(peer_id)) ==> r is None && outgoing_added(
                old(self).map()[peer_id],
                final(self).map()[peer_id],
                handle,
            ),
            flakiness matches Some(f) ==> (!old(self).map().contains_key(peer_id) ==> (r matches Some(d) && {
                let data = final(self).map()[peer_id];
                &&& d.peer_id == peer_id
                &&& f.drop_peer_after_min <= d.sleep_for <= f.drop_peer_after_max
                &&& d.drop_on == now + d.sleep_for
                &&& data is OutgoingOnly
                &&& data.drop_time() == d.drop_on
                &&& data.outgoing() == seq![handle]
            })),
    {
        match flakiness {
            None => None,
            Some(f) => {
                match self.take(peer_id) {
                    Some(data) => {
                        self.put(peer_id, data.add_outgoing_cancel(handle));
                        proof {
                            assert(self.map().remove(peer_id) =~= old(self).map().remove(peer_id));
                        }
                        None
                    },
                    None => {
                        let sleep_for = random_in_range(rng, f.drop_peer_after_min, f.drop_peer_after_max);
                        let drop_on = now + sleep_for;
                        let mut cancel_outgoing = Vec::new();
                        cancel_outgoing.push(handle);
                        self.put(peer_id, PeerDropData::OutgoingOnly { drop_on, cancel_outgoing });
                        proof {
                            assert(self.map().remove(peer_id) =~= old(self).map().remove(peer_id));
                        }
                        Some(ScheduledDrop { peer_id, sleep_for, drop_on })
                    },
                }
            },
        }
    }

    /// Drops a peer: its connections are to be closed, and from now on it
    /// is marked blocked.
    pub fn drop_peer(&mut self, peer_id: NodeId) -> (r: PeerDropOrders<H>)
        ensures
            final(self).map() == old(self).map().insert(peer_id, PeerDropData::CurrentlyBlocked),
            old(self).map().contains_key(peer_id) ==> {
                let data = old(self).map()[peer_id];
                &&& r.cancel_incoming@ == data.incoming()
                &&& r.cancel_outgoing@ == data.outgoing()
                &&& r.block_outgoing == data.has_outgoing()
            },
            !old(self).map().contains_key(peer_id) ==> r.cancel_incoming@.len() == 0
                && r.cancel_outgoing@.len() == 0 && !r.block_outgoing,
    {
        let orders = match self.take(peer_id) {
            Some(PeerDropData::IncomingOnly { cancel_incoming, .. }) => PeerDropOrders {
                cancel_incoming,
                cancel_outgoing: Vec::new(),
                block_outgoing: false,
            },
            Some(PeerDropData::OutgoingOnly { cancel_outgoing, .. }) => PeerDropOrders {
                cancel_incoming: Vec::new(),
                cancel_outgoing,
                block_outgoing: true,
            },
            Some(PeerDropData::IncomingAndOutgoing { cancel_incoming, cancel_outgoing, .. }) => PeerDropOrders {
                cancel_incoming,
                cancel_outgoing,
                block_outgoing: true,
            },
            Some(PeerDropData::CurrentlyBlocked) => PeerDropOrders {
                cancel_incoming: Vec::new(),
                cancel_outgoing: Vec::new(),
                block_outgoing: false,
            },
            None => PeerDropOrders { cancel_incoming: Vec::new(), cancel_outgoing: Vec::new(), block_outgoing: false },
        };
        self.put(peer_id, PeerDropData::CurrentlyBlocked);
        proof {
            assert(old(self).map().remove(peer_id).insert(peer_id, PeerDropData::CurrentlyBlocked) =~= old(
                self,
            ).map().insert(peer_id, PeerDropData::CurrentlyBlocked));
        }
        orders
    }

    /// What the timer of a scheduled drop does at `now`: once the drop is
    /// due, in the flakiness mode, the peer is dropped and blocked for a
    /// random time; otherwise nothing happens.
    pub fn timed_peer_drop(
        &mut self,
        flakiness: &Option<FlakinessConfig>,
        rng: &mut StdRng,
        now: u64,
        peer_id: NodeId,
        drop_on: u64,
    ) -> (r: Option<(u64, PeerDropOrders<H>)>)
        requires
            flakiness_usable(*flakiness, now),
        ensures
            !(now >= drop_on && flakiness is Some) ==> r is None && final(self).map() == old(self).map(),
            flakiness matches Some(f) ==> (now >= drop_on ==> (r matches Some((block_for, orders)) && {
                &&& f.block_peer_after_drop_min <= block_for <= f.block_peer_after_drop_max
                &&& final(self).map() == old(self).map().insert(peer_id, PeerDropData::CurrentlyBlocked)
                &&& old(self).map().contains_key(peer_id) ==> {
                    let data = old(self).map()[peer_id];
                    &&& orders.cancel_incoming@ == data.incoming()
                    &&& orders.cancel_outgoing@ == data.outgoing()
                    &&& orders.block_outgoing == data.has_outgoing()
                }
                &&& !old(self).map().contains_key(peer_id) ==> orders.cancel_incoming@.len() == 0
                    && orders.cancel_outgoing@.len() == 0 && !orders.block_outgoing
            })),
    {
        if now >= drop_on {
            match flakiness {
                Some(f) => {
                    let block_for = random_in_range(
                        rng,
                        f.block_peer_after_drop_min,
                        f.block_peer_after_drop_max,
                    );
                    let orders = self.drop_peer(peer_id);
                    Some((block_for, orders))
                },
                None => None,
            }
        } else {
            None
        }
    }

    /// Forgets the drop data of peers whose block has ended.
    pub fn forget_unblocked(&mut self, unblocked: &Vec<NodeId>)
        ensures
            final(self).map() == old(self).map().remove_keys(unblocked@.to_set()),
    {
        let mut i: usize = 0;
        while i < unblocked.len()
            invariant
                i <= unblocked@.len(),
                self.map() == old(self).map().remove_keys(unblocked@.subrange(0, i as int).to_set()),
            decreases unblocked@.len() - i,
        {
            let _ = self.take(unblocked[i]);
            proof {
                assert(unblocked@.subrange(0, i + 1) =~= unblocked@.subrange(0, i as int).push(unblocked@[i as int]));
                unblocked@.subrange(0, i as int).lemma_push_to_set_commute(unblocked@[i as int]);
                assert(old(self).map().remove_keys(unblocked@.subrange(0, i as int).to_set()).remove(unblocked@[i as int])
                    =~= old(self).map().remove_keys(unblocked@.subrange(0, i + 1).to_set()));
            }
            i += 1;
        }
        proof {
            assert(unblocked@.subrange(0, unblocked@.len() as int) =~= unblocked@);
        }
    }
}

/// Whether a new incoming connection is taken.
#[derive(Copy, Clone, Debug, PartialEq, Eq, Structural)]
pub enum IncomingAdmission {
    Accept,
    /// The peer has as many incoming connections as allowed.
    LimitExceeded,
    /// In the flakiness mode, the peer is blocked after a drop.
    PeerBlocked,
}

/// The admission of an incoming connection: with a limit (zero means
/// none), a peer that already has that many incoming connections is
/// refused; in the flakiness mode a blocked peer is refused.
pub open spec fn incoming_admission(
    max_incoming_peer_connections: u32,
    incoming_count: Option<usize>,
    flakiness_on: bool,
    blocked: bool,
) -> IncomingAdmission {
    if max_incoming_peer_connections != 0 && (incoming_count matches Some(n) && n
        >= max_incoming_peer_connections) {
        IncomingAdmission::LimitExceeded
    } else if flakiness_on && blocked {
        IncomingAdmission::PeerBlocked
    } else {
        IncomingAdmission::Accept
    }
}

impl<H> PeerDrops<H> {
    /// Whether an established incoming connection from `peer_id` is taken,
    /// given how many incoming connections the peer has (`None` if the
    /// node knows no connection of it).
    pub fn admit_incoming(
        &self,
        max_incoming_peer_connections: u32,
        incoming_count: Option<usize>,
        flakiness_on: bool,
        peer_id: NodeId,
    ) -> (r: IncomingAdmission)
        ensures
            r == incoming_admission(
                max_incoming_peer_connections,
                incoming_count,
                flakiness_on,
                self.peer_blocked(peer_id),
            ),
    {
        if max_incoming_peer_connections != 0 {
            if let Some(n) = incoming_count {
                if n >= max_incoming_peer_connections as usize {
                    return IncomingAdmission::LimitExceeded;
                }
            }
        }
        if flakiness_on && self.is_currently_blocked(peer_id) {
            return IncomingAdmission::PeerBlocked;
        }
        IncomingAdmission::Accept
    }

    /// Whether an established outgoing connection to `peer_id` is taken:
    /// not if the peer is blocked after a drop.
    pub fn admit_outgoing(&self, peer_id: NodeId) -> (r: bool)
        ensures
            r == !self.peer_blocked(peer_id),
    {
        !self.is_currently_blocked(peer_id)
    }
}

/// A dropped peer is blocked: it is refused new outgoing connections, and
/// in the flakiness mode new incoming ones (unless the limit refuses them
/// first); it stays blocked while another peer's drop data changes and
/// while handles are added to its own.
pub proof fn law_dropped_peer_is_refused<H>(
    before: PeerDrops<H>,
    after: PeerDrops<H>,
    peer: NodeId,
    max: u32,
    count: Option<usize>,
    other: NodeId,
    data: PeerDropData<H>,
    handle: H,
    next: PeerDropData<H>,
)
    requires
        after.map() == before.map().insert(peer, PeerDropData::CurrentlyBlocked),
    ensures
        after.peer_blocked(peer),
        incoming_admission(max, count, true, after.peer_blocked(peer)) != IncomingAdmission::Accept,
        other != peer ==> after.map().insert(other, data)[peer].blocked(),
        incoming_added(after.map()[peer], next, handle) ==> next.blocked(),
        outgoing_added(after.map()[peer], next, handle) ==> next.blocked(),
{
}

/// Why an outgoing connection failed; the details of outside errors are
/// kept as their messages.
#[derive(Clone, Debug, PartialEq, Eq)]
pub enum ConnectionError {
    TlsInitialization(String),
    TcpConnection(String),
    TcpNoDelay(String),
    TlsHandshake(String),
    HandshakeSend(String),
    HandshakeRecv(String),
    HandshakeNotAllowed,
    IncompatibleVersion(String),
    HandshakeSenderCrashed(String),
    FailedToReuniteHandshakeSinkAndStream,
    CouldNotEncodeOurHandshake(String),
    NoPeerCertificate,
    PeerCertificateInvalid(String),
    DidNotSendHandshake,
    InvalidRemoteHandshakeMessage(String),
    InvalidConsensusCertificate(String),
    /// The peer is on another network, by this name.
    WrongNetwork(String),
    /// The peer reported another chainspec hash.
    WrongChainspecHash(Hash32),
    /// The peer's handshake had no chainspec hash.
    MissingChainspecHash,
}

/// Why a peer was blocked, as far as connection failures go.
#[derive(Clone, Debug, PartialEq, Eq)]
pub enum BlocklistJustification {
    /// The peer is on the wrong network.
    WrongNetwork { peer_network_name: String },
    /// The peer presented the wrong chainspec hash.
    WrongChainspecHash { peer_chainspec_hash: Hash32 },
    /// The peer did not present a chainspec hash.
    MissingChainspecHash,
    /// The peer was dropped in the flakiness mode.
    FlakyNetworkForcedMode,
}

/// Whether an outgoing connection's failure gets the peer blocked: only a
/// peer on the wrong network or with a wrong or missing chainspec hash is;
/// transient failures, failures on our side and doubtful ones are not.
pub fn is_blockable_offense_for_outgoing(error: &ConnectionError) -> (r: Option<BlocklistJustification>)
    ensures
        match *error {
            ConnectionError::WrongNetwork(name) => r matches Some(
                BlocklistJustification::WrongNetwork { peer_network_name: n },
            ) && n@ == name@,
            ConnectionError::WrongChainspecHash(h) => r == Some(
                BlocklistJustification::WrongChainspecHash { peer_chainspec_hash: h },
            ),
            ConnectionError::MissingChainspecHash => r == Some(BlocklistJustification::MissingChainspecHash),
            _ => r is None,
        },
{
    match error {
        ConnectionError::WrongNetwork(name) => Some(
            BlocklistJustification::WrongNetwork { peer_network_name: name.clone() },
        ),
        ConnectionError::WrongChainspecHash(h) => Some(
            BlocklistJustification::WrongChainspecHash { peer_chainspec_hash: *h },
        ),
        ConnectionError::MissingChainspecHash => Some(BlocklistJustification::MissingChainspecHash),
        _ => None,
    }
}

/// The state of a component.
#[derive(Clone, Debug, PartialEq, Eq)]
pub enum ComponentState {
    Uninitialized,
    Initializing,
    Initialized,
    /// A fatal error stopped the component, with its message.
    Fatal(String),
}

/// The kinds of events the networking component gets.
#[derive(Copy, Clone, Debug, PartialEq, Eq, Structural)]
pub enum EventKind {
    Initialize,
    IncomingConnection,
    IncomingMessage,
    IncomingClosed,
    OutgoingConnection,
    OutgoingDropped,
    NetworkRequest,
    NetworkInfoRequest,
    GossipOurAddress,
    PeerAddressReceived,
    SweepOutgoing,
    BlocklistAnnouncement,
    TimedPeerDrop,
}

/// What the component does with an event.
#[derive(Copy, Clone, Debug, PartialEq, Eq, Structural)]
pub enum EventGate {
    /// The event is ignored (and logged).
    Ignore,
    /// The component initializes itself.
    Initialize,
    /// The event is handled.
    Handle,
}

/// What the component does with an event in a state.
pub open spec fn network_gate(state: ComponentState, event: EventKind) -> EventGate {
    match state {
        ComponentState::Initializing => if event == EventKind::Initialize {
            EventGate::Initialize
        } else {
            EventGate::Ignore
        },
        ComponentState::Initialized => if event == EventKind::Initialize {
            EventGate::Ignore
        } else {
            EventGate::Handle
        },
        _ => EventGate::Ignore,
    }
}

/// The state after an initialization: initialized if it succeeded,
/// otherwise stopped with the error's message.
pub open spec fn initialized_state(result: Result<(), String>) -> ComponentState {
    match result {
        Ok(()) => ComponentState::Initialized,
        Err(msg) => ComponentState::Fatal(msg),
    }
}

/// Which events are handled in which state: none before initialization
/// starts or after a fatal error; only the initialization while it is
/// pending; every event but a second initialization once initialized.
/// An ignored event leaves the state as it is and does nothing.
pub fn event_gate(state: &ComponentState, event: EventKind) -> (r: EventGate)
    ensures
        r == network_gate(*state, event),
{
    match state {
        ComponentState::Fatal(_) => EventGate::Ignore,
        ComponentState::Uninitialized => EventGate::Ignore,
        ComponentState::Initializing => match event {
            EventKind::Initialize => EventGate::Initialize,
            _ => EventGate::Ignore,
        },
        ComponentState::Initialized => match event {
            EventKind::Initialize => EventGate::Ignore,
            _ => EventGate::Handle,
        },
    }
}

/// The state after an initialization: initialized if it succeeded,
/// otherwise stopped with the error's message.
pub fn state_after_initialize(result: Result<(), String>) -> (r: ComponentState)
    ensures
        r == initialized_state(result),
        match result {
            Ok(()) => r == ComponentState::Initialized,
            Err(msg) => r matches ComponentState::Fatal(m) && m@ == msg@,
        },
{
    match result {
        Ok(()) => ComponentState::Initialized,
        Err(msg) => ComponentState::Fatal(msg),
    }
}

/// The networking component, as far as its life cycle goes.
pub struct Network {
    pub state: ComponentState,
}

impl Network {
    /// Decides what to do with an event: ignore it (no effects), start the
    /// initialization, or handle it. Deciding changes no state; the outcome
    /// of an initialization is recorded with [`Network::after_initialize`].
    pub fn handle_event(&mut self, event: EventKind) -> (r: EventGate)
        ensures
            r == network_gate(old(self).state, event),
            final(self).state == old(self).state,
    {
        event_gate(&self.state, event)
    }

    /// Records the outcome of the initialization: initialized, or stopped
    /// with the error's message.
    pub fn after_initialize(&mut self, result: Result<(), String>)
        ensures
            final(self).state == initialized_state(result),
    {
        self.state = state_after_initialize(result);
    }

    /// The component's state.
    pub fn state(&self) -> (r: &ComponentState)
        ensures
            *r == self.state,
    {
        &self.state
    }

    /// Sets the component's state.
    pub fn set_state(&mut self, new_state: ComponentState)
        ensures
            final(self).state == new_state,
    {
        self.state = new_state;
    }
}

/// An event is ignored, leaving the state as it is, exactly when the
/// component is uninitialized or stopped by a fatal error, when
/// initialization is pending and the event is not the initialization, or
/// when the component is initialized and the event is a second
/// initialization; the pending initialization is the one event that
/// initializes, and a failed initialization stops the component with the
/// error's message.
pub proof fn law_network_lifecycle(state: ComponentState, event: EventKind, error: String)
    ensures
        (network_gate(state, event) == EventGate::Ignore) <==> (state is Fatal || state is Uninitialized || (
        state is Initializing && event != EventKind::Initialize) || (state is Initialized && event
            == EventKind::Initialize)),
        (network_gate(state, event) == EventGate::Initialize) <==> (state is Initializing && event
            == EventKind::Initialize),
        (network_gate(state, event) == EventGate::Handle) <==> (state is Initialized && event
            != EventKind::Initialize),
        initialized_state(Err(error)) == ComponentState::Fatal(error),
        initialized_state(Ok(())) == ComponentState::Initialized,
{
}

/// Records whether a peer that completed its connection is syncing.
pub fn update_syncing_nodes_set(syncing_nodes: &mut std::collections::HashSet<NodeId>, peer_id: NodeId, is_syncing: bool)
    ensures
        final(syncing_nodes)@ == if is_syncing {
            old(syncing_nodes)@.insert(peer_id)
        } else {
            old(syncing_nodes)@.remove(peer_id)
        },
{
    if is_syncing {
        syncing_nodes.insert(peer_id);
    } else {
        syncing_nodes.remove(&peer_id);
    }
}

/// Whether the peer is a validator of the era.
pub open spec fn is_validator(validators_in_era: Set<NodeId>) -> spec_fn(NodeId) -> bool {
    |p: NodeId| validators_in_era.contains(p)
}

/// The connected peers a message to the era's validators goes to: those
/// that are validators in the era, in the order of the connections.
pub fn validators_for_broadcast(connected: &Vec<NodeId>, validators_in_era: &std::collections::HashSet<NodeId>) -> (r:
    Vec<NodeId>)
    ensures
        r@ == connected@.filter(is_validator(validators_in_era@)),
{
    let mut r: Vec<NodeId> = Vec::new();
    let mut i: usize = 0;
    while i < connected.len()
        invariant
            i <= connected@.len(),
            r@ == connected@.subrange(0, i as int).filter(is_validator(validators_in_era@)),
        decreases connected@.len() - i,
    {
        let peer = connected[i];
        proof {
            reveal(Seq::filter);
            assert(connected@.subrange(0, i + 1).drop_last() =~= connected@.subrange(0, i as int));
            assert(connected@.subrange(0, i + 1).last() == peer);
        }
        if validators_in_era.contains(&peer) {
            r.push(peer);
        }
        i += 1;
    }
    proof {
        assert(connected@.subrange(0, connected@.len() as int) =~= connected@);
    }
    r
}

/// Whether enough peers are connected both ways for the node to count as
/// initialized.
pub fn has_sufficient_fully_connected_peers(fully_connected: usize, min_peers_for_initialization: usize) -> (r: bool)
    ensures
        r == (fully_connected >= min_peers_for_initialization),
{
    fully_connected >= min_peers_for_initialization
}

} // verus!
