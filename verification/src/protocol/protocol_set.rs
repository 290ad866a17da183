//! The per-connection hub and the per-protocol view.
//!
//! A [`ProtocolSet`] is created for each established connection: it fans
//! lifecycle notifications out to every registered protocol's event lane,
//! routes substream outcomes to the one protocol that owns the negotiated
//! name, and collects the substream-open commands protocols send back.
//!
//! A [`TransportService`] is the only interface a protocol implementation is
//! given: its own record of the peers it is connected to, the keep-alive vote
//! it holds per peer, and its queue of commands toward connection hubs.
//!
//! Event lanes and command queues here model the bounded channels of the
//! running system: verified code appends, the runtime moves each queued item
//! to its destination in order.  A recorded connection's command lane is
//! treated as reachable until the close event is processed; the runtime maps
//! a lane that is already gone to [`Error::Disconnected`].

use crate::address::{Multiaddr, Protocol};
use crate::codec::ProtocolCodec;
use crate::crypto::{Keypair, PeerId};
use crate::error::Error;
use crate::protocol::{
    has_protocol_name, lemma_unique_name_elsewhere, protocol_names_unique, Direction, ProtocolName,
    TransportEvent,
};
use crate::substream::Substream;
use crate::transport::{TransportManagerEvent, TransportManagerHandle};
use crate::types::{substream_allocation, ConnectionId, SubstreamId, SubstreamIdAllocator};
use vstd::prelude::*;

verus! {

/// The handle to one connection's command lane that a protocol receives when
/// the connection is established.  Holding it in [`ConnectionType::Active`]
/// counts as a keep-alive vote; in [`ConnectionType::Inactive`] it does not.
#[derive(Debug, Clone, Copy, PartialEq, Eq, Structural)]
pub struct CommandSender {
    /// The connection the lane belongs to.
    pub connection: ConnectionId,
}

/// A connection from the point of view of one protocol: either the protocol
/// wants the connection kept alive (a strong handle), or it no longer needs
/// it but does not veto it (a weak handle).
#[derive(Debug, Clone, Copy, PartialEq, Eq, Structural)]
pub enum ConnectionType {
    /// The protocol wishes to keep the connection open.
    Active(CommandSender),
    /// The protocol is not interested in the connection; it will be closed by
    /// keep-alive timeout once every protocol considers it inactive.
    Inactive(CommandSender),
}

/// The handle a connection state carries, whichever way it is held.
pub open spec fn sender_of(connection: ConnectionType) -> CommandSender {
    match connection {
        ConnectionType::Active(sender) => sender,
        ConnectionType::Inactive(sender) => sender,
    }
}

/// Events a connection hub delivers to one protocol's event lane.
#[derive(Debug, PartialEq)]
pub enum InnerTransportEvent {
    /// Connection established to `peer`; `sender` is this connection's
    /// command lane, held as a strong handle until the protocol disconnects.
    ConnectionEstablished {
        peer: PeerId,
        address: Multiaddr,
        sender: CommandSender,
    },
    /// Connection to `peer` closed.
    ConnectionClosed {
        peer: PeerId,
    },
    /// Failed to dial `peer`; reported to the protocol that asked for the
    /// dial.
    DialFailure {
        peer: PeerId,
        address: Multiaddr,
    },
    /// Substream opened for `peer` under the protocol's own name.
    SubstreamOpened {
        peer: PeerId,
        protocol: ProtocolName,
        direction: Direction,
        substream: Substream,
    },
    /// An outbound substream-open attempt failed.
    SubstreamOpenFailure {
        substream: SubstreamId,
        error: Error,
    },
}

/// The protocol-facing form of an event: the same notification with the
/// command-lane handle stripped.
pub open spec fn protocol_event_of(event: InnerTransportEvent) -> TransportEvent {
    match event {
        InnerTransportEvent::ConnectionEstablished { peer, address, sender } => {
            TransportEvent::ConnectionEstablished { peer, address }
        },
        InnerTransportEvent::ConnectionClosed { peer } => {
            TransportEvent::ConnectionClosed { peer }
        },
        InnerTransportEvent::DialFailure { peer, address } => {
            TransportEvent::DialFailure { peer, address }
        },
        InnerTransportEvent::SubstreamOpened { peer, protocol, direction, substream } => {
            TransportEvent::SubstreamOpened { peer, protocol, direction, substream }
        },
        InnerTransportEvent::SubstreamOpenFailure { substream, error } => {
            TransportEvent::SubstreamOpenFailure { substream, error }
        },
    }
}

impl From<InnerTransportEvent> for TransportEvent {
    fn from(event: InnerTransportEvent) -> (r: TransportEvent)
        ensures
            r == protocol_event_of(event),
    {
        match event {
            InnerTransportEvent::ConnectionEstablished { peer, address, sender: _ } => {
                TransportEvent::ConnectionEstablished { peer, address }
            },
            InnerTransportEvent::ConnectionClosed { peer } => {
                TransportEvent::ConnectionClosed { peer }
            },
            InnerTransportEvent::DialFailure { peer, address } => {
                TransportEvent::DialFailure { peer, address }
            },
            InnerTransportEvent::SubstreamOpened { peer, protocol, direction, substream } => {
                TransportEvent::SubstreamOpened { peer, protocol, direction, substream }
            },
            InnerTransportEvent::SubstreamOpenFailure { substream, error } => {
                TransportEvent::SubstreamOpenFailure { substream, error }
            },
        }
    }
}

impl vstd::std_specs::convert::FromSpecImpl<InnerTransportEvent> for TransportEvent {
    open spec fn obeys_from_spec() -> bool {
        true
    }

    open spec fn from_spec(event: InnerTransportEvent) -> TransportEvent {
        protocol_event_of(event)
    }
}

/// The commands a protocol sends toward a connection hub.
#[derive(Debug, PartialEq)]
pub enum ProtocolCommand {
    /// Open a substream under the protocol's name; the identifier lets the
    /// protocol match the eventual outcome to this request.
    OpenSubstream {
        protocol: ProtocolName,
        substream_id: SubstreamId,
    },
}

/// One registered protocol, as a connection hub sees it: the framing it asked
/// for and its event lane.
#[derive(Debug)]
pub struct ProtocolContext {
    /// Framing of the protocol's substreams.
    pub codec: ProtocolCodec,
    /// Events queued toward the protocol, oldest first.
    pub events: Vec<InnerTransportEvent>,
}

impl ProtocolContext {
    /// A registration with an empty event lane.
    pub fn new(codec: ProtocolCodec) -> (r: ProtocolContext)
        ensures
            r.codec == codec,
            r.events@ == Seq::<InnerTransportEvent>::empty(),
    {
        ProtocolContext { codec, events: Vec::new() }
    }
}

/// Whether `event` announces the establishment of a connection to `peer` at
/// an address with segments `address`, carrying `sender` as the strong
/// handle.
pub open spec fn is_established_event(
    event: InnerTransportEvent,
    peer: PeerId,
    address: Seq<Protocol>,
    sender: CommandSender,
) -> bool {
    match event {
        InnerTransportEvent::ConnectionEstablished { peer: p, address: a, sender: s } => {
            &&& p == peer
            &&& a@ == address
            &&& s == sender
        },
        _ => false,
    }
}

/// Whether the peers recorded by a protocol view are pairwise distinct.
pub open spec fn connection_peers_unique(connections: Seq<(PeerId, ConnectionType)>) -> bool {
    forall|i: int, j: int| 0 <= i < j < connections.len() ==> connections[i].0 != connections[j].0
}

/// Whether a protocol view records `peer` at all.
pub open spec fn has_connection(connections: Seq<(PeerId, ConnectionType)>, peer: PeerId) -> bool {
    exists|i: int| 0 <= i < connections.len() && connections[i].0 == peer
}

/// In a table whose peers are pairwise distinct, no entry but the one at `i`
/// records the peer found at `i`.
pub proof fn lemma_unique_peer_elsewhere(connections: Seq<(PeerId, ConnectionType)>, i: int)
    requires
        connection_peers_unique(connections),
        0 <= i < connections.len(),
    ensures
        forall|k: int|
            0 <= k < connections.len() && k != i ==> (#[trigger] connections[k]).0
                != connections[i].0,
{
    assert forall|k: int|
        0 <= k < connections.len() && k != i implies (#[trigger] connections[k]).0
        != connections[i].0 by {
        if k < i {
            assert(connections[k].0 != connections[i].0);
        } else {
            assert(connections[i].0 != connections[k].0);
        }
    }
}

/// The per-protocol view of the transport substrate: the one interface a
/// protocol implementation is given.
#[derive(Debug)]
pub struct TransportService {
    /// The local node's identity.
    pub local_peer_id: PeerId,
    /// The protocol this view belongs to.
    pub protocol: ProtocolName,
    /// The peers this protocol is connected to, each with the keep-alive
    /// state this protocol holds for it.
    pub connections: Vec<(PeerId, ConnectionType)>,
    /// Handle to the node-wide address book and dial queue.
    pub transport_handle: TransportManagerHandle,
    /// Commands queued toward connection hubs, oldest first, each tagged
    /// with the connection it is for.
    pub pending_commands: Vec<(ConnectionId, ProtocolCommand)>,
}

impl TransportService {
    /// Whether the view is well formed: one record per peer, and a well
    /// formed address-book handle.
    pub open spec fn wf(&self) -> bool {
        &&& connection_peers_unique(self.connections@)
        &&& self.transport_handle.wf()
    }

    /// Whether this protocol currently holds a keep-alive vote for `peer`.
    pub open spec fn wants_connection(&self, peer: PeerId) -> bool {
        exists|i: int|
            0 <= i < self.connections@.len() && self.connections@[i].0 == peer
                && self.connections@[i].1 is Active
    }

    /// Whether this protocol has any record of `peer`.
    pub open spec fn knows_peer(&self, peer: PeerId) -> bool {
        has_connection(self.connections@, peer)
    }

    /// A view for one protocol, with no connections and nothing queued.
    pub fn new(
        local_peer_id: PeerId,
        protocol: ProtocolName,
        transport_handle: TransportManagerHandle,
    ) -> (r: TransportService)
        requires
            transport_handle.wf(),
        ensures
            r.local_peer_id == local_peer_id,
            r.protocol == protocol,
            r.connections@ == Seq::<(PeerId, ConnectionType)>::empty(),
            r.transport_handle == transport_handle,
            r.pending_commands@ == Seq::<(ConnectionId, ProtocolCommand)>::empty(),
            r.wf(),
    {
        TransportService {
            local_peer_id,
            protocol,
            connections: Vec::new(),
            transport_handle,
            pending_commands: Vec::new(),
        }
    }

    /// Ask the node to dial `peer` at an address from the address book; the
    /// outcome arrives later as an event.
    pub fn dial(&mut self, peer: &PeerId) -> (r: Result<(), Error>)
        requires
            old(self).wf(),
        ensures
            final(self).wf(),
            final(self).local_peer_id == old(self).local_peer_id,
            final(self).protocol == old(self).protocol,
            final(self).connections == old(self).connections,
            final(self).pending_commands == old(self).pending_commands,
            final(self).transport_handle.known_addresses == old(
                self,
            ).transport_handle.known_addresses,
            match r {
                Ok(()) => {
                    &&& crate::transport::peer_has_addresses(
                        old(self).transport_handle.known_addresses@,
                        *peer,
                    )
                    &&& final(self).transport_handle.dial_queue@ == old(
                        self,
                    ).transport_handle.dial_queue@.push(crate::transport::DialRequest::Peer(*peer))
                },
                Err(e) => {
                    &&& !crate::transport::peer_has_addresses(
                        old(self).transport_handle.known_addresses@,
                        *peer,
                    )
                    &&& e == Error::PeerDoesntExist(*peer)
                    &&& final(self).transport_handle.dial_queue == old(
                        self,
                    ).transport_handle.dial_queue
                },
            },
    {
        self.transport_handle.dial(peer)
    }

    /// Ask the node to dial an explicit address; the outcome arrives later as
    /// an event.
    pub fn dial_address(&mut self, address: Multiaddr) -> (r: Result<(), Error>)
        requires
            old(self).wf(),
        ensures
            final(self).wf(),
            final(self).local_peer_id == old(self).local_peer_id,
            final(self).protocol == old(self).protocol,
            final(self).connections == old(self).connections,
            final(self).pending_commands == old(self).pending_commands,
            final(self).transport_handle.known_addresses == old(
                self,
            ).transport_handle.known_addresses,
            r is Ok,
            final(self).transport_handle.dial_queue@ == old(
                self,
            ).transport_handle.dial_queue@.push(crate::transport::DialRequest::Address(address)),
    {
        self.transport_handle.dial_address(address);
        Ok(())
    }

    /// Merge `addresses` into the node-wide address book for future dialing;
    /// pure bookkeeping, no network effect.
    pub fn add_known_address(&mut self, peer: &PeerId, addresses: Vec<Multiaddr>)
        requires
            old(self).wf(),
        ensures
            final(self).wf(),
            final(self).local_peer_id == old(self).local_peer_id,
            final(self).protocol == old(self).protocol,
            final(self).connections == old(self).connections,
            final(self).pending_commands == old(self).pending_commands,
            final(self).transport_handle.dial_queue == old(self).transport_handle.dial_queue,
    {
        self.transport_handle.add_known_address(peer, addresses);
    }

    /// Release this protocol's keep-alive vote for `peer`: an active handle
    /// becomes inactive; a peer already inactive or unknown is left as it is.
    /// Never itself closes the connection.
    pub fn disconnect(&mut self, peer: &PeerId)
        requires
            old(self).wf(),
        ensures
            final(self).wf(),
            disconnect_transition(*old(self), *final(self), *peer),
            !final(self).wants_connection(*peer),
    {
        let mut i: usize = 0;
        let n = self.connections.len();
        while i < n
            invariant
                old(self).wf(),
                n == self.connections@.len(),
                i <= n,
                *self == *old(self),
                forall|j: int| 0 <= j < i ==> self.connections@[j].0 != *peer,
            decreases n - i,
        {
            if self.connections[i].0 == *peer {
                match self.connections[i].1 {
                    ConnectionType::Active(sender) => {
                        proof {
                            lemma_unique_peer_elsewhere(old(self).connections@, i as int);
                        }
                        self.connections[i] = (*peer, ConnectionType::Inactive(sender));
                        return ;
                    },
                    ConnectionType::Inactive(_) => {
                        proof {
                            lemma_unique_peer_elsewhere(old(self).connections@, i as int);
                        }
                        return ;
                    },
                }
            }
            i = i + 1;
        }
    }

    /// Request a substream to `peer` under this protocol's name.  Allocates a
    /// fresh substream identifier, queues the open command toward the peer's
    /// connection, and re-promotes an inactive handle back to active.  Fails
    /// with a peer-unknown error when this protocol has no record of `peer`.
    pub fn open_substream(&mut self, peer: PeerId, ids: &mut SubstreamIdAllocator) -> (r: Result<
        SubstreamId,
        Error,
    >)
        requires
            old(self).wf(),
            old(ids).counter < usize::MAX,
        ensures
            final(self).wf(),
            match r {
                Ok(id) => {
                    &&& old(self).knows_peer(peer)
                    &&& substream_allocation(*old(ids), *final(ids), id)
                    &&& open_substream_transition(*old(self), *final(self), peer, id)
                    &&& final(self).wants_connection(peer)
                },
                Err(e) => {
                    &&& e == Error::PeerDoesntExist(peer)
                    &&& !old(self).knows_peer(peer)
                    &&& *final(self) == *old(self)
                    &&& *final(ids) == *old(ids)
                },
            },
    {
        let mut i: usize = 0;
        let n = self.connections.len();
        while i < n
            invariant
                old(self).wf(),
                old(ids).counter < usize::MAX,
                *ids == *old(ids),
                n == self.connections@.len(),
                i <= n,
                *self == *old(self),
                forall|j: int| 0 <= j < i ==> self.connections@[j].0 != peer,
            decreases n - i,
        {
            if self.connections[i].0 == peer {
                proof {
                    lemma_unique_peer_elsewhere(old(self).connections@, i as int);
                }
                let substream_id = ids.allocate();
                let sender = match self.connections[i].1 {
                    ConnectionType::Active(sender) => sender,
                    ConnectionType::Inactive(sender) => sender,
                };
                self.connections[i] = (peer, ConnectionType::Active(sender));
                let command = ProtocolCommand::OpenSubstream {
                    protocol: self.protocol.clone(),
                    substream_id,
                };
                self.pending_commands.push((sender.connection, command));
                proof {
                    assert(self.connections@[i as int] == (
                        peer,
                        ConnectionType::Active(sender_of(old(self).connections@[i as int].1)),
                    ));
                }
                return Ok(substream_id);
            }
            i = i + 1;
        }
        proof {
            assert(!has_connection(old(self).connections@, peer));
        }
        Err(Error::PeerDoesntExist(peer))
    }

    /// Handle the next event of this protocol's event lane, which the runtime
    /// hands in delivery order: record an established connection as active,
    /// drop a closed connection, and pass the event on to the protocol in its
    /// protocol-facing form.
    pub fn next_event(&mut self, event: InnerTransportEvent) -> (r: TransportEvent)
        requires
            old(self).wf(),
        ensures
            final(self).wf(),
            final(self).local_peer_id == old(self).local_peer_id,
            final(self).protocol == old(self).protocol,
            final(self).transport_handle == old(self).transport_handle,
            final(self).pending_commands == old(self).pending_commands,
            match event {
                InnerTransportEvent::ConnectionEstablished { peer, address, sender } => {
                    &&& established_transition(*old(self), *final(self), peer, sender)
                    &&& r == TransportEvent::ConnectionEstablished { peer, address }
                    &&& final(self).wants_connection(peer)
                },
                InnerTransportEvent::ConnectionClosed { peer } => {
                    &&& closed_transition(*old(self), *final(self), peer)
                    &&& r == TransportEvent::ConnectionClosed { peer }
                    &&& !final(self).knows_peer(peer)
                },
                _ => {
                    &&& *final(self) == *old(self)
                    &&& r == protocol_event_of(event)
                },
            },
    {
        match event {
            InnerTransportEvent::ConnectionEstablished { peer, address, sender } => {
                self.upsert_connection(peer, ConnectionType::Active(sender));
                TransportEvent::ConnectionEstablished { peer, address }
            },
            InnerTransportEvent::ConnectionClosed { peer } => {
                self.remove_connection(peer);
                TransportEvent::ConnectionClosed { peer }
            },
            event => TransportEvent::from(event),
        }
    }

    /// Record `peer` under `connection`, replacing any earlier record.
    fn upsert_connection(&mut self, peer: PeerId, connection: ConnectionType)
        requires
            old(self).wf(),
        ensures
            final(self).wf(),
            final(self).local_peer_id == old(self).local_peer_id,
            final(self).protocol == old(self).protocol,
            final(self).transport_handle == old(self).transport_handle,
            final(self).pending_commands == old(self).pending_commands,
            connection_upserted(
                old(self).connections@,
                final(self).connections@,
                peer,
                connection,
            ),
            exists|i: int|
                0 <= i < final(self).connections@.len() && final(self).connections@[i] == (
                    peer,
                    connection,
                ),
    {
        let mut i: usize = 0;
        let n = self.connections.len();
        while i < n
            invariant
                old(self).wf(),
                n == self.connections@.len(),
                i <= n,
                *self == *old(self),
                forall|j: int| 0 <= j < i ==> self.connections@[j].0 != peer,
            decreases n - i,
        {
            if self.connections[i].0 == peer {
                proof {
                    lemma_unique_peer_elsewhere(old(self).connections@, i as int);
                }
                self.connections[i] = (peer, connection);
                proof {
                    assert(self.connections@[i as int] == (peer, connection));
                }
                return ;
            }
            i = i + 1;
        }
        proof {
            assert(!has_connection(old(self).connections@, peer));
        }
        self.connections.push((peer, connection));
        proof {
            assert(self.connections@.last() == (peer, connection));
        }
    }

    /// Drop the record of `peer`, if any.
    fn remove_connection(&mut self, peer: PeerId)
        requires
            old(self).wf(),
        ensures
            final(self).wf(),
            final(self).local_peer_id == old(self).local_peer_id,
            final(self).protocol == old(self).protocol,
            final(self).transport_handle == old(self).transport_handle,
            final(self).pending_commands == old(self).pending_commands,
            closed_transition(*old(self), *final(self), peer),
            !final(self).knows_peer(peer),
    {
        let mut i: usize = 0;
        let n = self.connections.len();
        while i < n
            invariant
                old(self).wf(),
                n == self.connections@.len(),
                i <= n,
                *self == *old(self),
                forall|j: int| 0 <= j < i ==> self.connections@[j].0 != peer,
            decreases n - i,
        {
            if self.connections[i].0 == peer {
                proof {
                    lemma_unique_peer_elsewhere(old(self).connections@, i as int);
                }
                self.connections.remove(i);
                return ;
            }
            i = i + 1;
        }
    }
}

/// How `disconnect` changes a view: the record of `peer`, when active, is
/// downgraded in place to inactive with the same handle; every other record
/// and every other field is unchanged.
pub open spec fn disconnect_transition(
    pre: TransportService,
    post: TransportService,
    peer: PeerId,
) -> bool {
    &&& post.local_peer_id == pre.local_peer_id
    &&& post.protocol == pre.protocol
    &&& post.transport_handle == pre.transport_handle
    &&& post.pending_commands == pre.pending_commands
    &&& post.connections@.len() == pre.connections@.len()
    &&& forall|i: int|
        0 <= i < pre.connections@.len() ==> (if pre.connections@[i].0 == peer {
            post.connections@[i] == (peer, ConnectionType::Inactive(sender_of(pre.connections@[i].1)))
        } else {
            post.connections@[i] == pre.connections@[i]
        })
}

/// How a successful `open_substream` changes a view: the record of `peer` is
/// re-promoted to active with its own handle, and the open command, tagged
/// with the peer's connection, is appended to the command queue; everything
/// else is unchanged.
pub open spec fn open_substream_transition(
    pre: TransportService,
    post: TransportService,
    peer: PeerId,
    id: SubstreamId,
) -> bool {
    &&& post.local_peer_id == pre.local_peer_id
    &&& post.protocol == pre.protocol
    &&& post.transport_handle == pre.transport_handle
    &&& post.connections@.len() == pre.connections@.len()
    &&& forall|i: int|
        0 <= i < pre.connections@.len() ==> (if pre.connections@[i].0 == peer {
            post.connections@[i] == (peer, ConnectionType::Active(sender_of(pre.connections@[i].1)))
        } else {
            post.connections@[i] == pre.connections@[i]
        })
    &&& exists|i: int|
        {
            &&& 0 <= i < pre.connections@.len()
            &&& pre.connections@[i].0 == peer
            &&& post.pending_commands@ == pre.pending_commands@.push(
                (
                    sender_of(pre.connections@[i].1).connection,
                    ProtocolCommand::OpenSubstream { protocol: pre.protocol, substream_id: id },
                ),
            )
        }
}

/// How processing a connection-established event changes a view: `peer` is
/// recorded as active under the delivered handle, replacing any earlier
/// record; everything else is unchanged.
pub open spec fn established_transition(
    pre: TransportService,
    post: TransportService,
    peer: PeerId,
    sender: CommandSender,
) -> bool {
    &&& post.local_peer_id == pre.local_peer_id
    &&& post.protocol == pre.protocol
    &&& post.transport_handle == pre.transport_handle
    &&& post.pending_commands == pre.pending_commands
    &&& connection_upserted(
        pre.connections@,
        post.connections@,
        peer,
        ConnectionType::Active(sender),
    )
}

/// Replace-or-append semantics of recording a peer's connection state.
pub open spec fn connection_upserted(
    pre: Seq<(PeerId, ConnectionType)>,
    post: Seq<(PeerId, ConnectionType)>,
    peer: PeerId,
    connection: ConnectionType,
) -> bool {
    if has_connection(pre, peer) {
        &&& post.len() == pre.len()
        &&& forall|i: int|
            0 <= i < pre.len() ==> (if pre[i].0 == peer {
                post[i] == (peer, connection)
            } else {
                post[i] == pre[i]
            })
    } else {
        post == pre.push((peer, connection))
    }
}

/// How processing a connection-closed event changes a view: the record of
/// `peer`, if any, is dropped; everything else is unchanged.
pub open spec fn closed_transition(
    pre: TransportService,
    post: TransportService,
    peer: PeerId,
) -> bool {
    &&& post.local_peer_id == pre.local_peer_id
    &&& post.protocol == pre.protocol
    &&& post.transport_handle == pre.transport_handle
    &&& post.pending_commands == pre.pending_commands
    &&& if has_connection(pre.connections@, peer) {
        exists|i: int|
            {
                &&& 0 <= i < pre.connections@.len()
                &&& pre.connections@[i].0 == peer
                &&& post.connections@ == pre.connections@.remove(i)
            }
    } else {
        post.connections == pre.connections
    }
}

/// Whether every registered protocol's event lane in `post` is its lane in
/// `pre` with exactly one more event at the end, and that event announces the
/// establishment of a connection to `peer` at `address` under `sender`; names
/// and codecs are unchanged.
pub open spec fn broadcast_established(
    pre: Seq<(ProtocolName, ProtocolContext)>,
    post: Seq<(ProtocolName, ProtocolContext)>,
    peer: PeerId,
    address: Seq<Protocol>,
    sender: CommandSender,
) -> bool {
    &&& post.len() == pre.len()
    &&& forall|i: int|
        0 <= i < pre.len() ==> {
            &&& (#[trigger] post[i]).0 == pre[i].0
            &&& post[i].1.codec == pre[i].1.codec
            &&& post[i].1.events@.len() == pre[i].1.events@.len() + 1
            &&& forall|k: int|
                0 <= k < pre[i].1.events@.len() ==> post[i].1.events@[k] == pre[i].1.events@[k]
            &&& is_established_event(post[i].1.events@.last(), peer, address, sender)
        }
}

/// Whether every registered protocol's event lane in `post` is its lane in
/// `pre` with exactly `event` appended; names and codecs are unchanged.
pub open spec fn broadcast_event(
    pre: Seq<(ProtocolName, ProtocolContext)>,
    post: Seq<(ProtocolName, ProtocolContext)>,
    event: InnerTransportEvent,
) -> bool {
    &&& post.len() == pre.len()
    &&& forall|i: int|
        0 <= i < pre.len() ==> {
            &&& (#[trigger] post[i]).0 == pre[i].0
            &&& post[i].1.codec == pre[i].1.codec
            &&& post[i].1.events@ == pre[i].1.events@.push(event)
        }
}

/// Whether `post` is `pre` with `event` appended to the lane registered under
/// `name`, every other registration unchanged.
pub open spec fn routed_event(
    pre: Seq<(ProtocolName, ProtocolContext)>,
    post: Seq<(ProtocolName, ProtocolContext)>,
    name: Seq<char>,
    event: InnerTransportEvent,
) -> bool {
    &&& post.len() == pre.len()
    &&& forall|i: int|
        0 <= i < pre.len() ==> (if (#[trigger] pre[i]).0@ == name {
            &&& post[i].0 == pre[i].0
            &&& post[i].1.codec == pre[i].1.codec
            &&& post[i].1.events@ == pre[i].1.events@.push(event)
        } else {
            post[i] == pre[i]
        })
}

/// The position at which a registration table holds `name`.
pub open spec fn registration_index<T>(entries: Seq<(ProtocolName, T)>, name: Seq<char>) -> int {
    choose|i: int| 0 <= i < entries.len() && entries[i].0@ == name
}

/// The single point of truth for one connection's relationship with every
/// registered protocol.  Each established connection gets one; the connection
/// task drives it with lifecycle reports and polls it for the substream-open
/// commands protocols queued.
#[derive(Debug)]
pub struct ProtocolSet {
    /// The registered protocols, each with its framing and its event lane.
    pub protocols: Vec<(ProtocolName, ProtocolContext)>,
    /// The node's identity keypair, for the connection's handshakes.
    pub keypair: Keypair,
    /// The connection this hub belongs to.
    pub connection: ConnectionId,
    /// Notifications queued toward the node's transport manager, oldest
    /// first.
    pub mgr_events: Vec<TransportManagerEvent>,
    /// The hub's own handle to the connection's command lane.  It starts
    /// strong and is downgraded to weak the moment the establishment has been
    /// broadcast: the hub itself never votes for keep-alive, only protocols
    /// do, through the handles they were given.
    pub tx: ConnectionType,
    /// Commands received from protocols, oldest first.
    pub commands: Vec<ProtocolCommand>,
}

impl ProtocolSet {
    /// Whether the hub is well formed: each protocol name registered at most
    /// once.
    pub open spec fn wf(&self) -> bool {
        protocol_names_unique(self.protocols@)
    }

    /// A hub for one connection, with every lane and queue empty and a strong
    /// handle to the connection's command lane.
    pub fn new(
        keypair: Keypair,
        connection: ConnectionId,
        protocols: Vec<(ProtocolName, ProtocolContext)>,
    ) -> (r: ProtocolSet)
        requires
            protocol_names_unique(protocols@),
        ensures
            r.protocols == protocols,
            r.keypair == keypair,
            r.connection == connection,
            r.mgr_events@ == Seq::<TransportManagerEvent>::empty(),
            r.tx == ConnectionType::Active(CommandSender { connection }),
            r.commands@ == Seq::<ProtocolCommand>::empty(),
            r.wf(),
    {
        ProtocolSet {
            protocols,
            keypair,
            connection,
            mgr_events: Vec::new(),
            tx: ConnectionType::Active(CommandSender { connection }),
            commands: Vec::new(),
        }
    }

    /// Allocate the next substream identifier from the node's allocator.
    pub fn next_substream_id(&self, ids: &mut SubstreamIdAllocator) -> (r: SubstreamId)
        requires
            old(ids).counter < usize::MAX,
        ensures
            substream_allocation(*old(ids), *final(ids), r),
    {
        ids.allocate()
    }

    /// Route the substream opened for `peer` under `protocol` to the one
    /// registration that owns the name.  When the name was never registered,
    /// nothing is delivered anywhere and a protocol-not-supported error is
    /// returned: negotiation is contractually restricted to the registered
    /// name set, so this marks a mismatch between the two tables.
    pub fn report_substream_open(
        &mut self,
        peer: PeerId,
        protocol: ProtocolName,
        direction: Direction,
        substream: Substream,
    ) -> (r: Result<(), Error>)
        requires
            old(self).wf(),
        ensures
            final(self).wf(),
            final(self).keypair == old(self).keypair,
            final(self).connection == old(self).connection,
            final(self).mgr_events == old(self).mgr_events,
            final(self).tx == old(self).tx,
            final(self).commands == old(self).commands,
            match r {
                Ok(()) => {
                    &&& has_protocol_name(old(self).protocols@, protocol@)
                    &&& routed_event(
                        old(self).protocols@,
                        final(self).protocols@,
                        protocol@,
                        InnerTransportEvent::SubstreamOpened {
                            peer,
                            protocol,
                            direction,
                            substream,
                        },
                    )
                },
                Err(e) => {
                    &&& !has_protocol_name(old(self).protocols@, protocol@)
                    &&& e matches Error::ProtocolNotSupported(name) && name@ == protocol@
                    &&& *final(self) == *old(self)
                },
            },
    {
        let mut i: usize = 0;
        let n = self.protocols.len();
        while i < n
            invariant
                old(self).wf(),
                n == self.protocols@.len(),
                i <= n,
                *self == *old(self),
                forall|j: int| 0 <= j < i ==> self.protocols@[j].0@ != protocol@,
            decreases n - i,
        {
            if self.protocols[i].0 == protocol {
                proof {
                    lemma_unique_name_elsewhere(old(self).protocols@, i as int);
                }
                let entry = &mut self.protocols[i];
                entry.1.events.push(
                    InnerTransportEvent::SubstreamOpened { peer, protocol, direction, substream },
                );
                return Ok(());
            }
            i = i + 1;
        }
        proof {
            assert(!has_protocol_name(old(self).protocols@, protocol@));
        }
        Err(Error::ProtocolNotSupported(protocol.to_string()))
    }

    /// The framing the protocol registered.  Only names advertised during
    /// negotiation can reach this call, so the name is required to be
    /// registered.
    pub fn protocol_codec(&self, protocol: &ProtocolName) -> (r: ProtocolCodec)
        requires
            self.wf(),
            has_protocol_name(self.protocols@, protocol@),
        ensures
            r == self.protocols@[registration_index(self.protocols@, protocol@)].1.codec,
    {
        let mut i: usize = 0;
        let n = self.protocols.len();
        while i < n
            invariant
                self.wf(),
                has_protocol_name(self.protocols@, protocol@),
                n == self.protocols@.len(),
                i <= n,
                forall|j: int| 0 <= j < i ==> self.protocols@[j].0@ != protocol@,
            decreases n - i,
        {
            if self.protocols[i].0 == *protocol {
                proof {
                    let entries = self.protocols@;
                    let w = registration_index(entries, protocol@);
                    assert(0 <= w < entries.len() && entries[w].0@ == protocol@);
                    lemma_unique_name_elsewhere(entries, i as int);
                }
                return self.protocols[i].1.codec;
            }
            i = i + 1;
        }
        proof {
            assert(!has_protocol_name(self.protocols@, protocol@));
            assert(false);
        }
        unreached()
    }

    /// Route the failure of the outbound substream-open attempt `substream`
    /// to the registration that owns `protocol`; as with a delivery, an
    /// unregistered name is a table mismatch and nothing is delivered.
    pub fn report_substream_open_failure(
        &mut self,
        protocol: ProtocolName,
        substream: SubstreamId,
        error: Error,
    ) -> (r: Result<(), Error>)
        requires
            old(self).wf(),
        ensures
            final(self).wf(),
            final(self).keypair == old(self).keypair,
            final(self).connection == old(self).connection,
            final(self).mgr_events == old(self).mgr_events,
            final(self).tx == old(self).tx,
            final(self).commands == old(self).commands,
            match r {
                Ok(()) => {
                    &&& has_protocol_name(old(self).protocols@, protocol@)
                    &&& routed_event(
                        old(self).protocols@,
                        final(self).protocols@,
                        protocol@,
                        InnerTransportEvent::SubstreamOpenFailure { substream, error },
                    )
                },
                Err(e) => {
                    &&& !has_protocol_name(old(self).protocols@, protocol@)
                    &&& e matches Error::ProtocolNotSupported(name) && name@ == protocol@
                    &&& *final(self) == *old(self)
                },
            },
    {
        let mut i: usize = 0;
        let n = self.protocols.len();
        while i < n
            invariant
                old(self).wf(),
                n == self.protocols@.len(),
                i <= n,
                *self == *old(self),
                forall|j: int| 0 <= j < i ==> self.protocols@[j].0@ != protocol@,
            decreases n - i,
        {
            if self.protocols[i].0 == protocol {
                proof {
                    lemma_unique_name_elsewhere(old(self).protocols@, i as int);
                }
                let entry = &mut self.protocols[i];
                entry.1.events.push(InnerTransportEvent::SubstreamOpenFailure { substream, error });
                return Ok(());
            }
            i = i + 1;
        }
        proof {
            assert(!has_protocol_name(old(self).protocols@, protocol@));
        }
        Err(Error::ProtocolNotSupported(protocol.to_string()))
    }

    /// Broadcast to every registered protocol that the connection to `peer`
    /// is established, handing each a strong handle to this connection's
    /// command lane; then downgrade the hub's own handle to weak and forward
    /// one deduplicated notification to the node.  Requires the hub's handle
    /// to still be strong: establishment is reported once per connection.
    pub fn report_connection_established(&mut self, peer: PeerId, address: Multiaddr) -> (r: Result<
        (),
        Error,
    >)
        requires
            old(self).wf(),
            old(self).tx is Active,
        ensures
            final(self).wf(),
            final(self).keypair == old(self).keypair,
            final(self).connection == old(self).connection,
            final(self).commands == old(self).commands,
            r is Ok,
            broadcast_established(
                old(self).protocols@,
                final(self).protocols@,
                peer,
                address@,
                sender_of(old(self).tx),
            ),
            final(self).tx == ConnectionType::Inactive(sender_of(old(self).tx)),
            final(self).mgr_events@ == old(self).mgr_events@.push(
                TransportManagerEvent::ConnectionEstablished { peer, address },
            ),
    {
        let sender = match self.tx {
            ConnectionType::Active(sender) => sender,
            ConnectionType::Inactive(sender) => sender,
        };
        let mut i: usize = 0;
        let n = self.protocols.len();
        while i < n
            invariant
                old(self).wf(),
                n == self.protocols@.len(),
                i <= n,
                sender == sender_of(old(self).tx),
                self.keypair == old(self).keypair,
                self.connection == old(self).connection,
                self.commands == old(self).commands,
                self.mgr_events == old(self).mgr_events,
                self.tx == old(self).tx,
                self.protocols@.len() == old(self).protocols@.len(),
                forall|j: int|
                    i <= j < n ==> #[trigger] self.protocols@[j] == old(self).protocols@[j],
                forall|j: int|
                    0 <= j < i ==> {
                        &&& (#[trigger] self.protocols@[j]).0 == old(self).protocols@[j].0
                        &&& self.protocols@[j].1.codec == old(self).protocols@[j].1.codec
                        &&& self.protocols@[j].1.events@.len() == old(
                            self,
                        ).protocols@[j].1.events@.len() + 1
                        &&& forall|k: int|
                            0 <= k < old(self).protocols@[j].1.events@.len()
                                ==> self.protocols@[j].1.events@[k] == old(
                                self,
                            ).protocols@[j].1.events@[k]
                        &&& is_established_event(
                            self.protocols@[j].1.events@.last(),
                            peer,
                            address@,
                            sender,
                        )
                    },
            decreases n - i,
        {
            let entry = &mut self.protocols[i];
            entry.1.events.push(
                InnerTransportEvent::ConnectionEstablished {
                    peer,
                    address: address.clone(),
                    sender,
                },
            );
            i = i + 1;
        }
        self.tx = ConnectionType::Inactive(sender);
        self.mgr_events.push(TransportManagerEvent::ConnectionEstablished { peer, address });
        Ok(())
    }

    /// Broadcast to every registered protocol that the connection to `peer`
    /// closed, and forward the closure to the node.  Delivered on every
    /// closure, transport-initiated ones included.
    pub fn report_connection_closed(&mut self, peer: PeerId) -> (r: Result<(), Error>)
        requires
            old(self).wf(),
        ensures
            final(self).wf(),
            final(self).keypair == old(self).keypair,
            final(self).connection == old(self).connection,
            final(self).commands == old(self).commands,
            final(self).tx == old(self).tx,
            r is Ok,
            broadcast_event(
                old(self).protocols@,
                final(self).protocols@,
                InnerTransportEvent::ConnectionClosed { peer },
            ),
            final(self).mgr_events@ == old(self).mgr_events@.push(
                TransportManagerEvent::ConnectionClosed { peer },
            ),
    {
        let mut i: usize = 0;
        let n = self.protocols.len();
        while i < n
            invariant
                old(self).wf(),
                n == self.protocols@.len(),
                i <= n,
                self.keypair == old(self).keypair,
                self.connection == old(self).connection,
                self.commands == old(self).commands,
                self.mgr_events == old(self).mgr_events,
                self.tx == old(self).tx,
                self.protocols@.len() == old(self).protocols@.len(),
                forall|j: int|
                    i <= j < n ==> #[trigger] self.protocols@[j] == old(self).protocols@[j],
                forall|j: int|
                    0 <= j < i ==> {
                        &&& (#[trigger] self.protocols@[j]).0 == old(self).protocols@[j].0
                        &&& self.protocols@[j].1.codec == old(self).protocols@[j].1.codec
                        &&& self.protocols@[j].1.events@ == old(
                            self,
                        ).protocols@[j].1.events@.push(InnerTransportEvent::ConnectionClosed { peer })
                    },
            decreases n - i,
        {
            let entry = &mut self.protocols[i];
            entry.1.events.push(InnerTransportEvent::ConnectionClosed { peer });
            i = i + 1;
        }
        self.mgr_events.push(TransportManagerEvent::ConnectionClosed { peer });
        Ok(())
    }

    /// The next substream-open command some protocol queued for this
    /// connection, in arrival order, if any is waiting.
    pub fn next_event(&mut self) -> (r: Option<ProtocolCommand>)
        ensures
            final(self).protocols == old(self).protocols,
            final(self).keypair == old(self).keypair,
            final(self).connection == old(self).connection,
            final(self).mgr_events == old(self).mgr_events,
            final(self).tx == old(self).tx,
            match r {
                Some(command) => {
                    &&& old(self).commands@.len() > 0
                    &&& command == old(self).commands@[0]
                    &&& final(self).commands@ == old(self).commands@.remove(0)
                },
                None => {
                    &&& old(self).commands@.len() == 0
                    &&& final(self).commands == old(self).commands
                },
            },
    {
        if self.commands.is_empty() {
            None
        } else {
            Some(self.commands.remove(0))
        }
    }

    /// The receiving end of this connection's command lane: the runtime moves
    /// each command a protocol queued into the hub here, in order.
    pub fn deliver_command(&mut self, command: ProtocolCommand)
        ensures
            final(self).protocols == old(self).protocols,
            final(self).keypair == old(self).keypair,
            final(self).connection == old(self).connection,
            final(self).mgr_events == old(self).mgr_events,
            final(self).tx == old(self).tx,
            final(self).commands@ == old(self).commands@.push(command),
    {
        self.commands.push(command);
    }
}

/// Whether, across the views of all registered protocols, the connection to
/// `peer` is eligible for idle teardown: no protocol holds a keep-alive vote
/// for it, i.e. no strong handle survives anywhere.
pub open spec fn eligible_for_teardown(views: Seq<TransportService>, peer: PeerId) -> bool {
    forall|i: int| 0 <= i < views.len() ==> !(#[trigger] views[i]).wants_connection(peer)
}

/// Requesting a substream never withdraws a keep-alive vote: a protocol that
/// held `peer` active before an `open_substream` call, for whatever peer,
/// still holds it active afterwards.
pub proof fn lemma_open_substream_keeps_votes(
    pre: TransportService,
    post: TransportService,
    target: PeerId,
    id: SubstreamId,
    peer: PeerId,
)
    requires
        open_substream_transition(pre, post, target, id),
        pre.wants_connection(peer),
    ensures
        post.wants_connection(peer),
{
    let i = choose|i: int|
        0 <= i < pre.connections@.len() && pre.connections@[i].0 == peer && pre.connections@[i].1
            is Active;
    assert(post.connections@[i].0 == peer && post.connections@[i].1 is Active);
}

/// Processing a connection-established event never withdraws a keep-alive
/// vote either: it only adds or refreshes one.
pub proof fn lemma_established_keeps_votes(
    pre: TransportService,
    post: TransportService,
    target: PeerId,
    sender: CommandSender,
    peer: PeerId,
)
    requires
        established_transition(pre, post, target, sender),
        pre.wants_connection(peer),
    ensures
        post.wants_connection(peer),
{
    let i = choose|i: int|
        0 <= i < pre.connections@.len() && pre.connections@[i].0 == peer && pre.connections@[i].1
            is Active;
    if has_connection(pre.connections@, target) {
        assert(post.connections@[i].0 == peer && post.connections@[i].1 is Active);
    } else {
        assert(post.connections@ == pre.connections@.push((target, ConnectionType::Active(sender))));
        assert(post.connections@[i].0 == peer && post.connections@[i].1 is Active);
    }
}

/// `disconnect` withdraws exactly this protocol's vote for exactly that
/// peer: the peer is no longer wanted afterwards, and a vote held for any
/// other peer is untouched.
pub proof fn lemma_disconnect_withdraws_only_this_vote(
    pre: TransportService,
    post: TransportService,
    target: PeerId,
    peer: PeerId,
)
    requires
        disconnect_transition(pre, post, target),
    ensures
        !post.wants_connection(target),
        peer != target && pre.wants_connection(peer) ==> post.wants_connection(peer),
{
    assert forall|i: int|
        0 <= i < post.connections@.len() implies !(post.connections@[i].0 == target
        && post.connections@[i].1 is Active) by {
        if pre.connections@[i].0 == target {
            assert(post.connections@[i] == (
                target,
                ConnectionType::Inactive(sender_of(pre.connections@[i].1)),
            ));
        } else {
            assert(post.connections@[i] == pre.connections@[i]);
        }
    }
    if peer != target && pre.wants_connection(peer) {
        let i = choose|i: int|
            0 <= i < pre.connections@.len() && pre.connections@[i].0 == peer
                && pre.connections@[i].1 is Active;
        assert(post.connections@[i].0 == peer && post.connections@[i].1 is Active);
    }
}

/// A connection-closed event for one peer does not withdraw a vote held for
/// another.
pub proof fn lemma_closed_keeps_other_votes(
    pre: TransportService,
    post: TransportService,
    target: PeerId,
    peer: PeerId,
)
    requires
        closed_transition(pre, post, target),
        peer != target,
        pre.wants_connection(peer),
    ensures
        post.wants_connection(peer),
{
    let i = choose|i: int|
        0 <= i < pre.connections@.len() && pre.connections@[i].0 == peer && pre.connections@[i].1
            is Active;
    if has_connection(pre.connections@, target) {
        let k = choose|k: int|
            0 <= k < pre.connections@.len() && pre.connections@[k].0 == target
                && post.connections@ == pre.connections@.remove(k);
        if i < k {
            assert(post.connections@[i] == pre.connections@[i]);
        } else {
            assert(i != k);
            assert(post.connections@[i - 1] == pre.connections@[i]);
        }
    } else {
        assert(post.connections@ == pre.connections@);
    }
}

/// Once every registered protocol has called `disconnect` for a peer, no
/// strong handle survives anywhere and the connection is eligible for idle
/// teardown.
pub proof fn lemma_all_disconnected_teardown_eligible(
    pres: Seq<TransportService>,
    posts: Seq<TransportService>,
    peer: PeerId,
)
    requires
        posts.len() == pres.len(),
        forall|i: int| 0 <= i < pres.len() ==> disconnect_transition(pres[i], posts[i], peer),
    ensures
        eligible_for_teardown(posts, peer),
{
    assert forall|i: int| 0 <= i < posts.len() implies !(#[trigger] posts[i]).wants_connection(
        peer,
    ) by {
        lemma_disconnect_withdraws_only_this_vote(pres[i], posts[i], peer, peer);
    }
}

/// Requesting a substream after `disconnect` but before teardown restores the
/// keep-alive vote: the peer is wanted again, so the connection is no longer
/// eligible for teardown.
pub proof fn lemma_open_substream_restores_vote(
    pre: TransportService,
    post: TransportService,
    peer: PeerId,
    id: SubstreamId,
    views: Seq<TransportService>,
    which: int,
)
    requires
        open_substream_transition(pre, post, peer, id),
        pre.knows_peer(peer),
        0 <= which < views.len(),
        views[which] == post,
    ensures
        post.wants_connection(peer),
        !eligible_for_teardown(views, peer),
{
    let i = choose|i: int| 0 <= i < pre.connections@.len() && pre.connections@[i].0 == peer;
    assert(post.connections@[i] == (peer, ConnectionType::Active(sender_of(pre.connections@[i].1))));
    assert(post.connections@[i].0 == peer && post.connections@[i].1 is Active);
    assert(views[which].wants_connection(peer));
}

} // verus!
