//! A verified model of a peer-to-peer node's coordination core: the
//! per-connection hub that fans transport lifecycle events out to every
//! registered protocol, the per-protocol view of the node's connections, the
//! process-unique identifier allocators, and the node-level dial and
//! name-resolution state machine.
//!
//! Wire transports, the negotiation handshake and the runtime's task plumbing
//! are outside collaborators: they exchange plain values (addresses as segment
//! lists, resolved names as address lists, lifecycle events) with the
//! functions here, and every decision taken on those values is verified.

use vstd::prelude::*;

pub mod address;
pub mod codec;
pub mod config;
pub mod crypto;
pub mod error;
pub mod protocol;
pub mod substream;
pub mod transport;
pub mod types;

use crate::address::{segments_match, IpAddress, Multiaddr, Protocol};
use crate::config::Litep2pConfig;
use crate::crypto::{PeerId, PublicKey};
use crate::error::Error;
use crate::protocol::protocol_set::TransportService;
use crate::transport::{TransportCommand, TransportEvent, TransportManagerHandle};
use crate::types::ConnectionId;

verus! {

/// Events the node reports to the embedding application.
#[derive(Debug, PartialEq)]
pub enum Litep2pEvent {
    /// Connection established to peer.
    ConnectionEstablished {
        /// Remote peer.
        peer: PeerId,
        /// Remote address.
        address: Multiaddr,
    },
    /// Failed to dial peer.
    DialFailure {
        /// Address of the peer.
        address: Multiaddr,
        /// Dial error.
        error: Error,
    },
}

/// The wire transports a node can multiplex.
#[derive(Debug, Clone, Copy, PartialEq, Eq, Structural)]
pub enum SupportedTransport {
    Tcp,
    Quic,
    WebRtc,
    WebSocket,
}

/// The transport dispatch table: one command queue per enabled transport,
/// plus the connection-identifier counter dials draw from.  A queue models
/// the bounded channel toward that transport's task: verified code appends a
/// dial command, the task drains the queue in order.
#[derive(Debug)]
pub struct TransportContext {
    /// Command queue of the TCP transport, when enabled.
    pub tcp: Option<Vec<TransportCommand>>,
    /// Command queue of the QUIC transport, when enabled.
    pub quic: Option<Vec<TransportCommand>>,
    /// Command queue of the WebRTC transport, when enabled.
    pub webrtc: Option<Vec<TransportCommand>>,
    /// Command queue of the WebSocket transport, when enabled.
    pub websocket: Option<Vec<TransportCommand>>,
    /// Connection-identifier counter.
    pub connection_id: ConnectionId,
}

/// Whether the dispatch table has `transport` enabled.
pub open spec fn transport_registered(ctx: TransportContext, transport: SupportedTransport) -> bool {
    match transport {
        SupportedTransport::Tcp => ctx.tcp is Some,
        SupportedTransport::Quic => ctx.quic is Some,
        SupportedTransport::WebRtc => ctx.webrtc is Some,
        SupportedTransport::WebSocket => ctx.websocket is Some,
    }
}

/// The commands queued toward `transport`, oldest first; empty when the
/// transport is not enabled.
pub open spec fn queued_commands(ctx: TransportContext, transport: SupportedTransport) -> Seq<
    TransportCommand,
> {
    let slot = match transport {
        SupportedTransport::Tcp => ctx.tcp,
        SupportedTransport::Quic => ctx.quic,
        SupportedTransport::WebRtc => ctx.webrtc,
        SupportedTransport::WebSocket => ctx.websocket,
    };
    match slot {
        Some(queue) => queue@,
        None => Seq::empty(),
    }
}

/// Whether every transport other than `transport` has the same state in
/// `post` as in `pre`.
pub open spec fn other_transports_unchanged(
    pre: TransportContext,
    post: TransportContext,
    transport: SupportedTransport,
) -> bool {
    match transport {
        SupportedTransport::Tcp => post.quic == pre.quic && post.webrtc == pre.webrtc
            && post.websocket == pre.websocket,
        SupportedTransport::Quic => post.tcp == pre.tcp && post.webrtc == pre.webrtc
            && post.websocket == pre.websocket,
        SupportedTransport::WebRtc => post.tcp == pre.tcp && post.quic == pre.quic
            && post.websocket == pre.websocket,
        SupportedTransport::WebSocket => post.tcp == pre.tcp && post.quic == pre.quic
            && post.webrtc == pre.webrtc,
    }
}

/// How a dial changes the dispatch table: the connection identifier is
/// consumed either way (it is allocated before the table is consulted); when
/// `transport` is enabled the command is appended to exactly its queue, and
/// when it is not, nothing is sent and the address comes back inside the
/// error.
pub open spec fn dial_transition(
    pre: TransportContext,
    post: TransportContext,
    transport: SupportedTransport,
    address: Multiaddr,
    r: Result<ConnectionId, Error>,
) -> bool {
    &&& post.connection_id.value == pre.connection_id.value + 1
    &&& match r {
        Ok(id) => {
            &&& transport_registered(pre, transport)
            &&& id.value == pre.connection_id.value
            &&& transport_registered(post, transport)
            &&& queued_commands(post, transport) == queued_commands(pre, transport).push(
                TransportCommand::Dial { address, connection_id: id },
            )
            &&& other_transports_unchanged(pre, post, transport)
        },
        Err(e) => {
            &&& !transport_registered(pre, transport)
            &&& e == Error::TransportNotSupported(address)
            &&& post.tcp == pre.tcp
            &&& post.quic == pre.quic
            &&& post.webrtc == pre.webrtc
            &&& post.websocket == pre.websocket
        },
    }
}

impl TransportContext {
    /// An empty dispatch table.
    pub fn new() -> (r: TransportContext)
        ensures
            r.tcp is None,
            r.quic is None,
            r.webrtc is None,
            r.websocket is None,
            r.connection_id.value == 0,
    {
        TransportContext {
            tcp: None,
            quic: None,
            webrtc: None,
            websocket: None,
            connection_id: ConnectionId::new(),
        }
    }

    /// Enable `transport`, giving it a fresh, empty command queue.
    pub fn add_transport(&mut self, transport: SupportedTransport)
        ensures
            final(self).connection_id == old(self).connection_id,
            transport_registered(*final(self), transport),
            queued_commands(*final(self), transport) == Seq::<TransportCommand>::empty(),
            other_transports_unchanged(*old(self), *final(self), transport),
    {
        match transport {
            SupportedTransport::Tcp => {
                self.tcp = Some(Vec::new());
            },
            SupportedTransport::Quic => {
                self.quic = Some(Vec::new());
            },
            SupportedTransport::WebRtc => {
                self.webrtc = Some(Vec::new());
            },
            SupportedTransport::WebSocket => {
                self.websocket = Some(Vec::new());
            },
        }
    }

    /// Dial a remote peer over TCP.
    pub fn dial_tcp(&mut self, address: Multiaddr) -> (r: Result<ConnectionId, Error>)
        requires
            old(self).connection_id.value < usize::MAX,
        ensures
            dial_transition(*old(self), *final(self), SupportedTransport::Tcp, address, r),
    {
        let connection_id = self.connection_id.next();
        match &mut self.tcp {
            Some(queue) => {
                queue.push(TransportCommand::Dial { address, connection_id });
                Ok(connection_id)
            },
            None => Err(Error::TransportNotSupported(address)),
        }
    }

    /// Dial a remote peer over WebSocket.
    pub fn dial_ws(&mut self, address: Multiaddr) -> (r: Result<ConnectionId, Error>)
        requires
            old(self).connection_id.value < usize::MAX,
        ensures
            dial_transition(*old(self), *final(self), SupportedTransport::WebSocket, address, r),
    {
        let connection_id = self.connection_id.next();
        match &mut self.websocket {
            Some(queue) => {
                queue.push(TransportCommand::Dial { address, connection_id });
                Ok(connection_id)
            },
            None => Err(Error::TransportNotSupported(address)),
        }
    }

    /// Dial a remote peer over QUIC.
    pub fn dial_quic(&mut self, address: Multiaddr) -> (r: Result<ConnectionId, Error>)
        requires
            old(self).connection_id.value < usize::MAX,
        ensures
            dial_transition(*old(self), *final(self), SupportedTransport::Quic, address, r),
    {
        let connection_id = self.connection_id.next();
        match &mut self.quic {
            Some(queue) => {
                queue.push(TransportCommand::Dial { address, connection_id });
                Ok(connection_id)
            },
            None => Err(Error::TransportNotSupported(address)),
        }
    }
}

/// Whether the address's first segment is a DNS-name variant.
pub open spec fn dns_rooted(segments: Seq<Protocol>) -> bool {
    &&& segments.len() > 0
    &&& (segments[0] is Dns || segments[0] is Dns4 || segments[0] is Dns6)
}

/// Whether the address's first segment is a literal IP address.
pub open spec fn ip_rooted(segments: Seq<Protocol>) -> bool {
    &&& segments.len() > 0
    &&& (segments[0] is Ip4 || segments[0] is Ip6)
}

/// The dial state machine's routing decision for a literal-IP address: TCP
/// with an optional WebSocket overlay routes to the TCP or WebSocket
/// transport, UDP with a QUIC-v1 overlay routes to the QUIC transport, and
/// any other layering is unsupported.
pub open spec fn routed_transport(segments: Seq<Protocol>) -> Option<SupportedTransport> {
    if !ip_rooted(segments) {
        None
    } else if segments.len() >= 2 && segments[1] is Tcp {
        if segments.len() >= 3 && segments[2] is Ws {
            Some(SupportedTransport::WebSocket)
        } else {
            Some(SupportedTransport::Tcp)
        }
    } else if segments.len() >= 3 && segments[1] is Udp && segments[2] is QuicV1 {
        Some(SupportedTransport::Quic)
    } else {
        None
    }
}

/// The first IPv4 address of a resolver's answer, if any.
pub open spec fn first_v4(ips: Seq<IpAddress>) -> Option<u32>
    decreases ips.len(),
{
    if ips.len() == 0 {
        None
    } else {
        match ips[0] {
            IpAddress::V4(value) => Some(value),
            IpAddress::V6(_) => first_v4(ips.drop_first()),
        }
    }
}

/// The first IPv6 address of a resolver's answer, if any.
pub open spec fn first_v6(ips: Seq<IpAddress>) -> Option<u128>
    decreases ips.len(),
{
    if ips.len() == 0 {
        None
    } else {
        match ips[0] {
            IpAddress::V6(value) => Some(value),
            IpAddress::V4(_) => first_v6(ips.drop_first()),
        }
    }
}

/// The literal segment that replaces a DNS-name head once the name resolved
/// to `ips`: a v4-only head takes the answer's first IPv4 address, a v6-only
/// head its first IPv6 address, and a plain name prefers the first IPv6
/// address, falling back to the first IPv4 one.  `None` when the answer holds
/// no address of a family the head accepts.
pub open spec fn resolved_head(segment: Protocol, ips: Seq<IpAddress>) -> Option<Protocol> {
    match segment {
        Protocol::Dns4(_) => match first_v4(ips) {
            Some(value) => Some(Protocol::Ip4(value)),
            None => None,
        },
        Protocol::Dns6(_) => match first_v6(ips) {
            Some(value) => Some(Protocol::Ip6(value)),
            None => None,
        },
        Protocol::Dns(_) => match first_v6(ips) {
            Some(value) => Some(Protocol::Ip6(value)),
            None => match first_v4(ips) {
                Some(value) => Some(Protocol::Ip4(value)),
                None => None,
            },
        },
        _ => None,
    }
}

/// What the runtime's select loop observed: a transport reported a lifecycle
/// event, or a pending name resolution completed (`result` is `None` when
/// the lookup itself failed).
#[derive(Debug, PartialEq)]
pub enum NodePoll {
    Transport(TransportEvent),
    DnsResolved { address: Multiaddr, result: Option<Vec<IpAddress>> },
}

/// Removal of the pending dial that `address` answers: the first entry
/// recorded under an address with these segments is dropped; with no such
/// entry, nothing changes.
pub open spec fn pending_dial_removed(
    pre: Seq<(ConnectionId, Multiaddr)>,
    post: Seq<(ConnectionId, Multiaddr)>,
    address: Seq<Protocol>,
) -> bool {
    if exists|i: int| 0 <= i < pre.len() && segments_match((#[trigger] pre[i]).1@, address) {
        exists|i: int|
            {
                &&& 0 <= i < pre.len()
                &&& segments_match((#[trigger] pre[i]).1@, address)
                &&& forall|j: int| 0 <= j < i ==> !segments_match((#[trigger] pre[j]).1@, address)
                &&& post == pre.remove(i)
            }
    } else {
        post == pre
    }
}

/// Removal of the pending resolution that just completed: the first entry
/// with these segments is dropped; with no such entry, nothing changes.
pub open spec fn pending_resolution_removed(
    pre: Seq<Multiaddr>,
    post: Seq<Multiaddr>,
    address: Seq<Protocol>,
) -> bool {
    if exists|i: int| 0 <= i < pre.len() && segments_match((#[trigger] pre[i])@, address) {
        exists|i: int|
            {
                &&& 0 <= i < pre.len()
                &&& segments_match((#[trigger] pre[i])@, address)
                &&& forall|j: int| 0 <= j < i ==> !segments_match((#[trigger] pre[j])@, address)
                &&& post == pre.remove(i)
            }
    } else {
        post == pre
    }
}

/// The node: the application's single entry and exit point.  It owns the
/// transport dispatch table and tracks in-flight dials and in-flight name
/// resolutions; the runtime drives it with [`Litep2p::next_event`].
#[derive(Debug)]
pub struct Litep2p {
    /// The local node's identity.
    pub local_peer_id: PeerId,
    /// The addresses the enabled transports listen on.
    pub listen_addresses: Vec<Multiaddr>,
    /// The enabled transports.
    pub transports: TransportContext,
    /// In-flight dials: the requested address, keyed by the connection
    /// identifier the dial was tagged with.
    pub pending_connections: Vec<(ConnectionId, Multiaddr)>,
    /// Addresses whose name resolution is in flight.
    pub pending_dns_resolves: Vec<Multiaddr>,
}

/// How a dial of a literal-IP address changes the node: the routing decision
/// of [`routed_transport`] picks the transport; a routed dial consumes a
/// connection identifier, queues the command on exactly that transport and
/// records the pending dial; an unsupported layering sends nothing; a routed
/// dial toward a transport that is not enabled consumes the identifier but
/// sends and records nothing.
pub open spec fn literal_dial_transition(
    pre: Litep2p,
    post: Litep2p,
    address: Seq<Protocol>,
    r: Result<(), Error>,
) -> bool {
    &&& post.local_peer_id == pre.local_peer_id
    &&& post.listen_addresses == pre.listen_addresses
    &&& post.pending_dns_resolves == pre.pending_dns_resolves
    &&& match routed_transport(address) {
        Some(transport) => {
            if transport_registered(pre.transports, transport) {
                &&& r is Ok
                &&& post.transports.connection_id.value == pre.transports.connection_id.value + 1
                &&& transport_registered(post.transports, transport)
                &&& dial_command_queued(
                    queued_commands(pre.transports, transport),
                    queued_commands(post.transports, transport),
                    address,
                    ConnectionId { value: pre.transports.connection_id.value },
                )
                &&& other_transports_unchanged(pre.transports, post.transports, transport)
                &&& post.pending_connections@.len() == pre.pending_connections@.len() + 1
                &&& forall|k: int|
                    0 <= k < pre.pending_connections@.len() ==> post.pending_connections@[k]
                        == pre.pending_connections@[k]
                &&& post.pending_connections@.last().0 == ConnectionId {
                    value: pre.transports.connection_id.value,
                }
                &&& post.pending_connections@.last().1@ == address
            } else {
                &&& r matches Err(e) && e matches Error::TransportNotSupported(a) && a@ == address
                &&& post.transports.connection_id.value == pre.transports.connection_id.value + 1
                &&& post.transports.tcp == pre.transports.tcp
                &&& post.transports.quic == pre.transports.quic
                &&& post.transports.webrtc == pre.transports.webrtc
                &&& post.transports.websocket == pre.transports.websocket
                &&& post.pending_connections == pre.pending_connections
            }
        },
        None => {
            &&& r matches Err(e) && e matches Error::TransportNotSupported(a) && a@ == address
            &&& post.transports == pre.transports
            &&& post.pending_connections == pre.pending_connections
        },
    }
}

/// `post` is `pre` with one more dial command at the end, for an address
/// with segments `address` under identifier `id`.
pub open spec fn dial_command_queued(
    pre: Seq<TransportCommand>,
    post: Seq<TransportCommand>,
    address: Seq<Protocol>,
    id: ConnectionId,
) -> bool {
    &&& post.len() == pre.len() + 1
    &&& forall|k: int| 0 <= k < pre.len() ==> post[k] == pre[k]
    &&& match post.last() {
        TransportCommand::Dial { address: a, connection_id: c } => {
            &&& a@ == address
            &&& c == id
        },
    }
}

/// How `connect` changes the node: a DNS-rooted address registers a pending
/// resolution and succeeds at once, sending nothing; anything else runs the
/// literal dial of [`literal_dial_transition`].
pub open spec fn connect_transition(
    pre: Litep2p,
    post: Litep2p,
    address: Multiaddr,
    r: Result<(), Error>,
) -> bool {
    if dns_rooted(address@) {
        &&& r is Ok
        &&& post.local_peer_id == pre.local_peer_id
        &&& post.listen_addresses == pre.listen_addresses
        &&& post.transports == pre.transports
        &&& post.pending_connections == pre.pending_connections
        &&& post.pending_dns_resolves@ == pre.pending_dns_resolves@.push(address)
    } else {
        literal_dial_transition(pre, post, address@, r)
    }
}

impl Litep2p {
    /// A node from its configuration, together with the per-protocol views of
    /// the registered protocols, in registration order with notification
    /// protocols first; the runtime hands each view to its protocol's handler
    /// task.  Fails when no transport is configured: a node with zero
    /// reachable transports cannot usefully exist.
    pub fn new(config: Litep2pConfig) -> (r: Result<(Litep2p, Vec<TransportService>), Error>)
        requires
            config.wf(),
        ensures
            match r {
                Ok((node, services)) => {
                    &&& config.tcp is Some
                    &&& node.local_peer_id == PeerId::of_public_key(
                        PublicKey::Ed25519(config.keypair.seed),
                    )
                    &&& node.listen_addresses@.len() == 1
                    &&& (match config.tcp {
                        Some(tcp) => node.listen_addresses@[0]@ == tcp.listen_address@,
                        None => false,
                    })
                    &&& transport_registered(node.transports, SupportedTransport::Tcp)
                    &&& queued_commands(node.transports, SupportedTransport::Tcp) == Seq::<
                        TransportCommand,
                    >::empty()
                    &&& !transport_registered(node.transports, SupportedTransport::Quic)
                    &&& !transport_registered(node.transports, SupportedTransport::WebRtc)
                    &&& !transport_registered(node.transports, SupportedTransport::WebSocket)
                    &&& node.transports.connection_id.value == 0
                    &&& node.pending_connections@.len() == 0
                    &&& node.pending_dns_resolves@.len() == 0
                    &&& services@.len() == config.notification_protocols@.len()
                        + config.request_response_protocols@.len()
                    &&& forall|i: int|
                        0 <= i < services@.len() ==> {
                            &&& (#[trigger] services@[i]).local_peer_id == node.local_peer_id
                            &&& services@[i].connections@.len() == 0
                            &&& services@[i].pending_commands@.len() == 0
                            &&& services@[i].transport_handle.known_addresses@.len() == 0
                            &&& services@[i].transport_handle.dial_queue@.len() == 0
                            &&& services@[i].wf()
                        }
                    &&& forall|i: int|
                        0 <= i < config.notification_protocols@.len() ==> services@[i].protocol
                            == (#[trigger] config.notification_protocols@[i]).0
                    &&& forall|i: int|
                        0 <= i < config.request_response_protocols@.len() ==> services@[i
                            + config.notification_protocols@.len()].protocol == (
                        #[trigger] config.request_response_protocols@[i]).0
                },
                Err(e) => {
                    &&& config.tcp is None
                    &&& e matches Error::Other(text) && text@ == "No transport specified"@
                },
            },
    {
        let local_peer_id = PeerId::from_public_key(&PublicKey::Ed25519(config.keypair.public()));

        let mut services: Vec<TransportService> = Vec::new();
        let mut i: usize = 0;
        let n = config.notification_protocols.len();
        while i < n
            invariant
                n == config.notification_protocols@.len(),
                i <= n,
                services@.len() == i,
                forall|j: int|
                    0 <= j < i ==> {
                        &&& (#[trigger] services@[j]).local_peer_id == local_peer_id
                        &&& services@[j].protocol == config.notification_protocols@[j].0
                        &&& services@[j].connections@.len() == 0
                        &&& services@[j].pending_commands@.len() == 0
                        &&& services@[j].transport_handle.known_addresses@.len() == 0
                        &&& services@[j].transport_handle.dial_queue@.len() == 0
                        &&& services@[j].wf()
                    },
            decreases n - i,
        {
            let name = config.notification_protocols[i].0.clone();
            services.push(TransportService::new(local_peer_id, name, TransportManagerHandle::new()));
            i = i + 1;
        }
        let mut k: usize = 0;
        let m = config.request_response_protocols.len();
        while k < m
            invariant
                n == config.notification_protocols@.len(),
                m == config.request_response_protocols@.len(),
                k <= m,
                services@.len() == n + k,
                forall|j: int|
                    0 <= j < n + k ==> {
                        &&& (#[trigger] services@[j]).local_peer_id == local_peer_id
                        &&& services@[j].connections@.len() == 0
                        &&& services@[j].pending_commands@.len() == 0
                        &&& services@[j].transport_handle.known_addresses@.len() == 0
                        &&& services@[j].transport_handle.dial_queue@.len() == 0
                        &&& services@[j].wf()
                    },
                forall|j: int|
                    0 <= j < n ==> (#[trigger] services@[j]).protocol
                        == config.notification_protocols@[j].0,
                forall|j: int|
                    0 <= j < k ==> (#[trigger] services@[j + n]).protocol
                        == config.request_response_protocols@[j].0,
            decreases m - k,
        {
            let name = config.request_response_protocols[k].0.clone();
            services.push(TransportService::new(local_peer_id, name, TransportManagerHandle::new()));
            k = k + 1;
        }

        let mut transports = TransportContext::new();
        let mut listen_addresses: Vec<Multiaddr> = Vec::new();
        match config.tcp {
            Some(tcp_config) => {
                transports.add_transport(SupportedTransport::Tcp);
                listen_addresses.push(tcp_config.listen_address);
            },
            None => {},
        }

        if listen_addresses.is_empty() {
            return Err(Error::Other("No transport specified".to_owned()));
        }

        Ok(
            (
                Litep2p {
                    local_peer_id,
                    listen_addresses,
                    transports,
                    pending_connections: Vec::new(),
                    pending_dns_resolves: Vec::new(),
                },
                services,
            ),
        )
    }

    /// The local node's identity.
    pub fn local_peer_id(&self) -> (r: &PeerId)
        ensures
            *r == self.local_peer_id,
    {
        &self.local_peer_id
    }

    /// The addresses the enabled transports listen on.
    pub fn listen_addresses(&self) -> (r: &Vec<Multiaddr>)
        ensures
            *r == self.listen_addresses,
    {
        &self.listen_addresses
    }

    /// Attempt to connect to a peer at `address`.
    ///
    /// A DNS-rooted address registers a pending resolution and returns at
    /// once; the resolution runs out of band and rejoins the event loop.  A
    /// literal-IP address is routed to the matching transport's command
    /// queue.  An address no configured transport supports is rejected
    /// without sending any command.  The dial itself completes in the
    /// background; its outcome is reported through [`Litep2p::next_event`].
    pub fn connect(&mut self, address: Multiaddr) -> (r: Result<(), Error>)
        requires
            old(self).transports.connection_id.value < usize::MAX,
        ensures
            connect_transition(*old(self), *final(self), address, r),
    {
        if address.len() == 0 {
            return Err(Error::TransportNotSupported(address));
        }
        let head_is_dns = matches!(
            &address.segments[0],
            Protocol::Dns(_) | Protocol::Dns4(_) | Protocol::Dns6(_)
        );
        if head_is_dns {
            self.pending_dns_resolves.push(address);
            return Ok(());
        }
        self.dial_literal(address)
    }

    /// Route a literal-IP address to the matching transport and record the
    /// pending dial.
    fn dial_literal(&mut self, address: Multiaddr) -> (r: Result<(), Error>)
        requires
            old(self).transports.connection_id.value < usize::MAX,
        ensures
            literal_dial_transition(*old(self), *final(self), address@, r),
    {
        let head_is_ip = address.len() > 0 && matches!(
            &address.segments[0],
            Protocol::Ip4(_) | Protocol::Ip6(_)
        );
        if !head_is_ip {
            return Err(Error::TransportNotSupported(address));
        }
        if address.len() >= 2 && matches!(&address.segments[1], Protocol::Tcp(_)) {
            let over_websocket = address.len() >= 3 && matches!(
                &address.segments[2],
                Protocol::Ws(_)
            );
            if over_websocket {
                let connection_id = self.transports.dial_ws(address.clone())?;
                self.pending_connections.push((connection_id, address));
                Ok(())
            } else {
                let connection_id = self.transports.dial_tcp(address.clone())?;
                self.pending_connections.push((connection_id, address));
                Ok(())
            }
        } else if address.len() >= 3 && matches!(&address.segments[1], Protocol::Udp(_))
            && matches!(&address.segments[2], Protocol::QuicV1) {
            let connection_id = self.transports.dial_quic(address.clone())?;
            self.pending_connections.push((connection_id, address));
            Ok(())
        } else {
            Err(Error::TransportNotSupported(address))
        }
    }

    /// Rewrite a DNS-rooted address once its name resolved: the head becomes
    /// a literal segment bearing the first resolved address of the family the
    /// head accepts, and every trailing segment is preserved unchanged;
    /// `None` as `result` means the lookup itself failed.
    pub fn on_resolved_dns_address(
        &self,
        address: Multiaddr,
        result: Option<Vec<IpAddress>>,
    ) -> (r: Result<Multiaddr, Error>)
        requires
            dns_rooted(address@),
        ensures
            match r {
                Ok(rewritten) => {
                    &&& result matches Some(ips) && resolved_head(address@[0], ips@) matches Some(
                        head,
                    ) && rewritten@ == seq![head] + address@.drop_first()
                },
                Err(e) => match result {
                    None => e == Error::DnsAddressResolutionFailed,
                    Some(ips) => {
                        &&& resolved_head(address@[0], ips@) is None
                        &&& e == Error::TransportNotSupported(address)
                    },
                },
            },
    {
        let ips = match result {
            Some(ips) => ips,
            None => {
                return Err(Error::DnsAddressResolutionFailed);
            },
        };

        let head_is_dns4 = matches!(&address.segments[0], Protocol::Dns4(_));
        let head_is_dns6 = matches!(&address.segments[0], Protocol::Dns6(_));

        // one scan finds the first address of each family
        let mut first_ip4: Option<u32> = None;
        let mut first_ip6: Option<u128> = None;
        let mut i: usize = 0;
        let n = ips.len();
        proof {
            assert(ips@.skip(0) =~= ips@);
        }
        while i < n
            invariant
                n == ips@.len(),
                i <= n,
                first_v4(ips@) == (match first_ip4 {
                    Some(value) => Some(value),
                    None => first_v4(ips@.skip(i as int)),
                }),
                first_v6(ips@) == (match first_ip6 {
                    Some(value) => Some(value),
                    None => first_v6(ips@.skip(i as int)),
                }),
            decreases n - i,
        {
            proof {
                assert(ips@.skip(i as int).drop_first() =~= ips@.skip(i + 1));
                assert(ips@.skip(i as int)[0] == ips@[i as int]);
            }
            match ips[i] {
                IpAddress::V4(value) => {
                    if first_ip4.is_none() {
                        first_ip4 = Some(value);
                    }
                },
                IpAddress::V6(value) => {
                    if first_ip6.is_none() {
                        first_ip6 = Some(value);
                    }
                },
            }
            i = i + 1;
        }
        proof {
            assert(first_v4(ips@.skip(n as int)) is None);
            assert(first_v6(ips@.skip(n as int)) is None);
        }

        let head: Protocol;
        if head_is_dns4 {
            head = match first_ip4 {
                Some(value) => Protocol::Ip4(value),
                None => {
                    return Err(Error::TransportNotSupported(address));
                },
            };
        } else if head_is_dns6 {
            head = match first_ip6 {
                Some(value) => Protocol::Ip6(value),
                None => {
                    return Err(Error::TransportNotSupported(address));
                },
            };
        } else {
            head = match first_ip6 {
                Some(value) => Protocol::Ip6(value),
                None => match first_ip4 {
                    Some(value) => Protocol::Ip4(value),
                    None => {
                        return Err(Error::TransportNotSupported(address));
                    },
                },
            };
        }

        let mut rewritten = Multiaddr::empty();
        rewritten.push(head);
        let mut i: usize = 1;
        let n = address.segments.len();
        while i < n
            invariant
                n == address@.len(),
                1 <= i <= n,
                rewritten@.len() == i,
                forall|j: int| 1 <= j < i ==> rewritten@[j] == address@[j],
                rewritten@[0] == head,
            decreases n - i,
        {
            rewritten.push(address.segments[i].clone());
            i = i + 1;
        }
        proof {
            assert(rewritten@ =~= seq![head] + address@.drop_first());
        }
        Ok(rewritten)
    }

    /// One step of the unified event loop.  The runtime awaits the enabled
    /// transports and the pending resolutions concurrently and hands in
    /// whatever arrived; the node returns the application-visible event, or
    /// `None` when the step only advanced internal state.
    ///
    /// A connection outcome settles the pending dial it answers.  A completed
    /// resolution settles its pending entry, and either the rewritten address
    /// is dialed (success stays internal: the dial's own outcome will arrive
    /// later) or the failure is reported against the original address.
    pub fn next_event(&mut self, poll: NodePoll) -> (r: Result<Option<Litep2pEvent>, Error>)
        requires
            old(self).transports.connection_id.value < usize::MAX,
            poll matches NodePoll::DnsResolved { address, .. } ==> dns_rooted(address@),
        ensures
            final(self).local_peer_id == old(self).local_peer_id,
            final(self).listen_addresses == old(self).listen_addresses,
            match poll {
                NodePoll::Transport(event) => match event {
                    TransportEvent::ConnectionEstablished { peer, address } => {
                        &&& r == Ok::<_, Error>(
                            Some(Litep2pEvent::ConnectionEstablished { peer, address }),
                        )
                        &&& pending_dial_removed(
                            old(self).pending_connections@,
                            final(self).pending_connections@,
                            address@,
                        )
                        &&& final(self).transports == old(self).transports
                        &&& final(self).pending_dns_resolves == old(self).pending_dns_resolves
                    },
                    TransportEvent::DialFailure { address, error } => {
                        &&& r == Ok::<_, Error>(Some(Litep2pEvent::DialFailure { address, error }))
                        &&& pending_dial_removed(
                            old(self).pending_connections@,
                            final(self).pending_connections@,
                            address@,
                        )
                        &&& final(self).transports == old(self).transports
                        &&& final(self).pending_dns_resolves == old(self).pending_dns_resolves
                    },
                    TransportEvent::ConnectionClosed { .. } => {
                        &&& r == Ok::<_, Error>(None::<Litep2pEvent>)
                        &&& *final(self) == *old(self)
                    },
                },
                NodePoll::DnsResolved { address, result } => {
                    &&& pending_resolution_removed(
                        old(self).pending_dns_resolves@,
                        final(self).pending_dns_resolves@,
                        address@,
                    )
                    &&& match result {
                        None => {
                            &&& r == Ok::<_, Error>(
                                Some(
                                    Litep2pEvent::DialFailure {
                                        address,
                                        error: Error::DnsAddressResolutionFailed,
                                    },
                                ),
                            )
                            &&& final(self).transports == old(self).transports
                            &&& final(self).pending_connections == old(self).pending_connections
                        },
                        Some(ips) => match resolved_head(address@[0], ips@) {
                            None => {
                                &&& (r matches Ok(Some(Litep2pEvent::DialFailure {
                                    address: a,
                                    error: Error::TransportNotSupported(inner),
                                })) && a@ == address@ && inner@ == address@)
                                &&& final(self).transports == old(self).transports
                                &&& final(self).pending_connections == old(
                                    self,
                                ).pending_connections
                            },
                            Some(head) => {
                                let rewritten = seq![head] + address@.drop_first();
                                let mid = Litep2p {
                                    pending_dns_resolves: final(self).pending_dns_resolves,
                                    ..*old(self)
                                };
                                match r {
                                    Ok(out) => {
                                        &&& out is None
                                        &&& literal_dial_transition(
                                            mid,
                                            *final(self),
                                            rewritten,
                                            Ok(()),
                                        )
                                    },
                                    Err(e) => literal_dial_transition(
                                        mid,
                                        *final(self),
                                        rewritten,
                                        Err(e),
                                    ),
                                }
                            },
                        },
                    }
                },
            },
    {
        match poll {
            NodePoll::Transport(event) => match event {
                TransportEvent::ConnectionEstablished { peer, address } => {
                    remove_pending_dial(&mut self.pending_connections, &address);
                    Ok(Some(Litep2pEvent::ConnectionEstablished { peer, address }))
                },
                TransportEvent::DialFailure { address, error } => {
                    remove_pending_dial(&mut self.pending_connections, &address);
                    Ok(Some(Litep2pEvent::DialFailure { address, error }))
                },
                TransportEvent::ConnectionClosed { .. } => Ok(None),
            },
            NodePoll::DnsResolved { address, result } => {
                remove_pending_resolution(&mut self.pending_dns_resolves, &address);
                match self.on_resolved_dns_address(address.clone(), result) {
                    Ok(rewritten) => {
                        self.dial_literal(rewritten)?;
                        Ok(None)
                    },
                    Err(error) => Ok(Some(Litep2pEvent::DialFailure { address, error })),
                }
            },
        }
    }
}

/// Drop the first pending dial recorded under an address with the same
/// segments as `address`, if one exists.
fn remove_pending_dial(pending: &mut Vec<(ConnectionId, Multiaddr)>, address: &Multiaddr)
    ensures
        pending_dial_removed(old(pending)@, final(pending)@, address@),
{
    let mut i: usize = 0;
    let n = pending.len();
    while i < n
        invariant
            n == pending@.len(),
            i <= n,
            *pending == *old(pending),
            forall|j: int| 0 <= j < i ==> !segments_match((#[trigger] pending@[j]).1@, address@),
        decreases n - i,
    {
        if pending[i].1.matches(address) {
            pending.remove(i);
            return ;
        }
        i = i + 1;
    }
}

/// Drop the first pending resolution with the same segments as `address`, if
/// one exists.
fn remove_pending_resolution(pending: &mut Vec<Multiaddr>, address: &Multiaddr)
    ensures
        pending_resolution_removed(old(pending)@, final(pending)@, address@),
{
    let mut i: usize = 0;
    let n = pending.len();
    while i < n
        invariant
            n == pending@.len(),
            i <= n,
            *pending == *old(pending),
            forall|j: int| 0 <= j < i ==> !segments_match((#[trigger] pending@[j])@, address@),
        decreases n - i,
    {
        if pending[i].matches(address) {
            pending.remove(i);
            return ;
        }
        i = i + 1;
    }
}

/// The dial state machine's selection table, spelled out: a literal-IP
/// address over TCP selects the TCP transport, over TCP with a WebSocket
/// overlay the WebSocket transport, over UDP with a QUIC-v1 overlay the QUIC
/// transport, and every other layering is rejected; a rejected or DNS-rooted
/// address sends no command, by [`connect_transition`].
pub proof fn lemma_transport_selection(segments: Seq<Protocol>)
    requires
        ip_rooted(segments),
        segments.len() >= 2,
    ensures
        segments[1] is Tcp && !(segments.len() >= 3 && segments[2] is Ws) ==> routed_transport(
            segments,
        ) == Some(SupportedTransport::Tcp),
        segments[1] is Tcp && segments.len() >= 3 && segments[2] is Ws ==> routed_transport(
            segments,
        ) == Some(SupportedTransport::WebSocket),
        segments[1] is Udp && segments.len() >= 3 && segments[2] is QuicV1 ==> routed_transport(
            segments,
        ) == Some(SupportedTransport::Quic),
        !(segments[1] is Tcp) && !(segments[1] is Udp && segments.len() >= 3 && segments[2]
            is QuicV1) ==> routed_transport(segments) is None,
{
}

/// A DNS-rooted address whose resolution produced a usable head is rewritten
/// to an address whose leading segment is a literal IP of the matching
/// family, with every trailing segment preserved from the original.
pub proof fn lemma_rewritten_address_preserves_tail(
    address: Seq<Protocol>,
    ips: Seq<IpAddress>,
    head: Protocol,
)
    requires
        dns_rooted(address),
        resolved_head(address[0], ips) == Some(head),
    ensures
        ({
            let rewritten = seq![head] + address.drop_first();
            &&& ip_rooted(rewritten)
            &&& head is Ip4 || head is Ip6
            &&& rewritten.len() == address.len()
            &&& rewritten[0] == head
            &&& forall|i: int| 1 <= i < address.len() ==> rewritten[i] == address[i]
            &&& rewritten.drop_first() == address.drop_first()
        }),
{
    let rewritten = seq![head] + address.drop_first();
    match address[0] {
        Protocol::Dns(_) => {
            match first_v6(ips) {
                Some(_) => {},
                None => {
                    assert(first_v4(ips) is Some);
                },
            }
        },
        _ => {},
    }
    assert(rewritten.drop_first() =~= address.drop_first());
}

} // verus!
