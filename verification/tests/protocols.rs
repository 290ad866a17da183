//! Hub and view scenarios: event fan-out, substream routing, keep-alive
//! voting and identifier allocation.

use litep2p::address::{Multiaddr, Protocol};
use litep2p::codec::ProtocolCodec;
use litep2p::crypto::{Keypair, PeerId};
use litep2p::error::Error;
use litep2p::protocol::protocol_set::{
    CommandSender, ConnectionType, InnerTransportEvent, ProtocolCommand, ProtocolContext,
    ProtocolSet, TransportService,
};
use litep2p::protocol::{Direction, Libp2pProtocol, NotificationProtocol, ProtocolName, TransportEvent};
use litep2p::substream::Substream;
use litep2p::transport::{TransportManagerEvent, TransportManagerHandle};
use litep2p::types::{ConnectionId, SubstreamId, SubstreamIdAllocator};

fn name(text: &str) -> ProtocolName {
    ProtocolName::from(text.to_string())
}

fn address() -> Multiaddr {
    Multiaddr::from_segments(vec![Protocol::Ip4(0x7f000001), Protocol::Tcp(8888)])
}

fn hub() -> ProtocolSet {
    ProtocolSet::new(
        Keypair::from_seed(1),
        ConnectionId { value: 7 },
        vec![
            (name("/ipfs/ping/1.0.0"), ProtocolContext::new(ProtocolCodec::Identity(32))),
            (name("/ipfs/identify/1.0.0"), ProtocolContext::new(ProtocolCodec::UnsignedVarint)),
        ],
    )
}

fn view(protocol: &str) -> TransportService {
    TransportService::new(PeerId { id: 99 }, name(protocol), TransportManagerHandle::new())
}

#[test]
fn substream_routed_to_owning_protocol() {
    let mut set = hub();
    set.report_substream_open(
        PeerId { id: 1 },
        name("/ipfs/ping/1.0.0"),
        Direction::Inbound,
        Substream { id: 5 },
    )
    .unwrap();

    assert_eq!(set.protocols[0].1.events.len(), 1);
    assert_eq!(
        set.protocols[0].1.events[0],
        InnerTransportEvent::SubstreamOpened {
            peer: PeerId { id: 1 },
            protocol: name("/ipfs/ping/1.0.0"),
            direction: Direction::Inbound,
            substream: Substream { id: 5 },
        }
    );
    // the other protocol's lane saw nothing
    assert!(set.protocols[1].1.events.is_empty());
}

#[test]
fn unregistered_protocol_gets_nothing() {
    let mut set = hub();
    let result = set.report_substream_open(
        PeerId { id: 1 },
        name("/unknown/1"),
        Direction::Inbound,
        Substream { id: 5 },
    );
    match result {
        Err(Error::ProtocolNotSupported(text)) => assert_eq!(text, "/unknown/1"),
        _ => panic!("expected protocol-not-supported"),
    }
    // delivered to no protocol
    assert!(set.protocols[0].1.events.is_empty());
    assert!(set.protocols[1].1.events.is_empty());

    let result = set.report_substream_open_failure(
        name("/unknown/1"),
        SubstreamId { value: 0 },
        Error::Disconnected,
    );
    assert!(matches!(result, Err(Error::ProtocolNotSupported(_))));
    assert!(set.protocols[0].1.events.is_empty());
    assert!(set.protocols[1].1.events.is_empty());
}

#[test]
fn open_failure_routed_to_owning_protocol() {
    let mut set = hub();
    set.report_substream_open_failure(
        name("/ipfs/identify/1.0.0"),
        SubstreamId { value: 4 },
        Error::Disconnected,
    )
    .unwrap();
    assert!(set.protocols[0].1.events.is_empty());
    assert_eq!(
        set.protocols[1].1.events[0],
        InnerTransportEvent::SubstreamOpenFailure {
            substream: SubstreamId { value: 4 },
            error: Error::Disconnected,
        }
    );
}

#[test]
fn protocol_codec_lookup() {
    let set = hub();
    assert_eq!(set.protocol_codec(&name("/ipfs/ping/1.0.0")), ProtocolCodec::Identity(32));
    assert_eq!(set.protocol_codec(&name("/ipfs/identify/1.0.0")), ProtocolCodec::UnsignedVarint);
}

#[test]
fn establishment_broadcast_to_every_protocol() {
    let mut set = hub();
    let peer = PeerId { id: 1 };
    set.report_connection_established(peer, address()).unwrap();

    for entry in &set.protocols {
        assert_eq!(
            entry.1.events[0],
            InnerTransportEvent::ConnectionEstablished {
                peer,
                address: address(),
                sender: CommandSender { connection: ConnectionId { value: 7 } },
            }
        );
    }
    // the hub's own handle no longer votes for keep-alive
    assert!(matches!(set.tx, ConnectionType::Inactive(_)));
    // the node got one deduplicated notification
    assert_eq!(
        set.mgr_events,
        vec![TransportManagerEvent::ConnectionEstablished { peer, address: address() }]
    );
}

#[test]
fn closure_broadcast_to_every_protocol() {
    let mut set = hub();
    let peer = PeerId { id: 1 };
    set.report_connection_established(peer, address()).unwrap();
    set.report_connection_closed(peer).unwrap();

    for entry in &set.protocols {
        // established before closed, in delivery order
        assert_eq!(entry.1.events.len(), 2);
        assert!(matches!(entry.1.events[0], InnerTransportEvent::ConnectionEstablished { .. }));
        assert_eq!(entry.1.events[1], InnerTransportEvent::ConnectionClosed { peer });
    }
    assert_eq!(set.mgr_events[1], TransportManagerEvent::ConnectionClosed { peer });
}

#[test]
fn established_before_substream_events() {
    let mut set = hub();
    let peer = PeerId { id: 1 };
    set.report_connection_established(peer, address()).unwrap();
    set.report_substream_open(peer, name("/ipfs/ping/1.0.0"), Direction::Inbound, Substream { id: 1 })
        .unwrap();

    let events = &set.protocols[0].1.events;
    assert!(matches!(events[0], InnerTransportEvent::ConnectionEstablished { .. }));
    assert!(matches!(events[1], InnerTransportEvent::SubstreamOpened { .. }));
}

#[test]
fn command_queue_is_fifo() {
    let mut set = hub();
    assert_eq!(set.next_event(), None);

    set.deliver_command(ProtocolCommand::OpenSubstream {
        protocol: name("/ipfs/ping/1.0.0"),
        substream_id: SubstreamId { value: 0 },
    });
    set.deliver_command(ProtocolCommand::OpenSubstream {
        protocol: name("/ipfs/identify/1.0.0"),
        substream_id: SubstreamId { value: 1 },
    });

    match set.next_event() {
        Some(ProtocolCommand::OpenSubstream { protocol, substream_id }) => {
            assert_eq!(protocol, name("/ipfs/ping/1.0.0"));
            assert_eq!(substream_id, SubstreamId { value: 0 });
        }
        None => panic!("expected a command"),
    }
    assert!(set.next_event().is_some());
    assert_eq!(set.next_event(), None);
}

#[test]
fn substream_ids_never_reused() {
    let mut ids = SubstreamIdAllocator::new();
    let set = hub();
    let mut seen: Vec<SubstreamId> = Vec::new();
    for _ in 0..4 {
        seen.push(set.next_substream_id(&mut ids));
    }
    let mut service = view("/ipfs/ping/1.0.0");
    let peer = PeerId { id: 1 };
    let _ = service.next_event(InnerTransportEvent::ConnectionEstablished {
        peer,
        address: address(),
        sender: CommandSender { connection: ConnectionId { value: 7 } },
    });
    seen.push(service.open_substream(peer, &mut ids).unwrap());

    for (i, id) in seen.iter().enumerate() {
        assert_eq!(id.value, i);
        for later in &seen[i + 1..] {
            assert!(id.value < later.value);
            assert_ne!(id, later);
        }
    }
}

#[test]
fn keep_alive_voting() {
    // two protocols, each given a strong handle at establishment
    let mut ping = view("/ipfs/ping/1.0.0");
    let mut identify = view("/ipfs/identify/1.0.0");
    let peer = PeerId { id: 1 };
    let sender = CommandSender { connection: ConnectionId { value: 7 } };

    for service in [&mut ping, &mut identify] {
        let event = service.next_event(InnerTransportEvent::ConnectionEstablished {
            peer,
            address: address(),
            sender,
        });
        assert_eq!(event, TransportEvent::ConnectionEstablished { peer, address: address() });
        assert_eq!(service.connections[0], (peer, ConnectionType::Active(sender)));
    }

    // one protocol disconnects: its own vote is gone, the other's stays
    ping.disconnect(&peer);
    assert_eq!(ping.connections[0], (peer, ConnectionType::Inactive(sender)));
    assert_eq!(identify.connections[0], (peer, ConnectionType::Active(sender)));

    // disconnect is idempotent and never drops the record
    ping.disconnect(&peer);
    assert_eq!(ping.connections[0], (peer, ConnectionType::Inactive(sender)));

    // once every protocol has disconnected, no strong handle survives:
    // the connection is eligible for idle teardown
    identify.disconnect(&peer);
    for service in [&ping, &identify] {
        assert!(matches!(service.connections[0].1, ConnectionType::Inactive(_)));
    }

    // a new substream request before teardown re-activates the connection
    let mut ids = SubstreamIdAllocator::new();
    let id = ping.open_substream(peer, &mut ids).unwrap();
    assert_eq!(id, SubstreamId { value: 0 });
    assert_eq!(ping.connections[0], (peer, ConnectionType::Active(sender)));
    assert_eq!(
        ping.pending_commands[0],
        (
            ConnectionId { value: 7 },
            ProtocolCommand::OpenSubstream {
                protocol: name("/ipfs/ping/1.0.0"),
                substream_id: id,
            }
        )
    );
}

#[test]
fn open_substream_unknown_peer() {
    let mut service = view("/ipfs/ping/1.0.0");
    let mut ids = SubstreamIdAllocator::new();
    match service.open_substream(PeerId { id: 3 }, &mut ids) {
        Err(Error::PeerDoesntExist(peer)) => assert_eq!(peer, PeerId { id: 3 }),
        _ => panic!("expected peer-unknown"),
    }
    // no identifier was consumed and nothing was queued
    assert_eq!(ids, SubstreamIdAllocator::new());
    assert!(service.pending_commands.is_empty());
}

#[test]
fn closure_drops_the_record() {
    let mut service = view("/ipfs/ping/1.0.0");
    let peer = PeerId { id: 1 };
    let sender = CommandSender { connection: ConnectionId { value: 7 } };
    let _ = service.next_event(InnerTransportEvent::ConnectionEstablished {
        peer,
        address: address(),
        sender,
    });
    let event = service.next_event(InnerTransportEvent::ConnectionClosed { peer });
    assert_eq!(event, TransportEvent::ConnectionClosed { peer });
    assert!(service.connections.is_empty());

    // after teardown, a substream request fails: the peer is unknown again
    let mut ids = SubstreamIdAllocator::new();
    assert!(matches!(
        service.open_substream(peer, &mut ids),
        Err(Error::PeerDoesntExist(_))
    ));
}

#[test]
fn substream_events_pass_through_the_view() {
    let mut service = view("/ipfs/ping/1.0.0");
    let event = service.next_event(InnerTransportEvent::SubstreamOpened {
        peer: PeerId { id: 1 },
        protocol: name("/ipfs/ping/1.0.0"),
        direction: Direction::Outbound(SubstreamId { value: 2 }),
        substream: Substream { id: 8 },
    });
    assert_eq!(
        event,
        TransportEvent::SubstreamOpened {
            peer: PeerId { id: 1 },
            protocol: name("/ipfs/ping/1.0.0"),
            direction: Direction::Outbound(SubstreamId { value: 2 }),
            substream: Substream { id: 8 },
        }
    );
    let event = service.next_event(InnerTransportEvent::SubstreamOpenFailure {
        substream: SubstreamId { value: 2 },
        error: Error::ChannelClosed,
    });
    assert_eq!(
        event,
        TransportEvent::SubstreamOpenFailure {
            substream: SubstreamId { value: 2 },
            error: Error::ChannelClosed,
        }
    );
    let event = service.next_event(InnerTransportEvent::DialFailure {
        peer: PeerId { id: 1 },
        address: address(),
    });
    assert_eq!(event, TransportEvent::DialFailure { peer: PeerId { id: 1 }, address: address() });
}

#[test]
fn address_book_and_dials() {
    let mut service = view("/ipfs/ping/1.0.0");
    let peer = PeerId { id: 1 };

    // dialing an unknown peer fails; dialing by address always queues
    assert!(matches!(service.dial(&peer), Err(Error::PeerDoesntExist(_))));
    service.dial_address(address()).unwrap();

    service.add_known_address(&peer, vec![address()]);
    service.dial(&peer).unwrap();
    assert_eq!(service.transport_handle.dial_queue.len(), 2);

    // merging more addresses keeps one entry per peer
    service.add_known_address(&peer, vec![Multiaddr::empty()]);
    assert_eq!(service.transport_handle.known_addresses.len(), 1);
    assert_eq!(service.transport_handle.known_addresses[0].1.len(), 2);
}

#[test]
fn protocol_names() {
    let ping = Libp2pProtocol::new(name("/ipfs/ping/1.0.0"));
    assert_eq!(ping.name(), &name("/ipfs/ping/1.0.0"));
    assert_eq!(ping.to_string(), "/ipfs/ping/1.0.0");

    let notifications = NotificationProtocol::new(name("/notificaton/1"));
    assert_eq!(notifications.name(), &name("/notificaton/1"));
    assert_eq!(notifications.to_string(), "/notificaton/1");

    let from_inner: TransportEvent = InnerTransportEvent::ConnectionClosed { peer: PeerId { id: 4 } }.into();
    assert_eq!(from_inner, TransportEvent::ConnectionClosed { peer: PeerId { id: 4 } });
}

#[test]
fn connection_lifecycle_through_hub_and_views() {
    // one connection, two protocols: the hub fans lifecycle events out, the
    // views vote on keep-alive and send substream requests back in
    let mut set = hub();
    let mut ping = view("/ipfs/ping/1.0.0");
    let mut identify = view("/ipfs/identify/1.0.0");
    let peer = PeerId { id: 1 };
    let mut ids = SubstreamIdAllocator::new();

    set.report_connection_established(peer, address()).unwrap();

    // the runtime drains each protocol's lane into its view, in order
    let mut public_events = Vec::new();
    for event in std::mem::take(&mut set.protocols[0].1.events) {
        public_events.push(ping.next_event(event));
    }
    for event in std::mem::take(&mut set.protocols[1].1.events) {
        public_events.push(identify.next_event(event));
    }
    // each view saw the establishment exactly once, before anything else
    assert_eq!(public_events.len(), 2);
    for event in &public_events {
        assert!(matches!(event, TransportEvent::ConnectionEstablished { .. }));
    }

    // ping asks for a substream; the runtime routes the command to the hub
    // of the connection it is tagged with
    let substream_id = ping.open_substream(peer, &mut ids).unwrap();
    let (connection, command) = ping.pending_commands.remove(0);
    assert_eq!(connection, set.connection);
    set.deliver_command(command);

    // the connection task picks the command up and, once negotiated, reports
    // the substream back; it reaches only the requesting protocol
    match set.next_event() {
        Some(ProtocolCommand::OpenSubstream { protocol, substream_id: requested }) => {
            assert_eq!(requested, substream_id);
            set.report_substream_open(
                peer,
                protocol,
                Direction::Outbound(requested),
                Substream { id: 1 },
            )
            .unwrap();
        }
        None => panic!("expected the queued command"),
    }
    assert!(set.protocols[1].1.events.is_empty());
    let delivered = ping.next_event(set.protocols[0].1.events.remove(0));
    assert!(matches!(delivered, TransportEvent::SubstreamOpened { .. }));

    // the connection closes: every view drops its record
    set.report_connection_closed(peer).unwrap();
    let _ = ping.next_event(set.protocols[0].1.events.remove(0));
    let _ = identify.next_event(set.protocols[1].1.events.remove(0));
    assert!(ping.connections.is_empty());
    assert!(identify.connections.is_empty());
}

