//! Node-level scenarios: configuration, the dial state machine, name
//! resolution and the unified event loop.

use litep2p::address::{IpAddress, Multiaddr, Protocol};
use litep2p::config::{Config, Litep2pConfigBuilder};
use litep2p::crypto::Keypair;
use litep2p::error::Error;
use litep2p::protocol::notification::Config as NotificationConfig;
use litep2p::protocol::ProtocolName;
use litep2p::transport::{TransportCommand, TransportConfig, TransportEvent};
use litep2p::types::ConnectionId;
use litep2p::{Litep2p, Litep2pEvent, NodePoll, SupportedTransport};

fn name(text: &str) -> ProtocolName {
    ProtocolName::from(text.to_string())
}

fn addr(segments: Vec<Protocol>) -> Multiaddr {
    Multiaddr::from_segments(segments)
}

fn tcp_config(segments: Vec<Protocol>) -> TransportConfig {
    TransportConfig { listen_address: addr(segments) }
}

fn notification_config(protocol: &str) -> NotificationConfig {
    NotificationConfig::new(name(protocol), 1337usize, vec![1, 2, 3, 4], Vec::new())
}

#[test]
fn initialize_litep2p() {
    let config = Litep2pConfigBuilder::new()
        .with_tcp(tcp_config(vec![Protocol::Ip6(1), Protocol::Tcp(0)]))
        .with_notification_protocol(notification_config("/notificaton/1"))
        .with_notification_protocol(notification_config("/notificaton/2"))
        .build();

    let (litep2p, services) = Litep2p::new(config).unwrap();
    assert_eq!(services.len(), 2);
    assert_eq!(services[0].protocol, name("/notificaton/1"));
    assert_eq!(services[1].protocol, name("/notificaton/2"));
    assert_eq!(
        litep2p.listen_addresses()[0],
        addr(vec![Protocol::Ip6(1), Protocol::Tcp(0)])
    );
}

#[test]
fn no_transport_configured() {
    let config = Litep2pConfigBuilder::new()
        .with_notification_protocol(notification_config("/notificaton/1"))
        .build();
    match Litep2p::new(config) {
        Err(Error::Other(text)) => assert_eq!(text, "No transport specified"),
        _ => panic!("expected a configuration error"),
    }
}

#[test]
fn builder_replaces_same_name() {
    let first = NotificationConfig::new(name("/notificaton/1"), 1usize, vec![1], Vec::new());
    let second = NotificationConfig::new(name("/notificaton/1"), 2usize, vec![2], Vec::new());
    let builder = Litep2pConfigBuilder::new()
        .with_notification_protocol(first)
        .with_notification_protocol(second);
    assert_eq!(builder.notification_protocols.len(), 1);
    assert_eq!(builder.notification_protocols[0].1.max_notification_size, 2);
}

#[test]
fn default_keypair_when_absent() {
    let config = Litep2pConfigBuilder::new()
        .with_tcp(tcp_config(vec![Protocol::Ip6(1), Protocol::Tcp(0)]))
        .build();
    assert_eq!(config.keypair(), &Keypair { seed: 0 });

    let config = Litep2pConfigBuilder::new()
        .with_keypair(Keypair::from_seed(7))
        .with_tcp(tcp_config(vec![Protocol::Ip6(1), Protocol::Tcp(0)]))
        .build();
    assert_eq!(config.keypair(), &Keypair { seed: 7 });
}

#[test]
fn advertised_protocols_in_registration_order() {
    let config = Litep2pConfigBuilder::new()
        .with_tcp(tcp_config(vec![Protocol::Ip6(1), Protocol::Tcp(0)]))
        .with_notification_protocol(notification_config("/notificaton/1"))
        .with_request_response_protocol(
            litep2p::protocol::request_response::Config::new(name("/request/1"), 200usize),
        )
        .build();
    let context = Config::from(&config);
    assert_eq!(context.protocols().len(), 2);
    assert_eq!(context.protocols()[0], name("/notificaton/1"));
    assert_eq!(context.protocols()[1], name("/request/1"));
}

fn node_with_tcp() -> Litep2p {
    let config = Litep2pConfigBuilder::new()
        .with_tcp(tcp_config(vec![Protocol::Ip6(1), Protocol::Tcp(0)]))
        .build();
    Litep2p::new(config).unwrap().0
}

fn tcp_commands(litep2p: &Litep2p) -> &Vec<TransportCommand> {
    litep2p.transports.tcp.as_ref().unwrap()
}

#[test]
fn connect_routes_tcp() {
    let mut litep2p = node_with_tcp();
    let address = addr(vec![Protocol::Ip4(0x7f000001), Protocol::Tcp(8888)]);
    litep2p.connect(address.clone()).unwrap();

    assert_eq!(
        tcp_commands(&litep2p)[0],
        TransportCommand::Dial { address: address.clone(), connection_id: ConnectionId { value: 0 } }
    );
    assert_eq!(litep2p.pending_connections.len(), 1);
    assert_eq!(litep2p.pending_connections[0], (ConnectionId { value: 0 }, address));
}

#[test]
fn connect_routes_tcp_with_peer_suffix() {
    let mut litep2p = node_with_tcp();
    let address = addr(vec![
        Protocol::Ip6(1),
        Protocol::Tcp(443),
        Protocol::P2p("12D3KooW".to_string()),
    ]);
    litep2p.connect(address).unwrap();
    assert_eq!(tcp_commands(&litep2p).len(), 1);
}

#[test]
fn connect_routes_websocket() {
    let mut litep2p = node_with_tcp();
    litep2p.transports.add_transport(SupportedTransport::WebSocket);
    let address = addr(vec![
        Protocol::Ip4(0x7f000001),
        Protocol::Tcp(80),
        Protocol::Ws("/".to_string()),
    ]);
    litep2p.connect(address.clone()).unwrap();

    // the WebSocket overlay selects the WebSocket transport, not plain TCP
    assert!(tcp_commands(&litep2p).is_empty());
    let ws_commands = litep2p.transports.websocket.as_ref().unwrap();
    assert_eq!(
        ws_commands[0],
        TransportCommand::Dial { address, connection_id: ConnectionId { value: 0 } }
    );
}

#[test]
fn connect_routes_quic() {
    let mut litep2p = node_with_tcp();
    litep2p.transports.add_transport(SupportedTransport::Quic);
    let address = addr(vec![
        Protocol::Ip4(0x7f000001),
        Protocol::Udp(8888),
        Protocol::QuicV1,
    ]);
    litep2p.connect(address.clone()).unwrap();

    assert!(tcp_commands(&litep2p).is_empty());
    let quic_commands = litep2p.transports.quic.as_ref().unwrap();
    assert_eq!(
        quic_commands[0],
        TransportCommand::Dial { address, connection_id: ConnectionId { value: 0 } }
    );
}

#[test]
fn connect_rejects_unsupported_layering() {
    let mut litep2p = node_with_tcp();

    // transport-layer segment first: rejected outright
    let address = addr(vec![Protocol::Tcp(8888)]);
    match litep2p.connect(address.clone()) {
        Err(Error::TransportNotSupported(a)) => assert_eq!(a, address),
        _ => panic!("expected transport-not-supported"),
    }

    // UDP without the QUIC-v1 overlay
    let address = addr(vec![Protocol::Ip4(1), Protocol::Udp(53)]);
    assert!(matches!(
        litep2p.connect(address),
        Err(Error::TransportNotSupported(_))
    ));

    // empty address
    assert!(matches!(
        litep2p.connect(Multiaddr::empty()),
        Err(Error::TransportNotSupported(_))
    ));

    // a segment layer the dial state machine does not route
    let address = addr(vec![Protocol::Other("/memory/1".to_string())]);
    match litep2p.connect(address.clone()) {
        Err(Error::TransportNotSupported(a)) => assert_eq!(a, address),
        _ => panic!("expected transport-not-supported"),
    }

    // nothing was sent anywhere
    assert!(tcp_commands(&litep2p).is_empty());
    assert!(litep2p.pending_connections.is_empty());
    assert!(litep2p.pending_dns_resolves.is_empty());
}

#[test]
fn connect_rejects_transport_not_enabled() {
    let mut litep2p = node_with_tcp();
    // QUIC layering is valid but the QUIC transport is not enabled
    let address = addr(vec![Protocol::Ip4(1), Protocol::Udp(1), Protocol::QuicV1]);
    assert!(matches!(
        litep2p.connect(address),
        Err(Error::TransportNotSupported(_))
    ));
    assert!(tcp_commands(&litep2p).is_empty());
    assert!(litep2p.pending_connections.is_empty());
}

#[test]
fn two_litep2ps_work() {
    let config1 = Litep2pConfigBuilder::new()
        .with_keypair(Keypair::from_seed(1))
        .with_tcp(tcp_config(vec![Protocol::Ip6(1), Protocol::Tcp(0)]))
        .build();
    let config2 = Litep2pConfigBuilder::new()
        .with_keypair(Keypair::from_seed(2))
        .with_tcp(tcp_config(vec![Protocol::Ip6(1), Protocol::Tcp(0)]))
        .build();
    let mut litep2p1 = Litep2p::new(config1).unwrap().0;
    let mut litep2p2 = Litep2p::new(config2).unwrap().0;

    let address = litep2p2.listen_addresses()[0].clone();
    litep2p1.connect(address.clone()).unwrap();
    assert_eq!(tcp_commands(&litep2p1).len(), 1);

    // the transports report the outcome on both sides
    let peer1 = *litep2p1.local_peer_id();
    let peer2 = *litep2p2.local_peer_id();
    let res1 = litep2p1.next_event(NodePoll::Transport(TransportEvent::ConnectionEstablished {
        peer: peer2,
        address: address.clone(),
    }));
    let res2 = litep2p2.next_event(NodePoll::Transport(TransportEvent::ConnectionEstablished {
        peer: peer1,
        address: addr(vec![Protocol::Ip6(1), Protocol::Tcp(49152)]),
    }));

    assert!(matches!(
        res1,
        Ok(Some(Litep2pEvent::ConnectionEstablished { .. }))
    ));
    assert!(matches!(
        res2,
        Ok(Some(Litep2pEvent::ConnectionEstablished { .. }))
    ));
    // the settled dial is no longer pending
    assert!(litep2p1.pending_connections.is_empty());
}

#[test]
fn dial_failure() {
    let config1 = Litep2pConfigBuilder::new()
        .with_keypair(Keypair::from_seed(1))
        .with_tcp(tcp_config(vec![Protocol::Ip6(1), Protocol::Tcp(0)]))
        .build();
    let mut litep2p1 = Litep2p::new(config1).unwrap().0;

    let address = addr(vec![Protocol::Ip6(1), Protocol::Tcp(1)]);
    litep2p1.connect(address.clone()).unwrap();

    // nothing listens there; the transport reports the failure and the
    // public event stream yields it, with no connection established
    let event = litep2p1.next_event(NodePoll::Transport(TransportEvent::DialFailure {
        address: address.clone(),
        error: Error::Other("connection refused".to_string()),
    }));
    assert!(matches!(
        event,
        Ok(Some(Litep2pEvent::DialFailure { .. }))
    ));
    assert!(litep2p1.pending_connections.is_empty());
}

#[test]
fn connect_over_dns() {
    let mut litep2p1 = node_with_tcp();

    let address = addr(vec![Protocol::Dns("localhost".to_string()), Protocol::Tcp(40000)]);
    litep2p1.connect(address.clone()).unwrap();

    // connect returned at once: the resolution is pending, no command sent
    assert_eq!(litep2p1.pending_dns_resolves.len(), 1);
    assert!(tcp_commands(&litep2p1).is_empty());

    // the resolver answers with localhost; the rewritten address is dialed
    let result = litep2p1.next_event(NodePoll::DnsResolved {
        address: address.clone(),
        result: Some(vec![IpAddress::V4(0x7f000001)]),
    });
    assert!(matches!(result, Ok(None)));
    assert!(litep2p1.pending_dns_resolves.is_empty());

    let dialed = match &tcp_commands(&litep2p1)[0] {
        TransportCommand::Dial { address, .. } => address.clone(),
    };
    // the dialed address differs from the original only in its first segment
    assert_eq!(
        dialed,
        addr(vec![Protocol::Ip4(0x7f000001), Protocol::Tcp(40000)])
    );
    assert_eq!(dialed.segments[1..], address.segments[1..]);

    // the eventual outcome reflects the rewritten address
    let established = litep2p1.next_event(NodePoll::Transport(
        TransportEvent::ConnectionEstablished {
            peer: litep2p::crypto::PeerId { id: 2 },
            address: dialed,
        },
    ));
    assert!(matches!(
        established,
        Ok(Some(Litep2pEvent::ConnectionEstablished { .. }))
    ));
}

#[test]
fn dns_resolution_failure() {
    let mut litep2p = node_with_tcp();
    let address = addr(vec![Protocol::Dns("nonexistent.example".to_string()), Protocol::Tcp(1)]);
    litep2p.connect(address.clone()).unwrap();

    let event = litep2p.next_event(NodePoll::DnsResolved { address: address.clone(), result: None });
    match event {
        Ok(Some(Litep2pEvent::DialFailure { address: failed, error })) => {
            assert_eq!(failed, address);
            assert_eq!(error, Error::DnsAddressResolutionFailed);
        }
        _ => panic!("expected a dial failure"),
    }
    assert!(tcp_commands(&litep2p).is_empty());
}

#[test]
fn dns_prefers_ipv6() {
    let litep2p = node_with_tcp();
    let address = addr(vec![Protocol::Dns("localhost".to_string()), Protocol::Tcp(443)]);

    // both families present: IPv6 wins, and the first of that family is used
    let rewritten = litep2p
        .on_resolved_dns_address(
            address.clone(),
            Some(vec![IpAddress::V4(10), IpAddress::V6(20), IpAddress::V6(30)]),
        )
        .unwrap();
    assert_eq!(rewritten, addr(vec![Protocol::Ip6(20), Protocol::Tcp(443)]));

    // only IPv4 present: the first IPv4 address is used
    let rewritten = litep2p
        .on_resolved_dns_address(address.clone(), Some(vec![IpAddress::V4(10), IpAddress::V4(11)]))
        .unwrap();
    assert_eq!(rewritten, addr(vec![Protocol::Ip4(10), Protocol::Tcp(443)]));

    // neither family present: the dial cannot proceed
    assert!(matches!(
        litep2p.on_resolved_dns_address(address, Some(vec![])),
        Err(Error::TransportNotSupported(_))
    ));
}

#[test]
fn dns4_requires_ipv4() {
    let litep2p = node_with_tcp();
    let address = addr(vec![Protocol::Dns4("localhost".to_string()), Protocol::Tcp(80)]);
    let rewritten = litep2p
        .on_resolved_dns_address(address.clone(), Some(vec![IpAddress::V4(9)]))
        .unwrap();
    assert_eq!(rewritten, addr(vec![Protocol::Ip4(9), Protocol::Tcp(80)]));

    // the first address of the matching family is used, wherever it stands
    let rewritten = litep2p
        .on_resolved_dns_address(
            address.clone(),
            Some(vec![IpAddress::V6(5), IpAddress::V4(9), IpAddress::V4(10)]),
        )
        .unwrap();
    assert_eq!(rewritten, addr(vec![Protocol::Ip4(9), Protocol::Tcp(80)]));

    // an answer without any address of the required family cannot be used
    assert!(matches!(
        litep2p.on_resolved_dns_address(address, Some(vec![IpAddress::V6(9)])),
        Err(Error::TransportNotSupported(_))
    ));

    let address = addr(vec![Protocol::Dns6("localhost".to_string()), Protocol::Tcp(80)]);
    let rewritten = litep2p
        .on_resolved_dns_address(
            address.clone(),
            Some(vec![IpAddress::V4(5), IpAddress::V6(9), IpAddress::V6(10)]),
        )
        .unwrap();
    assert_eq!(rewritten, addr(vec![Protocol::Ip6(9), Protocol::Tcp(80)]));
    assert!(matches!(
        litep2p.on_resolved_dns_address(address, Some(vec![IpAddress::V4(9)])),
        Err(Error::TransportNotSupported(_))
    ));
}

#[test]
fn wss_address_over_dns_defers() {
    // a name-rooted address with further overlays is deferred whole, its
    // trailing segments kept for the rewrite
    let mut litep2p = node_with_tcp();
    let address = addr(vec![
        Protocol::Dns("polkadot-connect-0.parity.io".to_string()),
        Protocol::Tcp(443),
        Protocol::Wss("/".to_string()),
        Protocol::P2p("12D3KooW".to_string()),
    ]);
    litep2p.connect(address.clone()).unwrap();
    assert_eq!(litep2p.pending_dns_resolves[0], address);

    let rewritten = litep2p
        .on_resolved_dns_address(address, Some(vec![IpAddress::V4(16)]))
        .unwrap();
    assert_eq!(
        rewritten,
        addr(vec![
            Protocol::Ip4(16),
            Protocol::Tcp(443),
            Protocol::Wss("/".to_string()),
            Protocol::P2p("12D3KooW".to_string()),
        ])
    );
}

#[test]
fn connection_ids_strictly_increase() {
    let mut litep2p = node_with_tcp();
    for port in 1..5u16 {
        litep2p
            .connect(addr(vec![Protocol::Ip6(1), Protocol::Tcp(port)]))
            .unwrap();
    }
    let commands = tcp_commands(&litep2p);
    for (i, command) in commands.iter().enumerate() {
        let TransportCommand::Dial { connection_id, .. } = command;
        assert_eq!(connection_id.value, i);
    }
    // a dial toward a transport that is not enabled still consumes its
    // identifier, so identifiers are never reused
    let _ = litep2p.connect(addr(vec![Protocol::Ip6(1), Protocol::Udp(1), Protocol::QuicV1]));
    litep2p
        .connect(addr(vec![Protocol::Ip6(1), Protocol::Tcp(9)]))
        .unwrap();
    let commands = tcp_commands(&litep2p);
    let TransportCommand::Dial { connection_id, .. } = &commands[commands.len() - 1];
    assert_eq!(connection_id.value, 5);
}
