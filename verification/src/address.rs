//! Layered addresses, held as the plain values the dial logic reads.
//!
//! A multiaddress is an ordered stack of segments: a network-layer head (a
//! literal IP or a DNS-name variant), a transport-layer segment (TCP or UDP),
//! optional overlays (WebSocket over TCP, QUIC-v1 over UDP) and an optional
//! trailing peer-identity segment.  The runtime converts between this
//! representation and its wire-level address type; all routing decisions are
//! taken on the segments themselves.

use vstd::prelude::*;

verus! {

/// One segment of a layered address.  IPv4 addresses are held as their
/// 32-bit value, IPv6 addresses as their 128-bit value; name-bearing
/// segments carry their text.
#[derive(Debug, PartialEq, Eq)]
pub enum Protocol {
    Ip4(u32),
    Ip6(u128),
    Dns(String),
    Dns4(String),
    Dns6(String),
    Tcp(u16),
    Udp(u16),
    QuicV1,
    Ws(String),
    Wss(String),
    P2p(String),
    /// A segment of a layer the dial logic does not route, carried as its
    /// text so that a rejection can name the whole address.
    Other(String),
}

/// A resolved network-layer address, as a name resolver reports it.
#[derive(Debug, Clone, Copy, PartialEq, Eq, Structural)]
pub enum IpAddress {
    V4(u32),
    V6(u128),
}

/// Whether two segments carry the same layer and the same value.
pub open spec fn protocol_matches(a: Protocol, b: Protocol) -> bool {
    match (a, b) {
        (Protocol::Ip4(x), Protocol::Ip4(y)) => x == y,
        (Protocol::Ip6(x), Protocol::Ip6(y)) => x == y,
        (Protocol::Dns(x), Protocol::Dns(y)) => x@ == y@,
        (Protocol::Dns4(x), Protocol::Dns4(y)) => x@ == y@,
        (Protocol::Dns6(x), Protocol::Dns6(y)) => x@ == y@,
        (Protocol::Tcp(x), Protocol::Tcp(y)) => x == y,
        (Protocol::Udp(x), Protocol::Udp(y)) => x == y,
        (Protocol::QuicV1, Protocol::QuicV1) => true,
        (Protocol::Ws(x), Protocol::Ws(y)) => x@ == y@,
        (Protocol::Wss(x), Protocol::Wss(y)) => x@ == y@,
        (Protocol::P2p(x), Protocol::P2p(y)) => x@ == y@,
        (Protocol::Other(x), Protocol::Other(y)) => x@ == y@,
        _ => false,
    }
}

/// Whether two segment stacks carry the same layers and values.
pub open spec fn segments_match(a: Seq<Protocol>, b: Seq<Protocol>) -> bool {
    &&& a.len() == b.len()
    &&& forall|i: int| 0 <= i < a.len() ==> protocol_matches(a[i], b[i])
}

impl Clone for Protocol {
    fn clone(&self) -> (r: Protocol)
        ensures
            r == *self,
    {
        match self {
            Protocol::Ip4(value) => Protocol::Ip4(*value),
            Protocol::Ip6(value) => Protocol::Ip6(*value),
            Protocol::Dns(name) => Protocol::Dns(name.clone()),
            Protocol::Dns4(name) => Protocol::Dns4(name.clone()),
            Protocol::Dns6(name) => Protocol::Dns6(name.clone()),
            Protocol::Tcp(port) => Protocol::Tcp(*port),
            Protocol::Udp(port) => Protocol::Udp(*port),
            Protocol::QuicV1 => Protocol::QuicV1,
            Protocol::Ws(path) => Protocol::Ws(path.clone()),
            Protocol::Wss(path) => Protocol::Wss(path.clone()),
            Protocol::P2p(peer) => Protocol::P2p(peer.clone()),
            Protocol::Other(text) => Protocol::Other(text.clone()),
        }
    }
}

impl Protocol {
    /// Whether this segment carries the same layer and value as `other`.
    pub fn matches(&self, other: &Protocol) -> (r: bool)
        ensures
            r == protocol_matches(*self, *other),
    {
        match (self, other) {
            (Protocol::Ip4(x), Protocol::Ip4(y)) => *x == *y,
            (Protocol::Ip6(x), Protocol::Ip6(y)) => *x == *y,
            (Protocol::Dns(x), Protocol::Dns(y)) => *x == *y,
            (Protocol::Dns4(x), Protocol::Dns4(y)) => *x == *y,
            (Protocol::Dns6(x), Protocol::Dns6(y)) => *x == *y,
            (Protocol::Tcp(x), Protocol::Tcp(y)) => *x == *y,
            (Protocol::Udp(x), Protocol::Udp(y)) => *x == *y,
            (Protocol::QuicV1, Protocol::QuicV1) => true,
            (Protocol::Ws(x), Protocol::Ws(y)) => *x == *y,
            (Protocol::Wss(x), Protocol::Wss(y)) => *x == *y,
            (Protocol::P2p(x), Protocol::P2p(y)) => *x == *y,
            (Protocol::Other(x), Protocol::Other(y)) => *x == *y,
            _ => false,
        }
    }
}

/// A layered address: an ordered stack of segments.
#[derive(Debug, PartialEq, Eq)]
pub struct Multiaddr {
    pub segments: Vec<Protocol>,
}

impl View for Multiaddr {
    type V = Seq<Protocol>;

    open spec fn view(&self) -> Seq<Protocol> {
        self.segments@
    }
}

impl Clone for Multiaddr {
    fn clone(&self) -> (r: Multiaddr)
        ensures
            r@ == self@,
    {
        let mut segments: Vec<Protocol> = Vec::new();
        let mut i: usize = 0;
        while i < self.segments.len()
            invariant
                i <= self.segments.len(),
                segments@.len() == i,
                forall|j: int| 0 <= j < i ==> segments@[j] == self.segments@[j],
            decreases self.segments.len() - i,
        {
            segments.push(self.segments[i].clone());
            i = i + 1;
        }
        proof {
            assert(segments@ =~= self.segments@);
        }
        Multiaddr { segments }
    }
}

impl Multiaddr {
    /// The empty address.
    pub fn empty() -> (r: Multiaddr)
        ensures
            r@ == Seq::<Protocol>::empty(),
    {
        Multiaddr { segments: Vec::new() }
    }

    /// An address from its segment stack.
    pub fn from_segments(segments: Vec<Protocol>) -> (r: Multiaddr)
        ensures
            r@ == segments@,
    {
        Multiaddr { segments }
    }

    /// Append a segment to the stack.
    pub fn push(&mut self, segment: Protocol)
        ensures
            final(self)@ == old(self)@.push(segment),
    {
        self.segments.push(segment);
    }

    /// The number of segments.
    pub fn len(&self) -> (r: usize)
        ensures
            r == self@.len(),
    {
        self.segments.len()
    }

    /// Whether this address carries the same segments as `other`.
    pub fn matches(&self, other: &Multiaddr) -> (r: bool)
        ensures
            r == segments_match(self@, other@),
    {
        if self.segments.len() != other.segments.len() {
            return false;
        }
        let mut i: usize = 0;
        while i < self.segments.len()
            invariant
                i <= self.segments.len(),
                self.segments.len() == other.segments.len(),
                forall|j: int| 0 <= j < i ==> protocol_matches(self.segments@[j], other.segments@[j]),
            decreases self.segments.len() - i,
        {
            if !self.segments[i].matches(&other.segments[i]) {
                return false;
            }
            i = i + 1;
        }
        true
    }
}

} // verus!
