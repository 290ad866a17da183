//! Protocol-facing definitions: protocol names, the events a protocol
//! receives from the transport substrate, and the configuration wrappers for
//! the protocol families a node can register.

use crate::address::Multiaddr;
use crate::crypto::PeerId;
use crate::error::Error;
use crate::substream::Substream;
use crate::types::SubstreamId;
use vstd::prelude::*;

pub mod notification;
pub mod protocol_set;
pub mod request_response;

verus! {

/// Commands sent by protocols toward the node.
#[derive(Debug)]
pub enum TransportCommand {
    /// Open a substream to a remote peer.
    OpenSubstream {
        /// Protocol name.
        protocol: String,
        /// Remote peer.
        peer: PeerId,
    },
}

/// The name under which a protocol was registered; every substream
/// negotiation and event-routing decision looks protocols up by this name.
#[derive(Debug)]
pub enum ProtocolName {
    /// A name known at configuration time.
    Static(String),
}

impl View for ProtocolName {
    type V = Seq<char>;

    open spec fn view(&self) -> Seq<char> {
        match self {
            ProtocolName::Static(name) => name@,
        }
    }
}

impl Clone for ProtocolName {
    fn clone(&self) -> (r: ProtocolName)
        ensures
            r == *self,
    {
        match self {
            ProtocolName::Static(name) => ProtocolName::Static(name.clone()),
        }
    }
}

impl PartialEq for ProtocolName {
    fn eq(&self, other: &ProtocolName) -> bool {
        match (self, other) {
            (ProtocolName::Static(a), ProtocolName::Static(b)) => *a == *b,
        }
    }
}

impl vstd::std_specs::cmp::PartialEqSpecImpl for ProtocolName {
    open spec fn obeys_eq_spec() -> bool {
        true
    }

    open spec fn eq_spec(&self, other: &ProtocolName) -> bool {
        self@ == other@
    }
}

impl From<String> for ProtocolName {
    fn from(name: String) -> (r: ProtocolName)
        ensures
            r == ProtocolName::Static(name),
    {
        ProtocolName::Static(name)
    }
}

impl vstd::std_specs::convert::FromSpecImpl<String> for ProtocolName {
    open spec fn obeys_from_spec() -> bool {
        true
    }

    open spec fn from_spec(name: String) -> ProtocolName {
        ProtocolName::Static(name)
    }
}

impl ProtocolName {
    /// The name as text.
    pub fn to_string(&self) -> (r: String)
        ensures
            r@ == self@,
    {
        match self {
            ProtocolName::Static(name) => name.clone(),
        }
    }
}

/// Whether a registration table holds an entry under `name`.
pub open spec fn has_protocol_name<T>(entries: Seq<(ProtocolName, T)>, name: Seq<char>) -> bool {
    exists|i: int| 0 <= i < entries.len() && entries[i].0@ == name
}

/// Whether a registration table holds each name at most once.
pub open spec fn protocol_names_unique<T>(entries: Seq<(ProtocolName, T)>) -> bool {
    forall|i: int, j: int| 0 <= i < j < entries.len() ==> entries[i].0@ != entries[j].0@
}

/// In a table whose names are pairwise distinct, no entry but the one at `i`
/// carries the name found at `i`.
pub proof fn lemma_unique_name_elsewhere<T>(entries: Seq<(ProtocolName, T)>, i: int)
    requires
        protocol_names_unique(entries),
        0 <= i < entries.len(),
    ensures
        forall|k: int|
            0 <= k < entries.len() && k != i ==> (#[trigger] entries[k]).0@ != entries[i].0@,
{
    assert forall|k: int|
        0 <= k < entries.len() && k != i implies (#[trigger] entries[k]).0@ != entries[i].0@ by {
        if k < i {
            assert(entries[k].0@ != entries[i].0@);
        } else {
            assert(entries[i].0@ != entries[k].0@);
        }
    }
}

/// A protocol of the libp2p family, identified by its name.
#[derive(Debug)]
pub struct Libp2pProtocol {
    pub name: ProtocolName,
}

impl Libp2pProtocol {
    /// A libp2p protocol of the given name.
    pub fn new(name: ProtocolName) -> (r: Libp2pProtocol)
        ensures
            r.name == name,
    {
        Libp2pProtocol { name }
    }

    /// The name of the protocol.
    pub fn name(&self) -> (r: &ProtocolName)
        ensures
            *r == self.name,
    {
        &self.name
    }

    /// The name as text.
    pub fn to_string(&self) -> (r: String)
        ensures
            r@ == self.name@,
    {
        self.name.to_string()
    }
}

/// A notification protocol, identified by its name.
#[derive(Debug)]
pub struct NotificationProtocol {
    pub name: ProtocolName,
}

impl NotificationProtocol {
    /// A notification protocol of the given name.
    pub fn new(name: ProtocolName) -> (r: NotificationProtocol)
        ensures
            r.name == name,
    {
        NotificationProtocol { name }
    }

    /// The name of the protocol.
    pub fn name(&self) -> (r: &ProtocolName)
        ensures
            *r == self.name,
    {
        &self.name
    }

    /// The name as text.
    pub fn to_string(&self) -> (r: String)
        ensures
            r@ == self.name@,
    {
        self.name.to_string()
    }
}

/// Whether a substream was opened by the remote node or by the local node;
/// outbound substreams carry the identifier under which the open was
/// requested.
#[derive(Debug, Clone, Copy, PartialEq, Eq, Structural)]
pub enum Direction {
    Inbound,
    Outbound(SubstreamId),
}

/// Lifecycle events delivered to one protocol, scoped to that protocol only.
#[derive(Debug, PartialEq)]
pub enum TransportEvent {
    /// Connection established to `peer`.
    ConnectionEstablished {
        peer: PeerId,
        address: Multiaddr,
    },
    /// Connection to `peer` closed.
    ConnectionClosed {
        peer: PeerId,
    },
    /// Failed to dial `peer`.
    DialFailure {
        peer: PeerId,
        address: Multiaddr,
    },
    /// Substream opened for `peer` under this protocol's name.
    SubstreamOpened {
        peer: PeerId,
        protocol: ProtocolName,
        direction: Direction,
        substream: Substream,
    },
    /// An outbound substream-open attempt failed.
    SubstreamOpenFailure {
        substream: SubstreamId,
        error: Error,
    },
}

/// Events a connection reports to the protocol that registered it, carried
/// over the protocol's own event lane.
pub enum ExecutionEvent<S> {
    /// Connection established to remote peer.
    ConnectionEstablished {
        peer: PeerId,
    },
    /// Connection closed to remote peer.
    ConnectionClosed {
        peer: PeerId,
    },
    /// Substream opened to remote peer.
    SubstreamOpened {
        peer: PeerId,
        substream: S,
    },
    /// Failed to open substream.
    SubstreamOpenFailure {
        peer: PeerId,
        error: Error,
    },
}

/// Marks the types that can frame a protocol's substream payloads.
pub trait Codec {

}

} // verus!
