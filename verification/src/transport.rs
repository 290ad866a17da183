//! The boundary between the coordination core and the transport tasks: the
//! commands a transport accepts, the lifecycle events it reports, the node's
//! address book, and the listen-address configuration of the TCP transport.
//!
//! A command queue here models the bounded channel toward a transport task:
//! verified code appends to it, and the runtime drains it in order.

use crate::address::Multiaddr;
use crate::crypto::PeerId;
use crate::error::Error;
use crate::types::ConnectionId;
use vstd::prelude::*;

verus! {

/// Configuration of the TCP transport.
#[derive(Debug)]
pub struct TransportConfig {
    /// Address the transport listens on.
    pub listen_address: Multiaddr,
}

impl Clone for TransportConfig {
    fn clone(&self) -> (r: TransportConfig)
        ensures
            r.listen_address@ == self.listen_address@,
    {
        TransportConfig { listen_address: self.listen_address.clone() }
    }
}

/// The single command a transport accepts: dial this address and tag the
/// attempt with this connection identifier.
#[derive(Debug, PartialEq)]
pub enum TransportCommand {
    Dial {
        /// Address to dial.
        address: Multiaddr,
        /// Identifier under which the outcome will be reported.
        connection_id: ConnectionId,
    },
}

/// Lifecycle events a transport reports to the node.
#[derive(Debug, PartialEq)]
pub enum TransportEvent {
    /// Connection established to `peer`.
    ConnectionEstablished {
        peer: PeerId,
        address: Multiaddr,
    },
    /// A dial attempt failed.
    DialFailure {
        address: Multiaddr,
        error: Error,
    },
    /// Connection to `peer` closed.
    ConnectionClosed {
        peer: PeerId,
    },
}

/// Deduplicated connection lifecycle notifications a per-connection hub
/// forwards to the node's transport manager.
#[derive(Debug, PartialEq)]
pub enum TransportManagerEvent {
    /// Connection established to `peer`.
    ConnectionEstablished {
        peer: PeerId,
        address: Multiaddr,
    },
    /// Connection to `peer` closed.
    ConnectionClosed {
        peer: PeerId,
    },
}

/// A dial a protocol asked the node for, either by peer identity (looked up
/// in the address book) or by explicit address.
#[derive(Debug, PartialEq)]
pub enum DialRequest {
    Peer(PeerId),
    Address(Multiaddr),
}

/// Whether the address book holds at least one address for `peer`.
pub open spec fn peer_has_addresses(book: Seq<(PeerId, Vec<Multiaddr>)>, peer: PeerId) -> bool {
    exists|i: int| 0 <= i < book.len() && book[i].0 == peer && book[i].1@.len() > 0
}

/// Whether the address book holds each peer at most once.
pub open spec fn book_peers_unique(book: Seq<(PeerId, Vec<Multiaddr>)>) -> bool {
    forall|i: int, j: int| 0 <= i < j < book.len() ==> book[i].0 != book[j].0
}

/// A protocol's handle to the node-wide address book and dial queue.  Dial
/// requests are bookkeeping only: the node picks them up and runs its dial
/// state machine; the outcome arrives later as an event.
#[derive(Debug)]
pub struct TransportManagerHandle {
    /// Addresses known for each peer.
    pub known_addresses: Vec<(PeerId, Vec<Multiaddr>)>,
    /// Dials requested through this handle, oldest first.
    pub dial_queue: Vec<DialRequest>,
}

impl TransportManagerHandle {
    /// Whether this handle is well formed: one address-book entry per peer.
    pub open spec fn wf(&self) -> bool {
        book_peers_unique(self.known_addresses@)
    }

    /// An empty handle.
    pub fn new() -> (r: TransportManagerHandle)
        ensures
            r.known_addresses@ == Seq::<(PeerId, Vec<Multiaddr>)>::empty(),
            r.dial_queue@ == Seq::<DialRequest>::empty(),
            r.wf(),
    {
        TransportManagerHandle { known_addresses: Vec::new(), dial_queue: Vec::new() }
    }

    /// Merge `addresses` into the addresses known for `peer`.  Pure
    /// bookkeeping: no dial is requested.
    pub fn add_known_address(&mut self, peer: &PeerId, addresses: Vec<Multiaddr>)
        requires
            old(self).wf(),
        ensures
            final(self).wf(),
            final(self).dial_queue == old(self).dial_queue,
            final(self).known_addresses@.len() >= old(self).known_addresses@.len(),
            // an entry for the peer now exists, holding the old addresses
            // followed by the new ones; every other entry is unchanged
            ({
                let book = old(self).known_addresses@;
                let post = final(self).known_addresses@;
                if exists|i: int| 0 <= i < book.len() && book[i].0 == *peer {
                    &&& post.len() == book.len()
                    &&& forall|i: int|
                        0 <= i < book.len() ==> post[i].0 == book[i].0 && (if book[i].0 == *peer {
                            post[i].1@ == book[i].1@ + addresses@
                        } else {
                            post[i] == book[i]
                        })
                } else {
                    &&& post.len() == book.len() + 1
                    &&& forall|i: int| 0 <= i < book.len() ==> post[i] == book[i]
                    &&& post.last().0 == *peer
                    &&& post.last().1@ == addresses@
                }
            }),
    {
        let mut i: usize = 0;
        let n = self.known_addresses.len();
        while i < n
            invariant
                old(self).wf(),
                n == self.known_addresses@.len(),
                i <= n,
                *self == *old(self),
                forall|j: int| 0 <= j < i ==> self.known_addresses@[j].0 != *peer,
            decreases n - i,
        {
            if self.known_addresses[i].0 == *peer {
                let entry = &mut self.known_addresses[i];
                let mut addresses = addresses;
                entry.1.append(&mut addresses);
                return ;
            }
            i = i + 1;
        }
        self.known_addresses.push((*peer, addresses));
    }

    /// Ask the node to dial `peer` at an address from the address book.
    /// Returns an error, and queues nothing, when no address is known.
    pub fn dial(&mut self, peer: &PeerId) -> (r: Result<(), Error>)
        requires
            old(self).wf(),
        ensures
            final(self).wf(),
            final(self).known_addresses == old(self).known_addresses,
            match r {
                Ok(()) => {
                    &&& peer_has_addresses(old(self).known_addresses@, *peer)
                    &&& final(self).dial_queue@ == old(self).dial_queue@.push(
                        DialRequest::Peer(*peer),
                    )
                },
                Err(e) => {
                    &&& !peer_has_addresses(old(self).known_addresses@, *peer)
                    &&& e == Error::PeerDoesntExist(*peer)
                    &&& final(self).dial_queue == old(self).dial_queue
                },
            },
    {
        let mut i: usize = 0;
        let n = self.known_addresses.len();
        while i < n
            invariant
                old(self).wf(),
                n == self.known_addresses@.len(),
                i <= n,
                *self == *old(self),
                forall|j: int|
                    0 <= j < i ==> !(self.known_addresses@[j].0 == *peer
                        && self.known_addresses@[j].1@.len() > 0),
            decreases n - i,
        {
            if self.known_addresses[i].0 == *peer && self.known_addresses[i].1.len() > 0 {
                self.dial_queue.push(DialRequest::Peer(*peer));
                return Ok(());
            }
            i = i + 1;
        }
        Err(Error::PeerDoesntExist(*peer))
    }

    /// Ask the node to dial an explicit address.
    pub fn dial_address(&mut self, address: Multiaddr)
        requires
            old(self).wf(),
        ensures
            final(self).wf(),
            final(self).known_addresses == old(self).known_addresses,
            final(self).dial_queue@ == old(self).dial_queue@.push(DialRequest::Address(address)),
    {
        self.dial_queue.push(DialRequest::Address(address));
    }
}

} // verus!
