//! The error taxonomy of the coordination core.
//!
//! Addressing errors are surfaced synchronously from `connect`; resolution
//! errors arrive asynchronously as dial-failure events; routing errors mark a
//! disagreement between the negotiation table and the registration table; and
//! a lost channel toward a connection task is reported as a disconnection.

use crate::address::Multiaddr;
use crate::crypto::PeerId;
use vstd::prelude::*;

verus! {

/// Everything the coordination core can report as a failure.
#[derive(Debug, PartialEq)]
pub enum Error {
    /// The dialed address names a layering no configured transport handles.
    TransportNotSupported(Multiaddr),
    /// A DNS-rooted dial could not be resolved to a literal address.
    DnsAddressResolutionFailed,
    /// The protocol has no record of the peer at all.
    PeerDoesntExist(PeerId),
    /// The connection toward the peer is already gone; the runtime maps a
    /// command lane that can no longer be reached to this value.
    Disconnected,
    /// A substream outcome was routed for a protocol name that was never
    /// registered.
    ProtocolNotSupported(String),
    /// A channel toward another task closed underneath a send.
    ChannelClosed,
    /// Any other failure, described in text.
    Other(String),
}

} // verus!
