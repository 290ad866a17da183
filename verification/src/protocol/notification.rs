//! Configuration of a notification protocol.  The protocol's own business
//! logic (handshakes, notification timing) lives with the runtime; the
//! coordination core only registers the protocol under its name with the
//! framing it asked for.

use crate::codec::ProtocolCodec;
use crate::protocol::ProtocolName;
use vstd::prelude::*;

verus! {

/// What a notification protocol registers with the node.
#[derive(Debug)]
pub struct Config {
    /// The name the protocol is negotiated and routed under.
    pub protocol_name: ProtocolName,
    /// Largest notification payload the protocol accepts.
    pub max_notification_size: usize,
    /// Handshake sent when a remote peer opens a substream.
    pub handshake: Vec<u8>,
    /// Further names the same handler answers to.
    pub fallback_names: Vec<ProtocolName>,
    /// Framing of the protocol's substreams.
    pub codec: ProtocolCodec,
}

impl Config {
    /// A notification-protocol registration; payloads are length-prefixed.
    pub fn new(
        protocol_name: ProtocolName,
        max_notification_size: usize,
        handshake: Vec<u8>,
        fallback_names: Vec<ProtocolName>,
    ) -> (r: Config)
        ensures
            r.protocol_name == protocol_name,
            r.max_notification_size == max_notification_size,
            r.handshake == handshake,
            r.fallback_names == fallback_names,
            r.codec == ProtocolCodec::UnsignedVarint,
    {
        Config {
            protocol_name,
            max_notification_size,
            handshake,
            fallback_names,
            codec: ProtocolCodec::UnsignedVarint,
        }
    }

    /// The name the protocol is registered under.
    pub fn protocol_name(&self) -> (r: &ProtocolName)
        ensures
            *r == self.protocol_name,
    {
        &self.protocol_name
    }
}

} // verus!
