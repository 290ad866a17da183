//! Configuration of a request-response protocol.  As with notification
//! protocols, only the registration is the coordination core's concern.

use crate::codec::ProtocolCodec;
use crate::protocol::ProtocolName;
use vstd::prelude::*;

verus! {

/// What a request-response protocol registers with the node.
#[derive(Debug)]
pub struct Config {
    /// The name the protocol is negotiated and routed under.
    pub protocol_name: ProtocolName,
    /// Largest request or response payload the protocol accepts.
    pub max_message_size: usize,
    /// Framing of the protocol's substreams.
    pub codec: ProtocolCodec,
}

impl Config {
    /// A request-response registration; payloads are length-prefixed.
    pub fn new(protocol_name: ProtocolName, max_message_size: usize) -> (r: Config)
        ensures
            r.protocol_name == protocol_name,
            r.max_message_size == max_message_size,
            r.codec == ProtocolCodec::UnsignedVarint,
    {
        Config { protocol_name, max_message_size, codec: ProtocolCodec::UnsignedVarint }
    }

    /// The name the protocol is registered under.
    pub fn protocol_name(&self) -> (r: &ProtocolName)
        ensures
            *r == self.protocol_name,
    {
        &self.protocol_name
    }
}

} // verus!
