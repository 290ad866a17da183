//! The framing kinds a registered protocol can ask for.  The actual framing
//! of substream payloads is done by the runtime; the coordination core only
//! records which kind each protocol registered and hands it back at
//! negotiation time.

use vstd::prelude::*;

verus! {

/// How payloads of a protocol's substreams are framed on the wire.
#[derive(Debug, Clone, Copy, PartialEq, Eq, Structural)]
pub enum ProtocolCodec {
    /// Fixed-size payloads of the given length, sent as they are.
    Identity(usize),
    /// Length-prefixed payloads, the length an unsigned varint.
    UnsignedVarint,
}

} // verus!
