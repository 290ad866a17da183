//! The substream value routed between a connection and a protocol.
//!
//! An open substream's byte stream lives with the runtime; the coordination
//! core routes a token standing for it, so a delivered substream can be tied
//! back to the I/O object the transport created.

use vstd::prelude::*;

verus! {

/// Stands for one negotiated substream of one connection; `id` is the token
/// by which the runtime finds the byte stream it drives.
#[derive(Debug, Clone, Copy, PartialEq, Eq, Structural)]
pub struct Substream {
    pub id: u64,
}

} // verus!
