//! Process-unique identifiers and their allocators.
//!
//! A connection and every outbound substream-open attempt are tagged with a
//! monotonically assigned integer so that later events can be correlated with
//! the operation that caused them.  Each allocator hands out strictly
//! increasing values, so an identifier is never reused while the allocator
//! lives; the node owns one allocator of each kind and every identifier of the
//! process is drawn from it.

use vstd::prelude::*;

verus! {

/// Identifies one physical connection to one peer for the lifetime of that
/// connection.
#[derive(Debug, Clone, Copy, PartialEq, Eq, Structural)]
pub struct ConnectionId {
    pub value: usize,
}

impl ConnectionId {
    /// A fresh connection-identifier counter, starting from zero.
    pub fn new() -> (r: ConnectionId)
        ensures
            r.value == 0,
    {
        ConnectionId { value: 0 }
    }

    /// Allocate the next connection identifier: returns the current counter
    /// value and advances the counter.
    pub fn next(&mut self) -> (r: ConnectionId)
        requires
            old(self).value < usize::MAX,
        ensures
            r.value == old(self).value,
            final(self).value == old(self).value + 1,
    {
        let id = ConnectionId { value: self.value };
        self.value = self.value + 1;
        id
    }
}

/// Identifies one outbound substream-open attempt, so that its eventual
/// success or failure can be routed back to the protocol that requested it.
#[derive(Debug, Clone, Copy, PartialEq, Eq, Structural)]
pub struct SubstreamId {
    pub value: usize,
}

impl From<usize> for SubstreamId {
    fn from(value: usize) -> (r: SubstreamId)
        ensures
            r.value == value,
    {
        SubstreamId { value }
    }
}

impl vstd::std_specs::convert::FromSpecImpl<usize> for SubstreamId {
    open spec fn obeys_from_spec() -> bool {
        true
    }

    open spec fn from_spec(value: usize) -> SubstreamId {
        SubstreamId { value }
    }
}

/// The substream-identifier counter.  The node owns a single allocator and
/// lends it to whoever opens a substream, so substream identifiers are unique
/// across all protocols and connections of the process.
#[derive(Debug, Clone, Copy, PartialEq, Eq, Structural)]
pub struct SubstreamIdAllocator {
    pub counter: usize,
}

/// One allocation step: `id` was handed out and the counter advanced by one.
pub open spec fn substream_allocation(
    pre: SubstreamIdAllocator,
    post: SubstreamIdAllocator,
    id: SubstreamId,
) -> bool {
    &&& id.value == pre.counter
    &&& post.counter == pre.counter + 1
}

impl SubstreamIdAllocator {
    /// A fresh substream-identifier counter, starting from zero.
    pub fn new() -> (r: SubstreamIdAllocator)
        ensures
            r.counter == 0,
    {
        SubstreamIdAllocator { counter: 0 }
    }

    /// Allocate the next substream identifier.
    pub fn allocate(&mut self) -> (r: SubstreamId)
        requires
            old(self).counter < usize::MAX,
        ensures
            substream_allocation(*old(self), *final(self), r),
    {
        let id = SubstreamId { value: self.counter };
        self.counter = self.counter + 1;
        id
    }
}

/// Along a chain of allocator states linked by single allocations, the
/// counter advances by exactly one per step.
proof fn lemma_substream_counter_advances(
    states: Seq<SubstreamIdAllocator>,
    ids: Seq<SubstreamId>,
    k: int,
    l: int,
)
    requires
        ids.len() + 1 == states.len(),
        forall|m: int|
            0 <= m < ids.len() ==> substream_allocation(states[m], states[m + 1], ids[m]),
        0 <= k <= l < states.len(),
    ensures
        states[l].counter == states[k].counter + (l - k),
    decreases l - k,
{
    if k < l {
        lemma_substream_counter_advances(states, ids, k, l - 1);
        assert(substream_allocation(states[l - 1], states[l], ids[l - 1]));
    }
}

/// Substream identifiers are never reused within a process lifetime and are
/// strictly increasing: along any chain of allocations from one allocator,
/// every identifier is strictly smaller than each later one, so all are
/// distinct.
pub proof fn lemma_substream_ids_strictly_increasing(
    states: Seq<SubstreamIdAllocator>,
    ids: Seq<SubstreamId>,
)
    requires
        ids.len() + 1 == states.len(),
        forall|m: int|
            0 <= m < ids.len() ==> substream_allocation(states[m], states[m + 1], ids[m]),
    ensures
        forall|k: int, l: int| 0 <= k < l < ids.len() ==> ids[k].value < ids[l].value,
        forall|k: int, l: int| 0 <= k < l < ids.len() ==> ids[k] != ids[l],
{
    assert forall|k: int, l: int| 0 <= k < l < ids.len() implies ids[k].value < ids[l].value by {
        lemma_substream_counter_advances(states, ids, k, l);
    }
}

/// One allocation step of the connection-identifier counter.
pub open spec fn connection_allocation(
    pre: ConnectionId,
    post: ConnectionId,
    id: ConnectionId,
) -> bool {
    &&& id.value == pre.value
    &&& post.value == pre.value + 1
}

/// See `lemma_substream_ids_strictly_increasing`.
proof fn lemma_connection_counter_advances(
    states: Seq<ConnectionId>,
    ids: Seq<ConnectionId>,
    k: int,
    l: int,
)
    requires
        ids.len() + 1 == states.len(),
        forall|m: int|
            0 <= m < ids.len() ==> connection_allocation(states[m], states[m + 1], ids[m]),
        0 <= k <= l < states.len(),
    ensures
        states[l].value == states[k].value + (l - k),
    decreases l - k,
{
    if k < l {
        lemma_connection_counter_advances(states, ids, k, l - 1);
        assert(connection_allocation(states[l - 1], states[l], ids[l - 1]));
    }
}

/// Connection identifiers are never reused within a process lifetime and are
/// strictly increasing, in the same sense as substream identifiers.
pub proof fn lemma_connection_ids_strictly_increasing(
    states: Seq<ConnectionId>,
    ids: Seq<ConnectionId>,
)
    requires
        ids.len() + 1 == states.len(),
        forall|m: int|
            0 <= m < ids.len() ==> connection_allocation(states[m], states[m + 1], ids[m]),
    ensures
        forall|k: int, l: int| 0 <= k < l < ids.len() ==> ids[k].value < ids[l].value,
        forall|k: int, l: int| 0 <= k < l < ids.len() ==> ids[k] != ids[l],
{
    assert forall|k: int, l: int| 0 <= k < l < ids.len() implies ids[k].value < ids[l].value by {
        lemma_connection_counter_advances(states, ids, k, l);
    }
}

} // verus!
