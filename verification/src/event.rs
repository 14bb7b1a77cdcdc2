//! Messages produced by the simulation.

use vstd::prelude::*;

verus! {

/// Whether an event travels towards the simulation or away from it.
#[derive(Debug, Clone, Copy, PartialEq, Eq, Structural)]
pub enum EventKind {
    /// Sent by a client, consumed by the simulation.
    Request,
    /// Produced by the simulation for delivery to a client.
    Response,
}

/// An immutable message of the simulation.
///
/// An event meant for a client names the connection it goes to; one without a
/// destination cannot be delivered.
#[derive(Debug, Clone, PartialEq, Eq)]
pub struct Event {
    /// The destination connection, if there is one.
    pub uid: Option<u64>,
    /// The direction of travel.
    pub kind: EventKind,
    /// The message body, which the network layer does not interpret.
    pub payload: Vec<u8>,
}

impl Event {
    /// An event of the given kind, addressed to `uid`.
    pub fn new(uid: Option<u64>, kind: EventKind, payload: Vec<u8>) -> (e: Event)
        ensures
            e.uid == uid,
            e.kind == kind,
            e.payload == payload,
    {
        Event { uid, kind, payload }
    }

    /// The destination connection, if there is one.
    pub fn uid(&self) -> (uid: Option<u64>)
        ensures
            uid == self.uid,
    {
        self.uid
    }

    /// Whether the event is bound for a client.
    pub open spec fn outbound(&self) -> bool {
        self.kind == EventKind::Response
    }

    /// Whether the event is bound for a client.
    pub fn is_outbound(&self) -> (b: bool)
        ensures
            b == self.outbound(),
    {
        self.kind == EventKind::Response
    }
}

} // verus!
