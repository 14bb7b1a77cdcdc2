//! Routing of outbound events to the channel of their destination.
//!
//! Delivery is best effort and never blocks: an event that cannot be enqueued
//! at once is dropped and reported. The registry is only ever shrunk here, and
//! only when a channel turns out to have lost its receiver.

use crate::event::Event;
use crate::mapping::{share, try_send, ConnectionMapping, SendStatus};
use std::sync::Arc;
use tokio::sync::mpsc::Sender;
use vstd::prelude::*;

verus! {

/// What became of one outbound event. Every variant but `Delivered` is an
/// error report, and the event it speaks of was dropped.
#[derive(Debug, Clone, Copy, PartialEq, Eq, Structural)]
pub enum DispatchOutcome {
    /// The event was handed to the channel of the named connection.
    Delivered(u64),
    /// The event named no destination.
    MissingDestination,
    /// No channel is registered for the named connection.
    UnknownDestination(u64),
    /// The channel of the named connection is at capacity. The connection
    /// stays registered.
    ChannelFull(u64),
    /// The channel of the named connection has lost its receiver. The
    /// connection was taken out of the registry.
    ChannelClosed(u64),
}

impl DispatchOutcome {
    /// Whether the outcome reports a dropped event.
    pub open spec fn is_drop(self) -> bool {
        !(self is Delivered)
    }

    /// Whether the outcome reports a dropped event.
    pub fn is_error(&self) -> (b: bool)
        ensures
            b == self.is_drop(),
    {
        match self {
            DispatchOutcome::Delivered(_) => false,
            _ => true,
        }
    }
}

/// The registry and the report after an enqueue on the channel of `uid` ended
/// in `status`.
pub open spec fn settled(
    registry: Map<u64, Sender<Arc<Event>>>,
    uid: u64,
    status: SendStatus,
) -> (Map<u64, Sender<Arc<Event>>>, DispatchOutcome) {
    match status {
        SendStatus::Enqueued => (registry, DispatchOutcome::Delivered(uid)),
        SendStatus::Full => (registry, DispatchOutcome::ChannelFull(uid)),
        SendStatus::Closed => (registry.remove(uid), DispatchOutcome::ChannelClosed(uid)),
    }
}

/// The registry and the report after dispatching an event addressed to
/// `destination`, where `status` is what the enqueue led to if one was
/// attempted.
pub open spec fn routed(
    registry: Map<u64, Sender<Arc<Event>>>,
    destination: Option<u64>,
    status: SendStatus,
) -> (Map<u64, Sender<Arc<Event>>>, DispatchOutcome) {
    match destination {
        None => (registry, DispatchOutcome::MissingDestination),
        Some(uid) => if registry.contains_key(uid) {
            settled(registry, uid, status)
        } else {
            (registry, DispatchOutcome::UnknownDestination(uid))
        },
    }
}

/// The registry and the reports after one pass over `events`, in order.
/// Only outbound events are dispatched; `statuses[i]` is what the enqueue of
/// `events[i]` led to, if one was attempted.
pub open spec fn swept(
    registry: Map<u64, Sender<Arc<Event>>>,
    events: Seq<Arc<Event>>,
    statuses: Seq<SendStatus>,
) -> (Map<u64, Sender<Arc<Event>>>, Seq<DispatchOutcome>)
    decreases events.len(),
{
    if events.len() == 0 {
        (registry, Seq::empty())
    } else {
        let before = swept(registry, events.drop_last(), statuses.drop_last());
        if events.last().outbound() {
            let step = routed(before.0, events.last().uid, statuses.last());
            (step.0, before.1.push(step.1))
        } else {
            before
        }
    }
}

/// The number of outbound events among `events`.
pub open spec fn outbound_count(events: Seq<Arc<Event>>) -> nat
    decreases events.len(),
{
    if events.len() == 0 {
        0
    } else {
        outbound_count(events.drop_last()) + if events.last().outbound() {
            1nat
        } else {
            0nat
        }
    }
}

/// Acts on the result of an enqueue on the channel of `uid`: a closed channel
/// is taken out of the registry, and nothing else changes it.
pub fn settle(mapping: &mut ConnectionMapping, uid: u64, status: SendStatus) -> (outcome:
    DispatchOutcome)
    ensures
        (final(mapping)@, outcome) == settled(old(mapping)@, uid, status),
{
    match status {
        SendStatus::Enqueued => DispatchOutcome::Delivered(uid),
        SendStatus::Full => DispatchOutcome::ChannelFull(uid),
        SendStatus::Closed => {
            mapping.remove(uid);
            DispatchOutcome::ChannelClosed(uid)
        },
    }
}

/// Dispatches one event without blocking.
///
/// An event without destination, or whose destination is not registered, is
/// dropped and leaves the registry as it was. Otherwise a copy of the event is
/// offered to the destination's channel, and the outcome follows from what the
/// channel answered.
pub fn dispatch(mapping: &mut ConnectionMapping, event: &Arc<Event>) -> (outcome: DispatchOutcome)
    ensures
        exists|status: SendStatus|
            (final(mapping)@, outcome) == #[trigger] routed(old(mapping)@, event.uid, status),
        event.uid is None ==> outcome == DispatchOutcome::MissingDestination && final(mapping)@
            == old(mapping)@,
        event.uid matches Some(uid) ==> if old(mapping)@.contains_key(uid) {
            ||| outcome == DispatchOutcome::Delivered(uid) && final(mapping)@ == old(mapping)@
            ||| outcome == DispatchOutcome::ChannelFull(uid) && final(mapping)@ == old(mapping)@
            ||| outcome == DispatchOutcome::ChannelClosed(uid) && final(mapping)@ == old(
                mapping,
            )@.remove(uid)
        } else {
            outcome == DispatchOutcome::UnknownDestination(uid) && final(mapping)@ == old(mapping)@
        },
{
    match event.uid() {
        None => {
            assert((mapping@, DispatchOutcome::MissingDestination) == routed(
                mapping@,
                event.uid,
                SendStatus::Enqueued,
            ));
            DispatchOutcome::MissingDestination
        },
        Some(uid) => {
            let status = match mapping.lookup(uid) {
                Some(channel) => Some(try_send(channel, share(event))),
                None => None,
            };
            match status {
                Some(status) => {
                    let outcome = settle(mapping, uid, status);
                    assert((mapping@, outcome) == routed(old(mapping)@, event.uid, status));
                    outcome
                },
                None => {
                    assert((mapping@, DispatchOutcome::UnknownDestination(uid)) == routed(
                        mapping@,
                        event.uid,
                        SendStatus::Enqueued,
                    ));
                    DispatchOutcome::UnknownDestination(uid)
                },
            }
        },
    }
}

/// Dispatches the outbound events among `events`, in order, and returns one
/// outcome for each of them. Events of any other kind are passed over.
pub fn dispatch_all(mapping: &mut ConnectionMapping, events: &Vec<Arc<Event>>) -> (outcomes: Vec<
    DispatchOutcome,
>)
    ensures
        exists|statuses: Seq<SendStatus>|
            statuses.len() == events@.len() && (final(mapping)@, outcomes@) == #[trigger] swept(
                old(mapping)@,
                events@,
                statuses,
            ),
{
    let mut outcomes: Vec<DispatchOutcome> = Vec::new();
    let ghost mut statuses: Seq<SendStatus> = Seq::empty();
    let mut i: usize = 0;
    while i < events.len()
        invariant
            i <= events@.len(),
            statuses.len() == i,
            (mapping@, outcomes@) == swept(old(mapping)@, events@.take(i as int), statuses),
        decreases events@.len() - i,
    {
        let ghost before = mapping@;
        let ghost prefix = events@.take(i as int);
        let ghost next = events@.take(i + 1);
        assert(next.drop_last() == prefix);
        assert(next.last() == events@[i as int]);
        if events[i].is_outbound() {
            let outcome = dispatch(mapping, &events[i]);
            let ghost status = choose|status: SendStatus|
                (mapping@, outcome) == #[trigger] routed(before, events@[i as int].uid, status);
            outcomes.push(outcome);
            proof {
                assert(statuses.push(status).drop_last() == statuses);
                statuses = statuses.push(status);
            }
        } else {
            proof {
                assert(statuses.push(SendStatus::Enqueued).drop_last() == statuses);
                statuses = statuses.push(SendStatus::Enqueued);
            }
        }
        i += 1;
    }
    assert(events@.take(i as int) == events@);
    outcomes
}

/// An event that names no destination, or one that is not registered, is
/// dropped: the registry stays as it was and exactly one report is made,
/// which says what was wrong. No enqueue is attempted, so the report does not
/// depend on any channel.
pub proof fn undeliverable_is_dropped(
    registry: Map<u64, Sender<Arc<Event>>>,
    destination: Option<u64>,
    status: SendStatus,
)
    requires
        destination matches Some(uid) ==> !registry.contains_key(uid),
    ensures
        routed(registry, destination, status).0 == registry,
        routed(registry, destination, status).1.is_drop(),
        routed(registry, destination, status).1 == match destination {
            None => DispatchOutcome::MissingDestination,
            Some(uid) => DispatchOutcome::UnknownDestination(uid),
        },
{
}

/// An event for a registered destination is always offered to its channel:
/// it is never reported as undeliverable, and what is reported is what the
/// channel answered.
pub proof fn registered_destination_is_tried(
    registry: Map<u64, Sender<Arc<Event>>>,
    uid: u64,
    status: SendStatus,
)
    requires
        registry.contains_key(uid),
    ensures
        routed(registry, Some(uid), status) == settled(registry, uid, status),
        routed(registry, Some(uid), status).1 == match status {
            SendStatus::Enqueued => DispatchOutcome::Delivered(uid),
            SendStatus::Full => DispatchOutcome::ChannelFull(uid),
            SendStatus::Closed => DispatchOutcome::ChannelClosed(uid),
        },
{
}

/// A destination whose channel is at capacity loses the event and stays
/// registered, with the same channel.
pub proof fn full_channel_stays_registered(registry: Map<u64, Sender<Arc<Event>>>, uid: u64)
    requires
        registry.contains_key(uid),
    ensures
        routed(registry, Some(uid), SendStatus::Full) == (
            registry,
            DispatchOutcome::ChannelFull(uid),
        ),
{
}

/// A destination whose channel has lost its receiver is taken out of the
/// registry, and every later event for it is reported as having an unknown
/// destination, whatever `later` says.
pub proof fn closed_channel_is_forgotten(
    registry: Map<u64, Sender<Arc<Event>>>,
    uid: u64,
    later: SendStatus,
)
    requires
        registry.contains_key(uid),
    ensures
        ({
            let first = routed(registry, Some(uid), SendStatus::Closed);
            &&& first.1 == DispatchOutcome::ChannelClosed(uid)
            &&& first.0 == registry.remove(uid)
            &&& !first.0.contains_key(uid)
            &&& routed(first.0, Some(uid), later) == (
                first.0,
                DispatchOutcome::UnknownDestination(uid),
            )
        }),
{
}

/// Dispatching one event leaves every other connection as it was.
pub proof fn other_connections_are_untouched(
    registry: Map<u64, Sender<Arc<Event>>>,
    destination: Option<u64>,
    status: SendStatus,
    other: u64,
)
    requires
        destination != Some(other),
    ensures
        routed(registry, destination, status).0.contains_key(other) == registry.contains_key(
            other,
        ),
        registry.contains_key(other) ==> routed(registry, destination, status).0[other]
            == registry[other],
{
}

/// A pass over any events only ever forgets connections: what is registered
/// afterwards was registered before, with the same channel, and a connection
/// is forgotten only where the pass reports its channel as closed.
pub proof fn sweep_only_forgets(
    registry: Map<u64, Sender<Arc<Event>>>,
    events: Seq<Arc<Event>>,
    statuses: Seq<SendStatus>,
)
    requires
        statuses.len() == events.len(),
    ensures
        forall|uid: u64| #[trigger]
            swept(registry, events, statuses).0.contains_key(uid) ==> registry.contains_key(uid)
                && swept(registry, events, statuses).0[uid] == registry[uid],
        forall|uid: u64|
            registry.contains_key(uid) && !swept(registry, events, statuses).0.contains_key(uid)
                ==> #[trigger] swept(registry, events, statuses).1.contains(
                DispatchOutcome::ChannelClosed(uid),
            ),
    decreases events.len(),
{
    if events.len() > 0 {
        let before = swept(registry, events.drop_last(), statuses.drop_last());
        let after = swept(registry, events, statuses);
        sweep_only_forgets(registry, events.drop_last(), statuses.drop_last());
        assert forall|uid: u64| #[trigger] after.0.contains_key(uid) implies registry.contains_key(
            uid,
        ) && after.0[uid] == registry[uid] by {
            assert(before.0.contains_key(uid));
        }
        assert forall|uid: u64| registry.contains_key(uid) && !after.0.contains_key(uid) implies
            #[trigger] after.1.contains(DispatchOutcome::ChannelClosed(uid)) by {
            let closed = DispatchOutcome::ChannelClosed(uid);
            if before.0.contains_key(uid) {
                assert(events.last().outbound());
                assert(after.1.last() == closed);
            } else {
                assert(before.1.contains(closed));
                let k = choose|k: int| 0 <= k < before.1.len() && before.1[k] == closed;
                assert(after.1[k] == closed);
            }
        }
    }
}

/// A pass reports on each outbound event once: there are as many reports as
/// there are outbound events.
pub proof fn sweep_reports_each_outbound_event(
    registry: Map<u64, Sender<Arc<Event>>>,
    events: Seq<Arc<Event>>,
    statuses: Seq<SendStatus>,
)
    requires
        statuses.len() == events.len(),
    ensures
        swept(registry, events, statuses).1.len() == outbound_count(events),
    decreases events.len(),
{
    if events.len() > 0 {
        sweep_reports_each_outbound_event(registry, events.drop_last(), statuses.drop_last());
    }
}

} // verus!
