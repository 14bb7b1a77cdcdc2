//! The registry from connection identity to outbound channel.

use crate::event::Event;
use std::collections::HashMap;
use std::sync::Arc;
use tokio::sync::mpsc::error::TrySendError;
use tokio::sync::mpsc::Sender;
use vstd::prelude::*;

verus! {

/// The sending half of a bounded channel. Its state lives behind the handle
/// and is shared with the receiver, so the verifier treats it as opaque.
#[verifier::external_type_specification]
#[verifier::external_body]
#[verifier::reject_recursive_types(T)]
pub struct ExSender<T>(tokio::sync::mpsc::Sender<T>);

/// What a non-blocking enqueue led to.
#[derive(Debug, Clone, Copy, PartialEq, Eq, Structural)]
pub enum SendStatus {
    /// The channel took the event.
    Enqueued,
    /// The channel is at capacity; the event was not taken.
    Full,
    /// The receiving half is gone; the event was not taken.
    Closed,
}

/// Calls `tokio::sync::mpsc::Sender::try_send`, which never blocks, and tells
/// its three results apart. Which of them comes back depends on the state of
/// the channel, so nothing is claimed about the result.
#[verifier::external_body]
pub(crate) fn try_send(channel: &Sender<Arc<Event>>, event: Arc<Event>) -> (status: SendStatus) {
    match channel.try_send(event) {
        Ok(()) => SendStatus::Enqueued,
        Err(TrySendError::Full(_)) => SendStatus::Full,
        Err(TrySendError::Closed(_)) => SendStatus::Closed,
    }
}

/// Calls `Arc::clone`: a second handle to the same event.
#[verifier::external_body]
pub(crate) fn share(event: &Arc<Event>) -> (copy: Arc<Event>)
    ensures
        copy == *event,
{
    Arc::clone(event)
}

/// The registry of live connections: each identity maps to the channel that
/// feeds the connection's writer.
pub struct ConnectionMapping {
    /// The channel of each registered connection.
    pub map: HashMap<u64, Sender<Arc<Event>>>,
}

impl View for ConnectionMapping {
    type V = Map<u64, Sender<Arc<Event>>>;

    open spec fn view(&self) -> Map<u64, Sender<Arc<Event>>> {
        self.map@
    }
}

impl ConnectionMapping {
    /// A registry without connections.
    pub fn new() -> (mapping: ConnectionMapping)
        ensures
            mapping@ == Map::<u64, Sender<Arc<Event>>>::empty(),
    {
        ConnectionMapping { map: HashMap::new() }
    }

    /// Registers `channel` for `uid` and hands back the channel it replaces,
    /// if there was one.
    pub fn insert(&mut self, uid: u64, channel: Sender<Arc<Event>>) -> (previous: Option<
        Sender<Arc<Event>>,
    >)
        ensures
            final(self)@ == old(self)@.insert(uid, channel),
            previous == if old(self)@.contains_key(uid) {
                Some(old(self)@[uid])
            } else {
                None
            },
    {
        broadcast use vstd::std_specs::hash::group_hash_axioms;

        self.map.insert(uid, channel)
    }

    /// The channel registered for `uid`, if there is one.
    pub fn lookup(&self, uid: u64) -> (channel: Option<&Sender<Arc<Event>>>)
        ensures
            channel == if self@.contains_key(uid) {
                Some(&self@[uid])
            } else {
                None
            },
    {
        broadcast use vstd::std_specs::hash::group_hash_axioms;

        self.map.get(&uid)
    }

    /// Whether a channel is registered for `uid`.
    pub fn contains(&self, uid: u64) -> (known: bool)
        ensures
            known == self@.contains_key(uid),
    {
        broadcast use vstd::std_specs::hash::group_hash_axioms;

        self.map.contains_key(&uid)
    }

    /// Forgets `uid` and hands back its channel, if it had one.
    pub fn remove(&mut self, uid: u64) -> (removed: Option<Sender<Arc<Event>>>)
        ensures
            final(self)@ == old(self)@.remove(uid),
            removed == if old(self)@.contains_key(uid) {
                Some(old(self)@[uid])
            } else {
                None
            },
    {
        broadcast use vstd::std_specs::hash::group_hash_axioms;

        self.map.remove(&uid)
    }

    /// The number of registered connections.
    pub fn len(&self) -> (n: usize)
        ensures
            n == self@.len(),
    {
        broadcast use vstd::std_specs::hash::group_hash_axioms;

        self.map.len()
    }
}

} // verus!
