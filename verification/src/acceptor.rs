//! The reactions of the connection acceptor.
//!
//! The acceptor binds one listening socket and then accepts connections for
//! as long as the process lives. Each accepted connection is served by a task
//! of its own, and whatever goes wrong with one connection, or with one
//! attempt to accept, is reported and goes no further. The program around
//! this module waits for the next thing to happen, asks [`react`] what to do
//! about it, and does it.

use crate::text::{append_decimal, decimal};
use vstd::prelude::*;
use vstd::string::StringExecFns;

verus! {

/// How a session task came to its end.
#[derive(Debug, Clone, Copy, PartialEq, Eq, Structural)]
pub enum SessionEnd {
    /// The session could not be set up.
    SetupFailed,
    /// The session was set up and later failed while serving.
    ServiceFailed,
    /// The connection was served until it closed.
    Closed,
}

/// What the acceptor and its session tasks wait for.
#[derive(Debug, Clone, Copy, PartialEq, Eq, Structural)]
pub enum ServerEvent {
    /// The listening socket handed over a new connection.
    Connected,
    /// An attempt to accept a connection failed.
    AcceptFailed,
    /// A session task ended.
    SessionEnded(SessionEnd),
}

/// The weight of a diagnostic record.
#[derive(Debug, Clone, Copy, PartialEq, Eq, Structural)]
pub enum Severity {
    Info,
    Warn,
    Error,
}

/// What a diagnostic record is about.
#[derive(Debug, Clone, Copy, PartialEq, Eq, Structural)]
pub enum Notice {
    /// A connection could not be accepted.
    AcceptFailed,
    /// A session could not be set up.
    SessionSetupFailed,
    /// A session failed while serving its connection.
    SessionFailed,
    /// A connection was served until it closed.
    ConnectionClosed,
}

/// What to do about a [`ServerEvent`]. After either reaction the acceptor
/// goes on accepting: no reaction ends the loop.
#[derive(Debug, Clone, Copy, PartialEq, Eq, Structural)]
pub enum Reaction {
    /// Start a session task for the new connection, without waiting for it.
    SpawnSession,
    /// Write a diagnostic record; nothing else happens.
    Report(Notice),
}

impl Notice {
    /// The weight with which the notice is reported.
    pub open spec fn weight(self) -> Severity {
        match self {
            Notice::AcceptFailed => Severity::Error,
            Notice::SessionSetupFailed => Severity::Error,
            Notice::SessionFailed => Severity::Warn,
            Notice::ConnectionClosed => Severity::Info,
        }
    }

    /// The weight with which the notice is reported.
    pub fn severity(&self) -> (s: Severity)
        ensures
            s == self.weight(),
    {
        match self {
            Notice::AcceptFailed => Severity::Error,
            Notice::SessionSetupFailed => Severity::Error,
            Notice::SessionFailed => Severity::Warn,
            Notice::ConnectionClosed => Severity::Info,
        }
    }
}

/// The reaction that `event` calls for.
pub open spec fn reaction(event: ServerEvent) -> Reaction {
    match event {
        ServerEvent::Connected => Reaction::SpawnSession,
        ServerEvent::AcceptFailed => Reaction::Report(Notice::AcceptFailed),
        ServerEvent::SessionEnded(SessionEnd::SetupFailed) => Reaction::Report(
            Notice::SessionSetupFailed,
        ),
        ServerEvent::SessionEnded(SessionEnd::ServiceFailed) => Reaction::Report(
            Notice::SessionFailed,
        ),
        ServerEvent::SessionEnded(SessionEnd::Closed) => Reaction::Report(Notice::ConnectionClosed),
    }
}

/// Decides what to do about `event`.
pub fn react(event: ServerEvent) -> (r: Reaction)
    ensures
        r == reaction(event),
{
    match event {
        ServerEvent::Connected => Reaction::SpawnSession,
        ServerEvent::AcceptFailed => Reaction::Report(Notice::AcceptFailed),
        ServerEvent::SessionEnded(end) => match end {
            SessionEnd::SetupFailed => Reaction::Report(Notice::SessionSetupFailed),
            SessionEnd::ServiceFailed => Reaction::Report(Notice::SessionFailed),
            SessionEnd::Closed => Reaction::Report(Notice::ConnectionClosed),
        },
    }
}

/// Reacts to a run of events, one reaction for each event and in the same
/// order. The run is never cut short, whatever it holds.
pub fn supervise(events: &Vec<ServerEvent>) -> (reactions: Vec<Reaction>)
    ensures
        reactions@ == events@.map_values(|e: ServerEvent| reaction(e)),
{
    let mut reactions: Vec<Reaction> = Vec::new();
    let mut i: usize = 0;
    while i < events.len()
        invariant
            i <= events@.len(),
            reactions@ == events@.take(i as int).map_values(|e: ServerEvent| reaction(e)),
        decreases events@.len() - i,
    {
        reactions.push(react(events[i]));
        i += 1;
        assert(reactions@ =~= events@.take(i as int).map_values(|e: ServerEvent| reaction(e)));
    }
    assert(events@.take(i as int) == events@);
    reactions
}

/// The address to listen on: the host name, a colon, and the port in decimal.
pub open spec fn listen_address_of(hostname: Seq<char>, port: u16) -> Seq<char> {
    hostname + seq![':'] + decimal(port as nat)
}

/// The address on which the acceptor binds its listening socket.
pub fn listen_address(hostname: &str, port: u16) -> (address: String)
    ensures
        address@ == listen_address_of(hostname@, port),
{
    proof {
        reveal_strlit(":");
    }
    let mut address = String::from_str(hostname);
    address.append(":");
    assert(address@ =~= hostname@ + seq![':']);
    append_decimal(&mut address, port as u64);
    address
}

/// How often `x` occurs in `s`.
pub open spec fn occurrences<T>(s: Seq<T>, x: T) -> nat
    decreases s.len(),
{
    if s.len() == 0 {
        0
    } else {
        occurrences(s.drop_last(), x) + if s.last() == x {
            1nat
        } else {
            0nat
        }
    }
}

/// The reactions to a run of events, in order.
pub open spec fn reactions_to(events: Seq<ServerEvent>) -> Seq<Reaction> {
    events.map_values(|e: ServerEvent| reaction(e))
}

/// Over any run of events, the acceptor reacts to every event, spawns one
/// session for each accepted connection and makes one report for each failed
/// accept: a failure never ends the run and never costs a later connection
/// its session.
pub proof fn accept_loop_never_stops(events: Seq<ServerEvent>)
    ensures
        reactions_to(events).len() == events.len(),
        occurrences(reactions_to(events), Reaction::SpawnSession) == occurrences(
            events,
            ServerEvent::Connected,
        ),
        occurrences(reactions_to(events), Reaction::Report(Notice::AcceptFailed)) == occurrences(
            events,
            ServerEvent::AcceptFailed,
        ),
    decreases events.len(),
{
    if events.len() > 0 {
        accept_loop_never_stops(events.drop_last());
        assert(reactions_to(events).drop_last() =~= reactions_to(events.drop_last()));
    }
}

/// Whatever happened before, and in particular however earlier sessions
/// ended, a connection that is accepted gets a session of its own.
pub proof fn failures_stay_contained(events: Seq<ServerEvent>, i: int)
    requires
        0 <= i < events.len(),
        events[i] == ServerEvent::Connected,
    ensures
        reactions_to(events)[i] == Reaction::SpawnSession,
{
}

/// The end of a session, however it came about, leads to a report and to
/// nothing else.
pub proof fn session_end_is_only_reported(end: SessionEnd)
    ensures
        reaction(ServerEvent::SessionEnded(end)) is Report,
{
}

} // verus!
