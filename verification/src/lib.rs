//! Network-facing core of a real-time multiplayer game server.
//!
//! The crate holds the decisions of three cooperating pieces, each proved
//! against a mathematical model:
//!
//! * [`dispatcher`]: routing of the outbound [`event`]s of a simulation tick
//!   to the bounded channel of their destination connection, over the
//!   [`mapping`] registry. Delivery never blocks and is best effort.
//! * [`acceptor`]: the reactions of the accept loop and of the per-connection
//!   session tasks it spawns. No failure of one connection reaches another.
//! * [`error`]: the failure vocabulary of the binary wire format, with the
//!   format itself in [`wire`], its readers in [`decode`] and its writers in
//!   [`encode`]. Reading what was written gives it back.
//!
//! [`text`] renders the numbers that addresses and messages hold.
//!
//! Sockets, task spawning and logging are left to the program around it.

pub mod acceptor;
pub mod decode;
pub mod dispatcher;
pub mod encode;
pub mod error;
pub mod event;
pub mod mapping;
pub mod text;
pub mod wire;
