//! The decisions of a receive-only WebSocket listener for playlist updates.
//!
//! A listener binds one address and hands each accepted stream to a handler of
//! its own. A handler upgrades its stream, then reads frames: each frame is
//! decoded as a JSON object that holds a timestamp and a playlist, both as
//! text, and the two are logged. This crate holds what the listener and its
//! handlers decide, as functions from a state and an event to the next state
//! and the lines to log; sockets, threads and the console are the caller's.

pub mod connection;
pub mod decode;
pub mod document;
pub mod frame;
pub mod listener;
pub mod log;
pub mod record;
