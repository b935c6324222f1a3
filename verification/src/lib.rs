//! Control-protocol codec and session supervision for a hardware
//! connectivity agent.
//!
//! The agent holds one control connection, decodes the commands that arrive
//! on it, runs at most one monitoring session at a time and reports every
//! failure back to the control server. This library holds the decisions of
//! that agent as verified functions on plain values; the program around it
//! owns the sockets, the subprocess and the timers.
//!
//! - [`commands`], [`id`]: the messages of the protocol and their identifiers.
//! - [`json`], [`codec`]: how a message is written to a frame and read from
//!   one. JSON text is read and strings are quoted by `serde_json`;
//!   identifiers are read and written by `uuid`.
//! - [`session`]: the supervisor of the one monitoring session, and the steps
//!   of starting one.
//! - [`script`]: the commands that run the monitor and upload scripts.
//! - [`startup`], [`channel`], [`clock`], [`errors`]: what the agent checks
//!   before it serves, what it makes of a failed send, its timestamps and its
//!   error values.
//! - [`gateway`]: the lines of the peripheral scanner and the reports of its
//!   gateway.

pub mod channel;
pub mod clock;
pub mod codec;
pub mod commands;
pub mod errors;
pub mod gateway;
pub mod id;
pub mod json;
pub mod script;
pub mod session;
pub mod startup;
