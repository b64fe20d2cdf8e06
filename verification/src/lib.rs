//! Verified core of a bridge between a remote client and a local shell
//! running on a pseudo-terminal.
//!
//! The library decides and never waits: every function takes what has
//! happened as plain values and says what to do next. The program around it
//! owns the pty, the child process and the network channel, carries out the
//! operations that it is asked for, and reports their outcome.
//!
//! - [`launcher`]: what to launch for a request, and how a session starts.
//! - [`session`]: the inbound loop, the liveness check and the teardown.
//! - [`terminal`]: the outbound relay and the write of input to the pty.
//! - [`wire`]: the messages of the client and the heartbeat token.
//! - [`liveness`]: when a silent peer counts as unreachable.
//! - [`fault`]: what can go wrong and how far it reaches.
//! - [`laws`]: what holds of every run.

pub mod fault;
pub mod launcher;
pub mod laws;
pub mod liveness;
pub mod session;
pub mod terminal;
pub mod wire;
