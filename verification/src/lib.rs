//! Core of an interactive client for a topic-based publish/subscribe
//! messaging protocol.
//!
//! The heart of the crate is the session runner ([`runner::Runner`]): a
//! state machine that owns the lifecycle of at most one client handle,
//! carries a session-resumption token across disconnect/resume cycles,
//! and forwards every inbound packet to an observer sink in arrival
//! order.  The runner itself performs no I/O: a host loop waits on the
//! intent queue and the packet source, calls the runner's transition
//! methods, and carries out the actions they return.

pub mod command;
pub mod model;
pub mod packet;
pub mod runner;
pub mod settings;
