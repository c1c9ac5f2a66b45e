//! A text broadcast hub: every line that a connection sends is annotated and
//! fanned out to all connections through one shared broadcast bus.
//!
//! The library holds the decisions; the caller runs the transport and the
//! asynchronous loops, hands each event to the matching state machine and
//! performs the action that comes back.
pub mod acceptor;
pub mod annotate;
pub mod bus;
pub mod client;
pub mod endpoint;
pub mod frame;
pub mod handler;
