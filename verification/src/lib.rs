//! Dispatch core of a UDP request/response server.
//!
//! The library models the lifecycle of a server controller, the decisions of
//! the reactor thread that polls the bound socket, and the decode-and-handle
//! task that a worker thread runs for each received datagram. Every decision
//! is a verified function from plain values to plain values; the sockets,
//! threads and channels that carry those values live outside the library.

pub mod addr;
pub mod dispatch;
pub mod reactor;
pub mod server;
