//! A demonstration library for priority isolation: a server accepts
//! connections on an event-driven runtime while a fixed pool of OS threads,
//! pinned to a lower scheduling priority, runs CPU-bound background work.
//! The verified core holds the synthetic computation unit, the configuration
//! rules, the wire-protocol model with its per-connection state machine, and
//! the startup sequencing that keeps a failed bind from leaving workers
//! behind. The I/O shell around it lives outside the library.

pub mod acceptor;
pub mod compute;
pub mod config;
pub mod connection;
pub mod pool;
pub mod protocol;
pub mod startup;
