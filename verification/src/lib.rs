//! Core of a load-generation client for a WebSocket-based BitTorrent tracker
//! protocol: the per-connection session state machine (request rewriting,
//! pending-offer bookkeeping, response dispatch), the shared statistics
//! counters, and the connection-admission decision made on each timer tick.
//!
//! Transport, TLS, and the wire codec are collaborators driven from outside
//! this crate; the state machine here works on plain modelled values.

pub mod admission;
pub mod config;
pub mod protocol;
mod rng;
pub mod session;
pub mod stats;
pub mod uri;

