//! Per-connection protocol engine of a light-client indexer: the version
//! handshake, the request dispatch of the serving phase, and the decisions
//! that couple the logic task with the socket task.
//!
//! Everything here is a function from plain values to plain values. Sockets,
//! timers, channels and storage are driven by the caller, which feeds events
//! in and carries the returned actions out.

pub mod message;
pub mod error;
pub mod fee;
pub mod rates;
pub mod serve;
pub mod handshake;
pub mod store;
pub mod version;
pub mod utxo;
pub mod session;
pub mod coordinator;
