//! Core of a reverse-tunnel relay: a broker keeps a FIFO pool of idle
//! worker connections and pairs each incoming user connection with the
//! oldest idle worker; a worker agent keeps dialing the broker back,
//! greets its local target service, and relays bytes in both directions.
//!
//! Everything here is plain data and decisions: the sockets themselves,
//! the accept loops and the actual byte shuffling live in the thin
//! runtime around this crate, which feeds events in and carries the
//! chosen actions out.

pub mod agent;
pub mod broker;
pub mod config;
pub mod pool;
pub mod relay;
