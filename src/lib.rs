//! A client library for a JSON-framed push gateway: the opcode table, the
//! connection's protocol state machine, the outbound frames it produces, and a
//! typed event registry that routes decoded events to their listeners.

pub mod opcode;
pub mod error;
pub mod event;
pub mod frame;
pub mod connection;
pub mod client;
