//! Per-connection bridging engine between a remote client, a sandboxed
//! process and a shared-memory display buffer.
//!
//! The crate holds the decisions of the engine: the layout of the shared
//! region and the reader side of its lock-word handshake, frame pacing, the
//! frame producer, the biased selection among event sources and the session
//! state machine. Sockets, processes and memory mapping belong to the caller.

pub mod layout;
pub mod handshake;
pub mod pacing;
pub mod producer;
pub mod naming;
pub mod sandbox;
pub mod message;
pub mod select;
pub mod bridge;
pub mod session_laws;
