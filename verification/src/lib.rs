//! Core logic of a protocol-camouflaging TCP relay.
//!
//! The relay listens on one public port, answers each connection with
//! HTTP-looking status lines, inspects the first bytes the client sends
//! without consuming them, and splices the connection through to one of two
//! fixed backends (an SSH daemon or a VPN daemon) chosen by that look-ahead.
//!
//! This crate holds everything that decides or computes: the classification
//! heuristic, the disguise handshake bytes, the backend registry, the
//! adaptive relay buffer, the byte-pump model, and the per-connection
//! pipeline state machine. The sockets themselves (accept, peek, dial,
//! read, write) live outside, in an unverified shell that feeds events to
//! the state machine and carries out the actions it returns.

pub mod buffer;
pub mod config;
pub mod handshake;
pub mod pipeline;
pub mod registry;
pub mod relay;
pub mod sniff;
