//! Capability contracts for pluggable network transports.
//!
//! The crate decouples protocol code from the concrete transport behind it:
//! a `NetworkListener` reserves a local endpoint, turns into a
//! `NetworkAcceptor` that yields connections, and each connection is a
//! `NetworkStream`, a duplex byte channel that can be duplicated without
//! copying the underlying connection.  The `Fresh`/`Streaming` markers form a
//! sealed, compile-time write-status state machine for the protocol layer.
//! The `mem` module holds an in-memory transport whose behaviour is verified
//! and which serves as the reference model of the contracts.

pub mod addr;
pub mod error;
mod sealed;
pub mod status;
pub mod mem;
pub mod traits;
