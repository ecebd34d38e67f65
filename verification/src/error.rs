//! The error taxonomy of the transport contracts.
//!
//! Every operation surfaces failure to its caller; nothing here retries or
//! aborts the process.  The one distinction that matters to callers is kept
//! explicit: an acceptor that was closed reports `AcceptError::Closed`, never
//! a transient condition, so an accept loop can stop cleanly.

use vstd::prelude::*;

verus! {

/// Why a `bind` failed.
#[derive(Clone, Copy, PartialEq, Eq, Structural, Debug)]
pub enum BindError {
    /// The address cannot be bound at all (for example a broadcast address).
    InvalidAddress,
    /// Another live endpoint already holds the address, or no ephemeral port
    /// is left to assign.
    AddressInUse,
    /// The caller may not bind this address (for example a privileged port).
    PermissionDenied,
}

/// Why a `listen` failed: the bound resource cannot move to a listening
/// state.
#[derive(Clone, Copy, PartialEq, Eq, Structural, Debug)]
pub enum ListenError {
    /// The listener was already consumed by an earlier `listen`.
    Unavailable,
}

/// Why an `accept` failed.
#[derive(Clone, Copy, PartialEq, Eq, Structural, Debug)]
pub enum AcceptError {
    /// The acceptor was closed; no later `accept` will ever succeed.
    Closed,
    /// A transient condition: no connection is pending right now, or a
    /// momentary fault of the platform.  The caller may retry.
    WouldBlock,
}

/// Why a `connect` failed.
#[derive(Clone, Copy, PartialEq, Eq, Structural, Debug)]
pub enum ConnectError {
    /// Nothing is listening at the remote address.
    Refused,
    /// The remote address cannot be reached, or no local ephemeral port is
    /// left for the connection.
    Unreachable,
    /// The attempt gave up after waiting.
    TimedOut,
}

/// A generic read/write/flush failure on an established channel.
#[derive(Clone, Copy, PartialEq, Eq, Structural, Debug)]
pub enum IoError {
    /// The peer reset or abandoned the connection.
    ConnectionReset,
    /// The channel is no longer usable.
    Closed,
}

} // verus!
