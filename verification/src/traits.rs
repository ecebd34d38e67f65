//! The three transport capability contracts.
//!
//! A conforming transport implements all three for one underlying resource:
//! a listener reserves an endpoint, its one-shot `listen` yields an acceptor,
//! and the acceptor yields streams.  Each trait models its handle with two
//! spec functions: `resource`, the identity of the underlying resource a
//! handle refers to, and a little observable state.  Duplication is part of
//! the contract itself — `dup` must return a handle to the *same* resource —
//! because a runtime-polymorphic handle cannot be duplicated generically.
//! The in-memory transport of `crate::mem` is the verified reference model of
//! these obligations; a real TCP transport implements them over the
//! platform's sockets.
//!
//! The spec functions default to an arbitrary value so that a transport
//! written outside the verifier can implement a trait by supplying the
//! executable methods alone; a verified transport overrides them with its
//! real model, and only then do the contracts below say anything about it.

use vstd::prelude::*;
use vstd::pervasive::arbitrary;
use crate::addr::SocketAddr;
use crate::error::{AcceptError, BindError, ConnectError, IoError, ListenError};

verus! {

/// A duplex byte channel representing one connection.
pub trait NetworkStream: Sized {
    /// The identity of the underlying connection resource.
    open spec fn resource(&self) -> int {
        arbitrary()
    }

    /// The address of the remote endpoint of the connection.
    open spec fn peer(&self) -> SocketAddr {
        arbitrary()
    }

    /// Reads at most `max` bytes; an empty result means no byte was
    /// available before the channel ended.
    fn read(&mut self, max: usize) -> (r: Result<Vec<u8>, IoError>)
        ensures
            final(self).resource() == old(self).resource(),
            final(self).peer() == old(self).peer(),
            (r matches Ok(bytes) ==> bytes@.len() <= max),
    ;

    /// Writes all of `data`, possibly buffering it.
    fn write(&mut self, data: &[u8]) -> (r: Result<(), IoError>)
        ensures
            final(self).resource() == old(self).resource(),
            final(self).peer() == old(self).peer(),
    ;

    /// Forces buffered bytes out to the connection.
    fn flush(&mut self) -> (r: Result<(), IoError>)
        ensures
            final(self).resource() == old(self).resource(),
            final(self).peer() == old(self).peer(),
    ;

    /// Reports the remote endpoint of the connection.
    fn peer_name(&mut self) -> (r: Result<SocketAddr, IoError>)
        ensures
            final(self).resource() == old(self).resource(),
            final(self).peer() == old(self).peer(),
            (r matches Ok(a) ==> a == final(self).peer()),
    ;

    /// Opens a connection to `host:port` from the client side.
    fn connect(host: &str, port: u16) -> (r: Result<Self, ConnectError>)
        ensures
            (r matches Ok(s) ==> s.peer().port == port),
    ;

    /// Duplicates the handle.  The duplicate shares the underlying
    /// connection; it is not a new connection.
    fn dup(&self) -> (r: Self)
        ensures
            r.resource() == self.resource(),
            r.peer() == self.peer(),
    ;
}

/// An active endpoint that yields new connections.
pub trait NetworkAcceptor<S: NetworkStream>: Sized {
    /// The identity of the underlying listening resource.
    open spec fn resource(&self) -> int {
        arbitrary()
    }

    /// Whether this handle has observed the acceptor as closed.  Once true it
    /// stays true: closing is permanent.
    open spec fn closed(&self) -> bool {
        arbitrary()
    }

    /// Waits for the next connection.  After `close`, every call reports
    /// `AcceptError::Closed`, never a transient error.
    fn accept(&mut self) -> (r: Result<S, AcceptError>)
        ensures
            final(self).resource() == old(self).resource(),
            final(self).closed() == old(self).closed(),
            (old(self).closed() ==> r == Result::<S, AcceptError>::Err(AcceptError::Closed)),
    ;

    /// Closes the acceptor: idempotent, and current and future `accept`
    /// calls on any handle to the same resource report `Closed`.  Streams
    /// already accepted are not affected.
    fn close(&mut self) -> (r: Result<(), IoError>)
        ensures
            final(self).resource() == old(self).resource(),
            (r matches Ok(u) ==> final(self).closed()),
            (old(self).closed() ==> final(self).closed()),
    ;

    /// Duplicates the handle.  The duplicate shares the underlying listening
    /// resource, so closing through one handle closes them all.
    fn dup(&self) -> (r: Self)
        ensures
            r.resource() == self.resource(),
            r.closed() == self.closed(),
    ;
}

/// A reserved, not-yet-active endpoint.
pub trait NetworkListener<S: NetworkStream, A: NetworkAcceptor<S>>: Sized {
    /// The local address the listener is bound to.
    open spec fn local(&self) -> SocketAddr {
        arbitrary()
    }

    /// The port the caller asked for at `bind`; 0 asked for an ephemeral
    /// port.
    open spec fn requested_port(&self) -> u16 {
        arbitrary()
    }

    /// Reserves `host:port`.  This does not start accepting connections:
    /// `listen` does.  A successful bind holds the requested port, or a
    /// nonzero ephemeral port when 0 was requested.
    fn bind(host: &str, port: u16) -> (r: Result<Self, BindError>)
        ensures
            (r matches Ok(l) ==> l.requested_port() == port),
            (r matches Ok(l) ==> port != 0 ==> l.local().port == port),
            (r matches Ok(l) ==> l.local().port != 0),
    ;

    /// Reports the address actually bound, which carries the assigned port
    /// when an ephemeral one was requested.
    fn socket_name(&mut self) -> (r: Result<SocketAddr, IoError>)
        ensures
            final(self).local() == old(self).local(),
            final(self).requested_port() == old(self).requested_port(),
            (r matches Ok(a) ==> a == final(self).local()),
    ;

    /// Consumes the listener and starts accepting connections on its
    /// address.  The acceptor starts out open.
    fn listen(self) -> (r: Result<A, ListenError>)
        ensures
            (r matches Ok(a) ==> !a.closed()),
    ;
}

} // verus!
