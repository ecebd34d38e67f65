//! An in-memory transport: the verified reference model of the capability
//! contracts.
//!
//! One `MemNet` value is a whole private network.  Listeners, acceptors and
//! connections live in the registry; the handles (`MemListener`,
//! `MemAcceptor`, `MemStream`) carry only the index of their resource, so a
//! duplicated handle refers — provably — to the very same resource, never to
//! a copy of it.  Every operation is a method on `MemNet` and takes the
//! handle as an argument; real transports hide the registry behind the
//! platform, this one keeps it as data so its behaviour can be stated and
//! proved exactly.
//!
//! Endpoints of the in-memory network are all local: a connecting client
//! gets the loopback address and a fresh ephemeral port.

use vstd::prelude::*;
use vstd::assert_seqs_equal;
use crate::addr::{IpAddr, SocketAddr, spec_loopback};
use crate::error::{AcceptError, BindError, ConnectError, IoError, ListenError};

verus! {

/// The first port of the ephemeral range the model assigns from.
pub const FIRST_EPHEMERAL_PORT: u16 = 49152;

/// The lowest port that may be bound without privilege.
pub const FIRST_UNPRIVILEGED_PORT: u16 = 1024;

/// The registry entry of a listener: its bound address, the port the caller
/// asked for (0 for an ephemeral one), and whether `listen` consumed it.
#[derive(Clone, Copy, PartialEq, Eq, Structural, Debug)]
pub struct ListenerEntry {
    pub addr: SocketAddr,
    pub requested: u16,
    pub consumed: bool,
}

/// The registry entry of an acceptor: its address and whether it was closed.
#[derive(Clone, Copy, PartialEq, Eq, Structural, Debug)]
pub struct AcceptorEntry {
    pub addr: SocketAddr,
    pub closed: bool,
}

/// The two fixed endpoints of a connection.
#[derive(Clone, Copy, PartialEq, Eq, Structural, Debug)]
pub struct ConnEntry {
    pub client: SocketAddr,
    pub server: SocketAddr,
}

/// Which end of a connection a stream handle is.
#[derive(Clone, Copy, PartialEq, Eq, Structural, Debug)]
pub enum End {
    Client,
    Server,
}

/// A handle to a bound, not yet listening endpoint.  Deliberately not
/// duplicable: `listen` consumes the reservation.
#[derive(PartialEq, Eq, Structural, Debug)]
pub struct MemListener {
    pub id: usize,
}

/// A handle to an active accepting endpoint.  Duplicates carry the same
/// index, so they share the underlying resource.
#[derive(Clone, Copy, PartialEq, Eq, Structural, Debug)]
pub struct MemAcceptor {
    pub id: usize,
}

/// A handle to one end of a connection.  Duplicates carry the same index and
/// end, so they share the underlying connection.
#[derive(Clone, Copy, PartialEq, Eq, Structural, Debug)]
pub struct MemStream {
    pub id: usize,
    pub end: End,
}

/// The index of the first open acceptor at address `a`, scanning from `i`;
/// -1 when there is none.
pub open spec fn first_open_from(accs: Seq<AcceptorEntry>, a: SocketAddr, i: int) -> int
    decreases accs.len() - i when 0 <= i <= accs.len()
{
    if i >= accs.len() {
        -1
    } else if !accs[i].closed && accs[i].addr == a {
        i
    } else {
        first_open_from(accs, a, i + 1)
    }
}

/// The other end of the same connection.
pub open spec fn peer_of(s: MemStream) -> MemStream {
    match s.end {
        End::Client => (MemStream { id: s.id, end: End::Server }),
        End::Server => (MemStream { id: s.id, end: End::Client }),
    }
}

/// A whole in-memory network: the registries of listeners, acceptors and
/// connections.  `backlog[i]` holds the ids of connections waiting at
/// acceptor `i`; `to_server[c]`/`to_client[c]` are the two byte buffers of
/// connection `c`.
pub struct MemNet {
    pub listeners: Vec<ListenerEntry>,
    pub acceptors: Vec<AcceptorEntry>,
    pub backlog: Vec<Vec<usize>>,
    pub conns: Vec<ConnEntry>,
    pub to_server: Vec<Vec<u8>>,
    pub to_client: Vec<Vec<u8>>,
    pub next_port: u16,
}

impl MemNet {
    /// Well-formedness of the registry: the parallel vectors agree in
    /// length, every queued connection id is a real connection, every bound
    /// port is nonzero and matches a nonzero request, and the ephemeral
    /// counter never leaves its range.
    pub open spec fn wf(&self) -> bool {
        &&& self.backlog@.len() == self.acceptors@.len()
        &&& self.to_server@.len() == self.conns@.len()
        &&& self.to_client@.len() == self.conns@.len()
        &&& self.next_port >= FIRST_EPHEMERAL_PORT
        &&& forall|i: int| 0 <= i < self.listeners@.len()
                ==> (#[trigger] self.listeners@[i]).addr.port != 0
        &&& forall|i: int| 0 <= i < self.listeners@.len()
                ==> ((#[trigger] self.listeners@[i]).requested != 0
                    ==> self.listeners@[i].addr.port == self.listeners@[i].requested)
        &&& forall|i: int| 0 <= i < self.acceptors@.len()
                ==> (#[trigger] self.acceptors@[i]).addr.port != 0
        &&& forall|i: int, k: int|
                0 <= i < self.backlog@.len() && 0 <= k < self.backlog@[i]@.len()
                ==> (#[trigger] self.backlog@[i]@[k]) < self.conns@.len()
    }

    /// The handle refers to a listener of this network.
    pub open spec fn listener_ok(&self, l: MemListener) -> bool {
        l.id < self.listeners@.len()
    }

    /// The handle refers to an acceptor of this network.
    pub open spec fn acceptor_ok(&self, a: MemAcceptor) -> bool {
        a.id < self.acceptors@.len()
    }

    /// The handle refers to a connection of this network.
    pub open spec fn stream_ok(&self, s: MemStream) -> bool {
        s.id < self.conns@.len()
    }

    /// The address a listener is bound to.
    pub open spec fn listener_addr(&self, l: MemListener) -> SocketAddr {
        self.listeners@[l.id as int].addr
    }

    /// The port that was requested when the listener was bound.
    pub open spec fn listener_requested(&self, l: MemListener) -> u16 {
        self.listeners@[l.id as int].requested
    }

    /// Whether `listen` already consumed the listener.
    pub open spec fn listener_consumed(&self, l: MemListener) -> bool {
        self.listeners@[l.id as int].consumed
    }

    /// The address an acceptor listens on.
    pub open spec fn acceptor_addr(&self, a: MemAcceptor) -> SocketAddr {
        self.acceptors@[a.id as int].addr
    }

    /// Whether the acceptor was closed.  A property of the underlying
    /// resource: every duplicate handle observes the same value.
    pub open spec fn acceptor_closed(&self, a: MemAcceptor) -> bool {
        self.acceptors@[a.id as int].closed
    }

    /// The ids of the connections waiting at an acceptor, oldest first.
    pub open spec fn pending(&self, a: MemAcceptor) -> Seq<usize> {
        self.backlog@[a.id as int]@
    }

    /// The address of the remote end of a stream.
    pub open spec fn stream_peer(&self, s: MemStream) -> SocketAddr {
        match s.end {
            End::Client => self.conns@[s.id as int].server,
            End::Server => self.conns@[s.id as int].client,
        }
    }

    /// The bytes waiting to be read by the holder of `s`: what the peer
    /// wrote and `s` has not read yet.
    pub open spec fn incoming(&self, s: MemStream) -> Seq<u8> {
        match s.end {
            End::Client => self.to_client@[s.id as int]@,
            End::Server => self.to_server@[s.id as int]@,
        }
    }

    /// A live endpoint (an unconsumed listener or an open acceptor) holds
    /// this address.
    pub open spec fn addr_in_use(&self, a: SocketAddr) -> bool {
        ||| exists|i: int| 0 <= i < self.listeners@.len()
                && !(#[trigger] self.listeners@[i]).consumed && self.listeners@[i].addr == a
        ||| exists|i: int| 0 <= i < self.acceptors@.len()
                && !(#[trigger] self.acceptors@[i]).closed && self.acceptors@[i].addr == a
    }

    /// Builds an empty network: nothing bound, nothing connected.
    pub fn new() -> (r: MemNet)
        ensures
            r.wf(),
            r.listeners@.len() == 0,
            r.acceptors@.len() == 0,
            r.conns@.len() == 0,
            r.next_port == FIRST_EPHEMERAL_PORT,
    {
        MemNet {
            listeners: Vec::new(),
            acceptors: Vec::new(),
            backlog: Vec::new(),
            conns: Vec::new(),
            to_server: Vec::new(),
            to_client: Vec::new(),
            next_port: FIRST_EPHEMERAL_PORT,
        }
    }

    /// Reports the address a listener was bound to; with a requested port of
    /// 0 this is where the assigned ephemeral port is read back.
    pub fn socket_name(&self, l: &MemListener) -> (r: Result<SocketAddr, IoError>)
        requires
            self.listener_ok(*l),
        ensures
            r == Result::<SocketAddr, IoError>::Ok(self.listener_addr(*l)),
    {
        Ok(self.listeners[l.id].addr)
    }

    /// Reports the address of the remote end of a stream.
    pub fn peer_name(&self, s: &MemStream) -> (r: Result<SocketAddr, IoError>)
        requires
            self.stream_ok(*s),
        ensures
            r == Result::<SocketAddr, IoError>::Ok(self.stream_peer(*s)),
    {
        let conn = self.conns[s.id];
        match s.end {
            End::Client => Ok(conn.server),
            End::Server => Ok(conn.client),
        }
    }

    /// Decides whether a live endpoint holds `a` right now, by scanning the
    /// registry.
    fn addr_is_in_use(&self, a: SocketAddr) -> (r: bool)
        ensures
            r == self.addr_in_use(a),
    {
        let mut i: usize = 0;
        while i < self.listeners.len()
            invariant
                i <= self.listeners@.len(),
                forall|k: int| 0 <= k < i
                    ==> !(!(#[trigger] self.listeners@[k]).consumed && self.listeners@[k].addr == a),
            decreases self.listeners@.len() - i,
        {
            let entry = self.listeners[i];
            if !entry.consumed && entry.addr == a {
                return true;
            }
            i = i + 1;
        }
        let mut j: usize = 0;
        while j < self.acceptors.len()
            invariant
                j <= self.acceptors@.len(),
                forall|k: int| 0 <= k < self.listeners@.len()
                    ==> !(!(#[trigger] self.listeners@[k]).consumed && self.listeners@[k].addr == a),
                forall|k: int| 0 <= k < j
                    ==> !(!(#[trigger] self.acceptors@[k]).closed && self.acceptors@[k].addr == a),
            decreases self.acceptors@.len() - j,
        {
            let entry = self.acceptors[j];
            if !entry.closed && entry.addr == a {
                return true;
            }
            j = j + 1;
        }
        false
    }

    /// Reserves `ip:port` on this network.  A broadcast address cannot be
    /// bound, a nonzero port under 1024 needs privilege this model never
    /// grants, and an address a live endpoint holds is in use.  Requesting
    /// port 0 asks for the next ephemeral port; that fails as in-use when the
    /// ephemeral range is exhausted or the candidate port is taken.  Binding
    /// does not start accepting connections: `listen` does.
    pub fn bind(&mut self, ip: IpAddr, port: u16) -> (r: Result<MemListener, BindError>)
        requires
            old(self).wf(),
        ensures
            final(self).wf(),
            final(self).acceptors@ == old(self).acceptors@,
            final(self).backlog@ == old(self).backlog@,
            final(self).conns@ == old(self).conns@,
            final(self).to_server@ == old(self).to_server@,
            final(self).to_client@ == old(self).to_client@,
            (ip == IpAddr::V4(255, 255, 255, 255)
                ==> r == Result::<MemListener, BindError>::Err(BindError::InvalidAddress)),
            (ip != IpAddr::V4(255, 255, 255, 255) && port != 0 && port < FIRST_UNPRIVILEGED_PORT
                ==> r == Result::<MemListener, BindError>::Err(BindError::PermissionDenied)),
            (ip != IpAddr::V4(255, 255, 255, 255) && port >= FIRST_UNPRIVILEGED_PORT
                && old(self).addr_in_use(SocketAddr { ip, port })
                ==> r == Result::<MemListener, BindError>::Err(BindError::AddressInUse)),
            (ip != IpAddr::V4(255, 255, 255, 255) && port == 0
                && (old(self).next_port == u16::MAX
                    || old(self).addr_in_use(SocketAddr { ip, port: old(self).next_port }))
                ==> r == Result::<MemListener, BindError>::Err(BindError::AddressInUse)),
            (ip != IpAddr::V4(255, 255, 255, 255) && port >= FIRST_UNPRIVILEGED_PORT
                && !old(self).addr_in_use(SocketAddr { ip, port })
                ==> r matches Ok(l)),
            (ip != IpAddr::V4(255, 255, 255, 255) && port == 0
                && old(self).next_port != u16::MAX
                && !old(self).addr_in_use(SocketAddr { ip, port: old(self).next_port })
                ==> r matches Ok(l)),
            (r matches Err(e) ==> *final(self) == *old(self)),
            (r matches Ok(l) ==> {
                let bound = if port != 0 { port } else { old(self).next_port };
                &&& ip != IpAddr::V4(255, 255, 255, 255)
                &&& !old(self).addr_in_use(SocketAddr { ip, port: bound })
                &&& l.id == old(self).listeners@.len()
                &&& final(self).listeners@ == old(self).listeners@.push(
                    ListenerEntry {
                        addr: SocketAddr { ip, port: bound },
                        requested: port,
                        consumed: false,
                    })
                &&& final(self).listener_ok(l)
                &&& final(self).listener_addr(l) == (SocketAddr { ip, port: bound })
                &&& final(self).listener_requested(l) == port
                &&& !final(self).listener_consumed(l)
                &&& final(self).next_port
                    == if port != 0 { old(self).next_port } else { (old(self).next_port + 1) as u16 }
            }),
            (port != 0 ==> final(self).next_port == old(self).next_port),
    {
        if ip == IpAddr::V4(255, 255, 255, 255) {
            return Err(BindError::InvalidAddress);
        }
        let bound: u16;
        if port != 0 {
            if port < FIRST_UNPRIVILEGED_PORT {
                return Err(BindError::PermissionDenied);
            }
            bound = port;
        } else {
            if self.next_port == u16::MAX {
                return Err(BindError::AddressInUse);
            }
            bound = self.next_port;
        }
        let addr = SocketAddr { ip, port: bound };
        if self.addr_is_in_use(addr) {
            return Err(BindError::AddressInUse);
        }
        if port == 0 {
            self.next_port = self.next_port + 1;
        }
        let id = self.listeners.len();
        self.listeners.push(ListenerEntry { addr, requested: port, consumed: false });
        Ok(MemListener { id })
    }

    /// Consumes the reservation and starts accepting connections on its
    /// address: a fresh, open acceptor with an empty backlog.  A listener
    /// that was consumed before cannot transition again.
    pub fn listen(&mut self, l: MemListener) -> (r: Result<MemAcceptor, ListenError>)
        requires
            old(self).wf(),
            old(self).listener_ok(l),
        ensures
            final(self).wf(),
            final(self).conns@ == old(self).conns@,
            final(self).to_server@ == old(self).to_server@,
            final(self).to_client@ == old(self).to_client@,
            final(self).next_port == old(self).next_port,
            (old(self).listener_consumed(l)
                ==> r == Result::<MemAcceptor, ListenError>::Err(ListenError::Unavailable)
                    && *final(self) == *old(self)),
            (!old(self).listener_consumed(l) ==> {
                let entry = old(self).listeners@[l.id as int];
                &&& r matches Ok(a)
                &&& (r matches Ok(a) ==> {
                    &&& a.id == old(self).acceptors@.len()
                    &&& final(self).acceptor_ok(a)
                    &&& final(self).acceptors@ == old(self).acceptors@.push(
                        AcceptorEntry { addr: entry.addr, closed: false })
                    &&& final(self).acceptor_addr(a) == old(self).listener_addr(l)
                    &&& !final(self).acceptor_closed(a)
                    &&& final(self).pending(a) == Seq::<usize>::empty()
                    &&& final(self).backlog@.len() == old(self).backlog@.len() + 1
                    &&& forall|i: int| 0 <= i < old(self).backlog@.len()
                        ==> (#[trigger] final(self).backlog@[i])@ == old(self).backlog@[i]@
                    &&& final(self).listeners@ == old(self).listeners@.update(
                        l.id as int,
                        ListenerEntry { addr: entry.addr, requested: entry.requested, consumed: true })
                })
            }),
    {
        let entry = self.listeners[l.id];
        if entry.consumed {
            return Err(ListenError::Unavailable);
        }
        replace_at(
            &mut self.listeners,
            l.id,
            ListenerEntry { addr: entry.addr, requested: entry.requested, consumed: true },
        );
        let id = self.acceptors.len();
        self.acceptors.push(AcceptorEntry { addr: entry.addr, closed: false });
        self.backlog.push(Vec::new());
        Ok(MemAcceptor { id })
    }

    /// Closes the acceptor's underlying resource.  Idempotent; every handle
    /// that indexes this acceptor observes it closed afterwards, and streams
    /// already accepted (the connections) are untouched.
    pub fn close(&mut self, a: &MemAcceptor) -> (r: Result<(), IoError>)
        requires
            old(self).wf(),
            old(self).acceptor_ok(*a),
        ensures
            final(self).wf(),
            r == Result::<(), IoError>::Ok(()),
            final(self).listeners@ == old(self).listeners@,
            final(self).backlog@ == old(self).backlog@,
            final(self).conns@ == old(self).conns@,
            final(self).to_server@ == old(self).to_server@,
            final(self).to_client@ == old(self).to_client@,
            final(self).next_port == old(self).next_port,
            final(self).acceptors@ == old(self).acceptors@.update(
                a.id as int,
                AcceptorEntry { addr: old(self).acceptor_addr(*a), closed: true }),
            forall|d: MemAcceptor| d.id == a.id ==> #[trigger] final(self).acceptor_closed(d),
            forall|d: MemAcceptor| d.id != a.id && old(self).acceptor_ok(d)
                ==> #[trigger] final(self).acceptor_closed(d) == old(self).acceptor_closed(d),
    {
        let entry = self.acceptors[a.id];
        replace_at(&mut self.acceptors, a.id, AcceptorEntry { addr: entry.addr, closed: true });
        Ok(())
    }

    /// The acceptor that answers a connection attempt to `a`: the first open
    /// one at that address, or -1 when nothing is listening there.
    pub open spec fn first_open_acceptor(&self, a: SocketAddr) -> int {
        first_open_from(self.acceptors@, a, 0)
    }

    /// Opens a connection to `ip:port` from the client side.  The attempt is
    /// refused unless some open acceptor listens at exactly that address;
    /// with no ephemeral port left for the client the remote end is out of
    /// reach.  On success a fresh connection with empty buffers is queued at
    /// that acceptor, and the client's end of it is returned; the client
    /// gets the loopback address and the next ephemeral port.
    pub fn connect(&mut self, ip: IpAddr, port: u16) -> (r: Result<MemStream, ConnectError>)
        requires
            old(self).wf(),
        ensures
            final(self).wf(),
            final(self).listeners@ == old(self).listeners@,
            final(self).acceptors@ == old(self).acceptors@,
            (old(self).next_port == u16::MAX
                ==> r == Result::<MemStream, ConnectError>::Err(ConnectError::Unreachable)),
            (old(self).next_port != u16::MAX
                && old(self).first_open_acceptor(SocketAddr { ip, port }) == -1
                ==> r == Result::<MemStream, ConnectError>::Err(ConnectError::Refused)),
            (old(self).next_port != u16::MAX
                && old(self).first_open_acceptor(SocketAddr { ip, port }) != -1
                ==> r matches Ok(s)),
            (r matches Err(e) ==> *final(self) == *old(self)),
            (r matches Ok(s) ==> {
                let target = SocketAddr { ip, port };
                let client = SocketAddr { ip: spec_loopback(), port: old(self).next_port };
                let j = old(self).first_open_acceptor(target);
                &&& old(self).next_port < u16::MAX
                &&& 0 <= j < old(self).acceptors@.len()
                &&& s.id == old(self).conns@.len()
                &&& s.end == End::Client
                &&& final(self).stream_ok(s)
                &&& final(self).conns@ == old(self).conns@.push(
                    ConnEntry { client, server: target })
                &&& final(self).stream_peer(s) == target
                &&& final(self).stream_peer(peer_of(s)) == client
                &&& final(self).incoming(s) == Seq::<u8>::empty()
                &&& final(self).incoming(peer_of(s)) == Seq::<u8>::empty()
                &&& final(self).next_port == old(self).next_port + 1
                &&& final(self).backlog@.len() == old(self).backlog@.len()
                &&& final(self).backlog@[j]@ == old(self).backlog@[j]@.push(s.id)
                &&& forall|i: int| 0 <= i < old(self).backlog@.len() && i != j
                    ==> (#[trigger] final(self).backlog@[i])@ == old(self).backlog@[i]@
            }),
    {
        if self.next_port == u16::MAX {
            return Err(ConnectError::Unreachable);
        }
        let target = SocketAddr { ip, port };
        let n = self.acceptors.len();
        let mut j: usize = 0;
        let mut found: usize = n;
        while j < n && found == n
            invariant
                j <= n,
                found <= n,
                n == self.acceptors@.len(),
                (found == n ==> self.first_open_acceptor(target)
                    == first_open_from(self.acceptors@, target, j as int)),
                (found < n ==> self.first_open_acceptor(target) == found as int),
            decreases n - j, (if found == n { 1int } else { 0int }),
        {
            let entry = self.acceptors[j];
            if !entry.closed && entry.addr == target {
                proof {
                    assert(first_open_from(self.acceptors@, target, j as int) == j as int);
                }
                found = j;
            } else {
                proof {
                    assert(first_open_from(self.acceptors@, target, j as int)
                        == first_open_from(self.acceptors@, target, j as int + 1));
                }
                j = j + 1;
            }
        }
        if found == n {
            proof {
                assert(first_open_from(self.acceptors@, target, n as int) == -1);
            }
            return Err(ConnectError::Refused);
        }
        let client = SocketAddr { ip: crate::addr::loopback(), port: self.next_port };
        self.next_port = self.next_port + 1;
        let cid = self.conns.len();
        self.conns.push(ConnEntry { client, server: target });
        self.to_server.push(Vec::new());
        self.to_client.push(Vec::new());
        let queue = push_id(&self.backlog[found], cid);
        replace_at(&mut self.backlog, found, queue);
        Ok(MemStream { id: cid, end: End::Client })
    }

    /// Takes the oldest waiting connection of the acceptor and returns its
    /// server end.  A closed acceptor reports `Closed` — permanently, on
    /// every handle to it — and an open one with nothing waiting reports
    /// `WouldBlock`, the transient condition a caller retries on.
    pub fn accept(&mut self, a: &MemAcceptor) -> (r: Result<MemStream, AcceptError>)
        requires
            old(self).wf(),
            old(self).acceptor_ok(*a),
        ensures
            final(self).wf(),
            final(self).listeners@ == old(self).listeners@,
            final(self).acceptors@ == old(self).acceptors@,
            final(self).conns@ == old(self).conns@,
            final(self).to_server@ == old(self).to_server@,
            final(self).to_client@ == old(self).to_client@,
            final(self).next_port == old(self).next_port,
            (old(self).acceptor_closed(*a)
                ==> r == Result::<MemStream, AcceptError>::Err(AcceptError::Closed)
                    && *final(self) == *old(self)),
            (!old(self).acceptor_closed(*a) && old(self).pending(*a).len() == 0
                ==> r == Result::<MemStream, AcceptError>::Err(AcceptError::WouldBlock)
                    && *final(self) == *old(self)),
            (!old(self).acceptor_closed(*a) && old(self).pending(*a).len() > 0 ==> {
                &&& r matches Ok(s)
                &&& (r matches Ok(s) ==> {
                    &&& s.id == old(self).pending(*a)[0]
                    &&& s.end == End::Server
                    &&& final(self).stream_ok(s)
                    &&& final(self).pending(*a) == old(self).pending(*a).skip(1)
                    &&& final(self).backlog@.len() == old(self).backlog@.len()
                    &&& forall|i: int| 0 <= i < old(self).backlog@.len() && i != a.id
                        ==> (#[trigger] final(self).backlog@[i])@ == old(self).backlog@[i]@
                })
            }),
    {
        let entry = self.acceptors[a.id];
        if entry.closed {
            return Err(AcceptError::Closed);
        }
        if self.backlog[a.id].len() == 0 {
            return Err(AcceptError::WouldBlock);
        }
        let (first, rest) = behead_ids(&self.backlog[a.id]);
        replace_at(&mut self.backlog, a.id, rest);
        Ok(MemStream { id: first, end: End::Server })
    }

    /// Writes all of `data` through the handle: the bytes are appended to
    /// what the peer end will read.  The handle's own incoming bytes, every
    /// other connection, and the rest of the network are untouched — the
    /// effect depends only on the connection and end the handle indexes,
    /// never on which duplicate made the call.
    pub fn write(&mut self, s: &MemStream, data: &[u8]) -> (r: Result<(), IoError>)
        requires
            old(self).wf(),
            old(self).stream_ok(*s),
        ensures
            final(self).wf(),
            r == Result::<(), IoError>::Ok(()),
            final(self).listeners@ == old(self).listeners@,
            final(self).acceptors@ == old(self).acceptors@,
            final(self).backlog@ == old(self).backlog@,
            final(self).conns@ == old(self).conns@,
            final(self).next_port == old(self).next_port,
            final(self).incoming(peer_of(*s)) == old(self).incoming(peer_of(*s)) + data@,
            final(self).incoming(*s) == old(self).incoming(*s),
            forall|t: MemStream| t.id != s.id && old(self).stream_ok(t)
                ==> #[trigger] final(self).incoming(t) == old(self).incoming(t),
    {
        let buf = match s.end {
            End::Client => concat_bytes(&self.to_server[s.id], data),
            End::Server => concat_bytes(&self.to_client[s.id], data),
        };
        match s.end {
            End::Client => replace_at(&mut self.to_server, s.id, buf),
            End::Server => replace_at(&mut self.to_client, s.id, buf),
        }
        Ok(())
    }

    /// Reads at most `max` bytes through the handle: the longest available
    /// prefix of the incoming bytes, which are consumed.  An empty result
    /// means nothing was available.  Everything else is untouched, and as
    /// with `write` the effect depends only on the connection and end.
    pub fn read(&mut self, s: &MemStream, max: usize) -> (r: Result<Vec<u8>, IoError>)
        requires
            old(self).wf(),
            old(self).stream_ok(*s),
        ensures
            final(self).wf(),
            final(self).listeners@ == old(self).listeners@,
            final(self).acceptors@ == old(self).acceptors@,
            final(self).backlog@ == old(self).backlog@,
            final(self).conns@ == old(self).conns@,
            final(self).next_port == old(self).next_port,
            ({
                let k = vstd::math::min(max as int, old(self).incoming(*s).len() as int);
                &&& r matches Ok(bytes)
                &&& (r matches Ok(bytes) ==> bytes@ == old(self).incoming(*s).take(k))
                &&& final(self).incoming(*s) == old(self).incoming(*s).skip(k)
            }),
            final(self).incoming(peer_of(*s)) == old(self).incoming(peer_of(*s)),
            forall|t: MemStream| t.id != s.id && old(self).stream_ok(t)
                ==> #[trigger] final(self).incoming(t) == old(self).incoming(t),
    {
        let avail = match s.end {
            End::Client => self.to_client[s.id].len(),
            End::Server => self.to_server[s.id].len(),
        };
        let k = if max < avail { max } else { avail };
        match s.end {
            End::Client => {
                let (front, rest) = split_buf(&self.to_client[s.id], k);
                replace_at(&mut self.to_client, s.id, rest);
                Ok(front)
            }
            End::Server => {
                let (front, rest) = split_buf(&self.to_server[s.id], k);
                replace_at(&mut self.to_server, s.id, rest);
                Ok(front)
            }
        }
    }

    /// Flushing is a no-op here: the buffers of the model are always
    /// current.
    pub fn flush(&self, s: &MemStream) -> (r: Result<(), IoError>)
        requires
            self.stream_ok(*s),
        ensures
            r == Result::<(), IoError>::Ok(()),
    {
        Ok(())
    }
}

impl MemAcceptor {
    /// Duplicates the handle.  The duplicate is indistinguishable from the
    /// original: it indexes the same acceptor resource.
    pub fn dup(&self) -> (r: MemAcceptor)
        ensures
            r == *self,
    {
        MemAcceptor { id: self.id }
    }
}

impl MemStream {
    /// Duplicates the handle.  The duplicate is indistinguishable from the
    /// original: it indexes the same connection, at the same end.
    pub fn dup(&self) -> (r: MemStream)
        ensures
            r == *self,
    {
        MemStream { id: self.id, end: self.end }
    }
}

/// Law: the address a listener reports carries the port that was requested
/// at `bind`, or a nonzero ephemeral port when 0 was requested.  With
/// `socket_name` returning exactly the listener's address and `listen`
/// handing that address on to the acceptor, the port read back is always the
/// one asked for, or a real ephemeral one.
pub proof fn lemma_reported_port_matches_request(net: MemNet, l: MemListener)
    requires
        net.wf(),
        net.listener_ok(l),
    ensures
        net.listener_requested(l) != 0
            ==> net.listener_addr(l).port == net.listener_requested(l),
        net.listener_addr(l).port != 0,
{
}

/// Law: for an accepted stream — the server end of a connection — the
/// reported peer is the address of the connecting client, as recorded when
/// the connection was made.
pub proof fn lemma_peer_name_reports_client(net: MemNet, s: MemStream)
    requires
        s.end == End::Server,
    ensures
        net.stream_peer(s) == net.conns@[s.id as int].client,
{
}

/// Law: duplicating a stream handle shares the connection, it does not copy
/// it.  Any two handles to the same end of the same connection have the same
/// peer, the same incoming bytes and the same peer handle; since `write`'s
/// contract depends only on the connection and end a handle indexes, a write
/// through a duplicate is exactly a write through the original, observable
/// by reading at the connected peer.
pub proof fn lemma_duplicates_share_connection(net: MemNet, s: MemStream, d: MemStream)
    requires
        d.id == s.id,
        d.end == s.end,
    ensures
        peer_of(d) == peer_of(s),
        net.incoming(d) == net.incoming(s),
        net.stream_peer(d) == net.stream_peer(s),
{
}

/// Law: closing an acceptor closes it for every handle that indexes it, the
/// original or any duplicate; by `accept`'s contract each of them then
/// reports `Closed` — the permanent variant, never the transient one.
pub proof fn lemma_closed_for_all_duplicates(net: MemNet, a: MemAcceptor, d: MemAcceptor)
    requires
        d.id == a.id,
    ensures
        net.acceptor_closed(d) == net.acceptor_closed(a),
{
}

/// Replaces the element at `i`, leaving every other element in place.
fn replace_at<T>(v: &mut Vec<T>, i: usize, x: T)
    requires
        i < old(v)@.len(),
    ensures
        final(v)@ == old(v)@.update(i as int, x),
{
    let _gone = v.remove(i);
    v.insert(i, x);
    proof {
        assert_seqs_equal!(v@ == old(v)@.update(i as int, x));
    }
}

/// Returns `a` with `b` appended.
fn concat_bytes(a: &Vec<u8>, b: &[u8]) -> (r: Vec<u8>)
    ensures
        r@ == a@ + b@,
{
    let mut r: Vec<u8> = Vec::new();
    let mut i: usize = 0;
    while i < a.len()
        invariant
            i <= a@.len(),
            r@ == a@.take(i as int),
        decreases a@.len() - i,
    {
        r.push(a[i]);
        i = i + 1;
        proof {
            assert_seqs_equal!(r@ == a@.take(i as int));
        }
    }
    let mut j: usize = 0;
    while j < b.len()
        invariant
            j <= b@.len(),
            r@ == a@ + b@.take(j as int),
        decreases b@.len() - j,
    {
        r.push(b[j]);
        j = j + 1;
        proof {
            assert_seqs_equal!(r@ == a@ + b@.take(j as int));
        }
    }
    proof {
        assert_seqs_equal!(r@ == a@ + b@);
    }
    r
}

/// Returns `v` with `x` appended.
fn push_id(v: &Vec<usize>, x: usize) -> (r: Vec<usize>)
    ensures
        r@ == v@.push(x),
{
    let mut r: Vec<usize> = Vec::new();
    let mut i: usize = 0;
    while i < v.len()
        invariant
            i <= v@.len(),
            r@ == v@.take(i as int),
        decreases v@.len() - i,
    {
        r.push(v[i]);
        i = i + 1;
        proof {
            assert_seqs_equal!(r@ == v@.take(i as int));
        }
    }
    r.push(x);
    proof {
        assert_seqs_equal!(r@ == v@.push(x));
    }
    r
}

/// Splits off the first element: returns it and the rest as a new vector.
fn behead_ids(v: &Vec<usize>) -> (r: (usize, Vec<usize>))
    requires
        v@.len() > 0,
    ensures
        r.0 == v@[0],
        r.1@ == v@.skip(1),
{
    let first = v[0];
    let mut rest: Vec<usize> = Vec::new();
    let mut i: usize = 1;
    while i < v.len()
        invariant
            1 <= i <= v@.len(),
            rest@ == v@.subrange(1, i as int),
        decreases v@.len() - i,
    {
        rest.push(v[i]);
        i = i + 1;
        proof {
            assert_seqs_equal!(rest@ == v@.subrange(1, i as int));
        }
    }
    proof {
        assert_seqs_equal!(rest@ == v@.skip(1));
    }
    (first, rest)
}

/// Splits a buffer at `k`: the first `k` bytes and the rest, as new vectors.
fn split_buf(buf: &Vec<u8>, k: usize) -> (r: (Vec<u8>, Vec<u8>))
    requires
        k <= buf@.len(),
    ensures
        r.0@ == buf@.take(k as int),
        r.1@ == buf@.skip(k as int),
{
    let mut front: Vec<u8> = Vec::new();
    let mut i: usize = 0;
    while i < k
        invariant
            i <= k <= buf@.len(),
            front@ == buf@.take(i as int),
        decreases k - i,
    {
        front.push(buf[i]);
        i = i + 1;
        proof {
            assert_seqs_equal!(front@ == buf@.take(i as int));
        }
    }
    let mut rest: Vec<u8> = Vec::new();
    let mut j: usize = k;
    while j < buf.len()
        invariant
            k <= j <= buf@.len(),
            rest@ == buf@.subrange(k as int, j as int),
        decreases buf@.len() - j,
    {
        rest.push(buf[j]);
        j = j + 1;
        proof {
            assert_seqs_equal!(rest@ == buf@.subrange(k as int, j as int));
        }
    }
    proof {
        assert_seqs_equal!(rest@ == buf@.skip(k as int));
    }
    (front, rest)
}

} // verus!

