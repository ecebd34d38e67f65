//! Runtime checks of the in-memory transport against its contracts.

use netcap::addr::{IpAddr, SocketAddr};
use netcap::error::{AcceptError, BindError, ConnectError, ListenError};
use netcap::mem::{MemListener, MemNet};

fn loopback() -> IpAddr {
    IpAddr::V4(127, 0, 0, 1)
}

#[test]
fn ephemeral_bind_listen_connect_roundtrip() {
    let mut net = MemNet::new();
    let listener = net.bind(loopback(), 0).unwrap();
    let name = net.socket_name(&listener).unwrap();
    assert_eq!(name.ip, loopback());
    assert_ne!(name.port, 0);
    assert_eq!(name.port, 49152);
    let acceptor = net.listen(listener).unwrap();
    let client = net.connect(loopback(), name.port).unwrap();
    let server = net.accept(&acceptor).unwrap();
    net.write(&client, b"ping").unwrap();
    let got = net.read(&server, 4).unwrap();
    assert_eq!(got.len(), 4);
    assert_eq!(got, b"ping".to_vec());
}

#[test]
fn fixed_port_bind_reports_requested_port() {
    let mut net = MemNet::new();
    let listener = net.bind(loopback(), 8080).unwrap();
    let name = net.socket_name(&listener).unwrap();
    assert_eq!(name, SocketAddr { ip: loopback(), port: 8080 });
}

#[test]
fn bind_rejects_privileged_port() {
    let mut net = MemNet::new();
    assert_eq!(net.bind(loopback(), 80), Err(BindError::PermissionDenied));
}

#[test]
fn bind_rejects_broadcast_address() {
    let mut net = MemNet::new();
    let broadcast = IpAddr::V4(255, 255, 255, 255);
    assert_eq!(net.bind(broadcast, 8080), Err(BindError::InvalidAddress));
}

#[test]
fn bind_rejects_address_in_use() {
    let mut net = MemNet::new();
    let _listener = net.bind(loopback(), 8080).unwrap();
    assert_eq!(net.bind(loopback(), 8080), Err(BindError::AddressInUse));
}

#[test]
fn close_frees_the_address_for_rebinding() {
    let mut net = MemNet::new();
    let listener = net.bind(loopback(), 8080).unwrap();
    let acceptor = net.listen(listener).unwrap();
    assert_eq!(net.bind(loopback(), 8080), Err(BindError::AddressInUse));
    net.close(&acceptor).unwrap();
    assert!(net.bind(loopback(), 8080).is_ok());
}

#[test]
fn connect_refused_without_listener() {
    let mut net = MemNet::new();
    assert_eq!(net.connect(loopback(), 9000), Err(ConnectError::Refused));
}

#[test]
fn connect_refused_while_only_bound_not_listening() {
    let mut net = MemNet::new();
    let _listener = net.bind(loopback(), 9000).unwrap();
    assert_eq!(net.connect(loopback(), 9000), Err(ConnectError::Refused));
}

#[test]
fn listen_of_consumed_listener_is_unavailable() {
    let mut net = MemNet::new();
    let listener = net.bind(loopback(), 8080).unwrap();
    let id = listener.id;
    let _acceptor = net.listen(listener).unwrap();
    assert_eq!(net.listen(MemListener { id }), Err(ListenError::Unavailable));
}

#[test]
fn accept_would_block_when_nothing_is_pending() {
    let mut net = MemNet::new();
    let listener = net.bind(loopback(), 8080).unwrap();
    let acceptor = net.listen(listener).unwrap();
    assert_eq!(net.accept(&acceptor), Err(AcceptError::WouldBlock));
}

#[test]
fn close_then_accept_reports_closed_on_every_duplicate() {
    let mut net = MemNet::new();
    let listener = net.bind(loopback(), 8080).unwrap();
    let acceptor = net.listen(listener).unwrap();
    let duplicate = acceptor.dup();
    let client = net.connect(loopback(), 8080).unwrap();
    let server = net.accept(&acceptor).unwrap();
    net.close(&acceptor).unwrap();
    assert_eq!(net.accept(&acceptor), Err(AcceptError::Closed));
    assert_eq!(net.accept(&duplicate), Err(AcceptError::Closed));
    net.close(&duplicate).unwrap();
    assert_eq!(net.accept(&duplicate), Err(AcceptError::Closed));
    net.write(&server, b"still alive").unwrap();
    assert_eq!(net.read(&client, 16).unwrap(), b"still alive".to_vec());
}

#[test]
fn duplicate_stream_shares_the_connection() {
    let mut net = MemNet::new();
    let listener = net.bind(loopback(), 8080).unwrap();
    let acceptor = net.listen(listener).unwrap();
    let client = net.connect(loopback(), 8080).unwrap();
    let server = net.accept(&acceptor).unwrap();
    let twin = client.dup();
    net.write(&twin, b"via twin").unwrap();
    assert_eq!(net.read(&server, 64).unwrap(), b"via twin".to_vec());
    net.write(&client, b"via original").unwrap();
    assert_eq!(net.read(&server, 64).unwrap(), b"via original".to_vec());
    let server_twin = server.dup();
    net.write(&server, b"down").unwrap();
    assert_eq!(net.read(&twin, 64).unwrap(), b"down".to_vec());
    assert_eq!(net.read(&server_twin, 64).unwrap(), Vec::<u8>::new());
}

#[test]
fn peer_name_reports_the_connecting_client() {
    let mut net = MemNet::new();
    let listener = net.bind(loopback(), 8080).unwrap();
    let acceptor = net.listen(listener).unwrap();
    let client = net.connect(loopback(), 8080).unwrap();
    let server = net.accept(&acceptor).unwrap();
    let client_seen_by_server = net.peer_name(&server).unwrap();
    assert_eq!(client_seen_by_server, SocketAddr { ip: loopback(), port: 49152 });
    let server_seen_by_client = net.peer_name(&client).unwrap();
    assert_eq!(server_seen_by_client, SocketAddr { ip: loopback(), port: 8080 });
}

#[test]
fn read_drains_a_prefix_and_keeps_the_rest() {
    let mut net = MemNet::new();
    let listener = net.bind(loopback(), 8080).unwrap();
    let acceptor = net.listen(listener).unwrap();
    let client = net.connect(loopback(), 8080).unwrap();
    let server = net.accept(&acceptor).unwrap();
    net.write(&client, b"abcd").unwrap();
    net.flush(&client).unwrap();
    assert_eq!(net.read(&server, 2).unwrap(), b"ab".to_vec());
    assert_eq!(net.read(&server, 10).unwrap(), b"cd".to_vec());
    assert_eq!(net.read(&server, 10).unwrap(), Vec::<u8>::new());
}

#[test]
fn exhausted_ephemeral_range_fails_cleanly() {
    let mut net = MemNet::new();
    let listener = net.bind(loopback(), 8080).unwrap();
    let acceptor = net.listen(listener).unwrap();
    for _ in 0..16383 {
        net.connect(loopback(), 8080).unwrap();
        net.accept(&acceptor).unwrap();
    }
    assert_eq!(net.connect(loopback(), 8080), Err(ConnectError::Unreachable));
    assert!(matches!(net.bind(loopback(), 0), Err(BindError::AddressInUse)));
}

#[test]
fn accept_hands_out_connections_oldest_first() {
    let mut net = MemNet::new();
    let listener = net.bind(loopback(), 8080).unwrap();
    let acceptor = net.listen(listener).unwrap();
    let first = net.connect(loopback(), 8080).unwrap();
    let second = net.connect(loopback(), 8080).unwrap();
    net.write(&first, b"1").unwrap();
    net.write(&second, b"2").unwrap();
    let a = net.accept(&acceptor).unwrap();
    let b = net.accept(&acceptor).unwrap();
    assert_eq!(net.read(&a, 1).unwrap(), b"1".to_vec());
    assert_eq!(net.read(&b, 1).unwrap(), b"2".to_vec());
}
