//! Duplication through erasure, exercised against the verified model.
//!
//! A protocol layer erases a concrete stream behind a uniform
//! runtime-polymorphic channel and must still be able to duplicate it; the
//! duplication has to be part of the channel's own contract (`clone_box`),
//! since a boxed trait object cannot get a generic `Clone`.  The test checks
//! that the round trip through erasure changes nothing observable: a write
//! through the erased duplicate reaches the peer exactly as a write through
//! the original concrete handle.

use netcap::addr::IpAddr;
use netcap::mem::{MemNet, MemStream};

fn loopback() -> IpAddr {
    IpAddr::V4(127, 0, 0, 1)
}

// The object-level face of a stream handle on the in-memory network.
trait Channel {
    fn send(&self, net: &mut MemNet, data: &[u8]);
    fn recv(&self, net: &mut MemNet, max: usize) -> Vec<u8>;
    fn clone_box(&self) -> Box<dyn Channel>;
}

struct MemChannel(MemStream);

impl Channel for MemChannel {
    fn send(&self, net: &mut MemNet, data: &[u8]) {
        net.write(&self.0, data).unwrap();
    }

    fn recv(&self, net: &mut MemNet, max: usize) -> Vec<u8> {
        net.read(&self.0, max).unwrap()
    }

    fn clone_box(&self) -> Box<dyn Channel> {
        Box::new(MemChannel(self.0.dup()))
    }
}

#[test]
fn duplicating_an_erased_stream_still_shares_the_connection() {
    let mut net = MemNet::new();
    let listener = net.bind(loopback(), 8080).unwrap();
    let acceptor = net.listen(listener).unwrap();
    let client = net.connect(loopback(), 8080).unwrap();
    let server = net.accept(&acceptor).unwrap();

    net.write(&client, b"concrete").unwrap();
    assert_eq!(net.read(&server, 64).unwrap(), b"concrete".to_vec());

    let erased: Box<dyn Channel> = Box::new(MemChannel(client));
    erased.send(&mut net, b"erased");
    assert_eq!(net.read(&server, 64).unwrap(), b"erased".to_vec());

    let duplicate = erased.clone_box();
    duplicate.send(&mut net, b"duplicate");
    assert_eq!(net.read(&server, 64).unwrap(), b"duplicate".to_vec());

    net.write(&server, b"reply").unwrap();
    assert_eq!(duplicate.recv(&mut net, 64), b"reply".to_vec());
    assert_eq!(erased.recv(&mut net, 64), Vec::<u8>::new());
}
