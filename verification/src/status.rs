//! The write-status markers: a two-state, compile-time state machine.
//!
//! A protocol-layer request or response type carries one of these markers as
//! a type parameter.  Operations that are only legal before any body byte was
//! written (setting a header, say) are offered only on the value tagged
//! `Fresh`; the one-shot transition to `Streaming` changes the type, so the
//! compiler itself rejects those operations afterwards.  No runtime state
//! exists, and the trait is sealed: no other type can ever be a write status.

use vstd::prelude::*;

verus! {

/// The write status of a value whose headers have not been sent yet.
#[derive(Clone, Copy, PartialEq, Eq, Structural, Debug)]
pub struct Fresh;

/// The write status of a value whose headers have been sent.
#[derive(Clone, Copy, PartialEq, Eq, Structural, Debug)]
pub struct Streaming;

/// The write status of a request or response: exactly `Fresh` or
/// `Streaming`, and nothing else, since the supertrait is sealed.
pub trait WriteStatus: crate::sealed::Sealed {
}

impl crate::sealed::Sealed for Fresh {
}

impl WriteStatus for Fresh {
}

impl crate::sealed::Sealed for Streaming {
}

impl WriteStatus for Streaming {
}

} // verus!
