//! The private seal of the write-status markers.

use vstd::prelude::*;

verus! {

/// Only types of this crate can implement the seal, so `WriteStatus` stays
/// closed over exactly `Fresh` and `Streaming`.
pub trait Sealed {
}

} // verus!
