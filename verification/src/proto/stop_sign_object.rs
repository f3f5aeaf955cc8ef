//! The metadata of a stop sign on the wire.
use vstd::prelude::*;

verus! {

/// A list of bytes, each carried as a 32-bit number.
#[derive(Debug, Clone, PartialEq, Eq)]
pub struct Metadata {
    pub vec: Vec<u32>,
}

} // verus!
