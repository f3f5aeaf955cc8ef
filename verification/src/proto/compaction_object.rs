//! The body of a compaction on the wire.
use vstd::prelude::*;

verus! {

/// Up to where to trim, if that is given.
#[derive(Debug, Clone, Copy, PartialEq, Eq)]
pub struct Trim {
    pub trim: Option<u64>,
}

/// The kinds of compaction.
#[derive(Debug, Clone, Copy, PartialEq, Eq)]
pub enum Compaction {
    Trim(Trim),
    Snapshot(u64),
}

} // verus!
