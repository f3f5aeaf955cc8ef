//! Messages of ballot leader election.
use vstd::prelude::*;

verus! {

/// The ballot of a leader: its round number, priority and node identifier.
#[derive(Debug, Clone, Copy, PartialEq, Eq)]
pub struct Ballot {
    pub n: u32,
    pub priority: u64,
    pub pid: u64,
}

/// A leader election message, from one node to another.
#[derive(Debug, Clone, Copy, PartialEq, Eq)]
pub struct BLEMessage {
    pub from: u64,
    pub to: u64,
    pub msg: bestMsg,
}

/// The two kinds of heartbeat.
#[derive(Debug, Clone, Copy, PartialEq, Eq)]
pub enum bestMsg {
    Request(bestRequest),
    Reply(bestReply),
}

/// Asks a node whether it is alive in a round.
#[derive(Debug, Clone, Copy, PartialEq, Eq)]
pub struct bestRequest {
    pub round: u32,
}

/// Answers a [`bestRequest`].
#[derive(Debug, Clone, Copy, PartialEq, Eq)]
pub struct bestReply {
    pub round: u32,
    pub ballot: Ballot,
    pub majority_connected: bool,
}

} // verus!
