//! The body of a leader election message on the wire.
use vstd::prelude::*;

use crate::proto::{beat_rep_obj, beat_req_obj};

verus! {

/// The kinds of body.
#[derive(Debug, Clone, Copy, PartialEq, Eq)]
pub enum Msg {
    bestReq(beat_req_obj),
    bestRep(beat_rep_obj),
}

} // verus!
