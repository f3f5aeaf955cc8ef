//! Which wire objects hold everything that their reader needs.
use vstd::prelude::*;

use crate::proto::ble_message_object;
use crate::proto::paxos_msg_object::{Msg, MsgView};
use crate::proto::sync_item_object::{Item, ItemView, Snapshot};
use crate::proto::{
    acc_dcd_obj, acc_ed_obj, acc_sync_obj, beat_rep_obj, ble_msg__obj, comp_obj, dcd_obj,
    f_acc_obj, p_obj, paxos_msg_obj, prep_obj, sync_itm_obj, AccDcdObjView, AccSyncObjView,
    AcceptStpObjView, Acceptedstp_obj, Acceptstp_obj, Decidestp_obj, FAccObjView, PObjView,
    PaxosMsgObjView, SyncItmObjView,
};

verus! {

impl prep_obj {
    /// Both ballots are there.
    pub open spec fn complete(self) -> bool {
        self.n is Some && self.n_accepted is Some
    }

    /// Tests [`prep_obj::complete`].
    pub fn is_complete(&self) -> (b: bool)
        ensures
            b == self.complete(),
            b == (self.n is Some && self.n_accepted is Some),
    {
        self.n.is_some() && self.n_accepted.is_some()
    }
}

impl SyncItmObjView {
    /// The body is there, and if it is a snapshot, then of a known kind.
    pub open spec fn complete(self) -> bool {
        match self.item {
            Some(ItemView::Snapshot(ss)) => Snapshot::of_code(ss) is Some,
            Some(_) => true,
            None => false,
        }
    }
}

impl sync_itm_obj {
    /// Tests [`SyncItmObjView::complete`].
    pub fn is_complete(&self) -> (b: bool)
        ensures
            b == self@.complete(),
            b == match self.item {
                Some(Item::Snapshot(code)) => 0 <= code <= 2,
                Some(_) => true,
                None => false,
            },
    {
        match &self.item {
            Some(Item::Snapshot(ss)) => Snapshot::from_i32(*ss).is_some(),
            Some(_) => true,
            None => false,
        }
    }
}

impl PObjView {
    /// Both ballots are there, and the sync item, where there is one, is complete.
    pub open spec fn complete(self) -> bool {
        &&& self.n is Some
        &&& self.n_accepted is Some
        &&& self.sync_item is Some ==> self.sync_item->0.complete()
    }
}

impl p_obj {
    /// Tests [`PObjView::complete`].
    pub fn is_complete(&self) -> (b: bool)
        ensures
            b == self@.complete(),
            b == (self.n is Some && self.n_accepted is Some && match self.sync_item {
                Some(s) => match s.item {
                    Some(Item::Snapshot(code)) => 0 <= code <= 2,
                    Some(_) => true,
                    None => false,
                },
                None => true,
            }),
    {
        self.n.is_some() && self.n_accepted.is_some() && match &self.sync_item {
            Some(s) => s.is_complete(),
            None => true,
        }
    }
}

impl AccSyncObjView {
    /// The ballot is there, and so is the sync item, which is complete.
    pub open spec fn complete(self) -> bool {
        &&& self.n is Some
        &&& self.sync_item is Some
        &&& self.sync_item->0.complete()
    }
}

impl acc_sync_obj {
    /// Tests [`AccSyncObjView::complete`].
    pub fn is_complete(&self) -> (b: bool)
        ensures
            b == self@.complete(),
            b == (self.n is Some && match self.sync_item {
                Some(s) => match s.item {
                    Some(Item::Snapshot(code)) => 0 <= code <= 2,
                    Some(_) => true,
                    None => false,
                },
                None => false,
            }),
    {
        self.n.is_some() && match &self.sync_item {
            Some(s) => s.is_complete(),
            None => false,
        }
    }
}

impl FAccObjView {
    /// The ballot is there.
    pub open spec fn complete(self) -> bool {
        self.n is Some
    }
}

impl f_acc_obj {
    /// Tests [`FAccObjView::complete`].
    pub fn is_complete(&self) -> (b: bool)
        ensures
            b == self@.complete(),
            b == (self.n is Some),
    {
        self.n.is_some()
    }
}

impl AccDcdObjView {
    /// The ballot is there.
    pub open spec fn complete(self) -> bool {
        self.n is Some
    }
}

impl acc_dcd_obj {
    /// Tests [`AccDcdObjView::complete`].
    pub fn is_complete(&self) -> (b: bool)
        ensures
            b == self@.complete(),
            b == (self.n is Some),
    {
        self.n.is_some()
    }
}

impl acc_ed_obj {
    /// The ballot is there.
    pub open spec fn complete(self) -> bool {
        self.n is Some
    }

    /// Tests [`acc_ed_obj::complete`].
    pub fn is_complete(&self) -> (b: bool)
        ensures
            b == self.complete(),
            b == (self.n is Some),
    {
        self.n.is_some()
    }
}

impl dcd_obj {
    /// The ballot is there.
    pub open spec fn complete(self) -> bool {
        self.n is Some
    }

    /// Tests [`dcd_obj::complete`].
    pub fn is_complete(&self) -> (b: bool)
        ensures
            b == self.complete(),
            b == (self.n is Some),
    {
        self.n.is_some()
    }
}

impl comp_obj {
    /// The body is there.
    pub open spec fn complete(self) -> bool {
        self.compaction is Some
    }

    /// Tests [`comp_obj::complete`].
    pub fn is_complete(&self) -> (b: bool)
        ensures
            b == self.complete(),
            b == (self.compaction is Some),
    {
        self.compaction.is_some()
    }
}

impl AcceptStpObjView {
    /// The ballot and the stop sign are there.
    pub open spec fn complete(self) -> bool {
        self.n is Some && self.ss is Some
    }
}

impl Acceptstp_obj {
    /// Tests [`AcceptStpObjView::complete`].
    pub fn is_complete(&self) -> (b: bool)
        ensures
            b == self@.complete(),
            b == (self.n is Some && self.ss is Some),
    {
        self.n.is_some() && self.ss.is_some()
    }
}

impl Acceptedstp_obj {
    /// The ballot is there.
    pub open spec fn complete(self) -> bool {
        self.n is Some
    }

    /// Tests [`Acceptedstp_obj::complete`].
    pub fn is_complete(&self) -> (b: bool)
        ensures
            b == self.complete(),
            b == (self.n is Some),
    {
        self.n.is_some()
    }
}

impl Decidestp_obj {
    /// The ballot is there.
    pub open spec fn complete(self) -> bool {
        self.n is Some
    }

    /// Tests [`Decidestp_obj::complete`].
    pub fn is_complete(&self) -> (b: bool)
        ensures
            b == self.complete(),
            b == (self.n is Some),
    {
        self.n.is_some()
    }
}

impl MsgView {
    /// What the body holds is complete.
    pub open spec fn complete(self) -> bool {
        match self {
            MsgView::PrepareReq => true,
            MsgView::Prepare(m) => m.complete(),
            MsgView::Promise(m) => m.complete(),
            MsgView::AcceptSync(m) => m.complete(),
            MsgView::FirstAccept(m) => m.complete(),
            MsgView::AcceptDecide(m) => m.complete(),
            MsgView::Accepted(m) => m.complete(),
            MsgView::Decide(m) => m.complete(),
            MsgView::ProposalForward(_) => true,
            MsgView::Compaction(m) => m.complete(),
            MsgView::ForwardCompaction(m) => m.complete(),
            MsgView::AcceptStopSign(m) => m.complete(),
            MsgView::AcceptedStopSign(m) => m.complete(),
            MsgView::DecideStopSign(m) => m.complete(),
        }
    }
}

impl PaxosMsgObjView {
    /// The body is there and complete.
    pub open spec fn complete(self) -> bool {
        self.msg is Some && self.msg->0.complete()
    }
}

impl paxos_msg_obj {
    /// Tests [`PaxosMsgObjView::complete`].
    pub fn is_complete(&self) -> (b: bool)
        ensures
            b == self@.complete(),
            b == match self.msg {
                Some(Msg::PrepareReq(_)) => true,
                Some(Msg::Prepare(m)) => m.n is Some && m.n_accepted is Some,
                Some(Msg::Promise(m)) => m.n is Some && m.n_accepted is Some && match m.sync_item {
                    Some(s) => match s.item {
                        Some(Item::Snapshot(code)) => 0 <= code <= 2,
                        Some(_) => true,
                        None => false,
                    },
                    None => true,
                },
                Some(Msg::AcceptSync(m)) => m.n is Some && match m.sync_item {
                    Some(s) => match s.item {
                        Some(Item::Snapshot(code)) => 0 <= code <= 2,
                        Some(_) => true,
                        None => false,
                    },
                    None => false,
                },
                Some(Msg::FirstAccept(m)) => m.n is Some,
                Some(Msg::AcceptDecide(m)) => m.n is Some,
                Some(Msg::Accepted(m)) => m.n is Some,
                Some(Msg::Decide(m)) => m.n is Some,
                Some(Msg::AcceptedStopSign(m)) => m.n is Some,
                Some(Msg::DecideStopSign(m)) => m.n is Some,
                Some(Msg::ProposalForward(_)) => true,
                Some(Msg::Compaction(m)) => m.compaction is Some,
                Some(Msg::ForwardCompaction(m)) => m.compaction is Some,
                Some(Msg::AcceptStopSign(m)) => m.n is Some && m.ss is Some,
                None => false,
            },
    {
        match &self.msg {
            Some(msg) => match msg {
                Msg::PrepareReq(_) => true,
                Msg::Prepare(m) => m.is_complete(),
                Msg::Promise(m) => m.is_complete(),
                Msg::AcceptSync(m) => m.is_complete(),
                Msg::FirstAccept(m) => m.is_complete(),
                Msg::AcceptDecide(m) => m.is_complete(),
                Msg::Accepted(m) => m.is_complete(),
                Msg::Decide(m) => m.is_complete(),
                Msg::ProposalForward(_) => true,
                Msg::Compaction(m) => m.is_complete(),
                Msg::ForwardCompaction(m) => m.is_complete(),
                Msg::AcceptStopSign(m) => m.is_complete(),
                Msg::AcceptedStopSign(m) => m.is_complete(),
                Msg::DecideStopSign(m) => m.is_complete(),
            },
            None => false,
        }
    }
}

impl beat_rep_obj {
    /// The ballot is there.
    pub open spec fn complete(self) -> bool {
        self.ballot is Some
    }

    /// Tests [`beat_rep_obj::complete`].
    pub fn is_complete(&self) -> (b: bool)
        ensures
            b == self.complete(),
            b == (self.ballot is Some),
    {
        self.ballot.is_some()
    }
}

impl ble_msg__obj {
    /// The body is there and complete.
    pub open spec fn complete(self) -> bool {
        match self.msg {
            Some(ble_message_object::Msg::bestReq(_)) => true,
            Some(ble_message_object::Msg::bestRep(reply)) => reply.complete(),
            None => false,
        }
    }

    /// Tests [`ble_msg__obj::complete`].
    pub fn is_complete(&self) -> (b: bool)
        ensures
            b == self.complete(),
            b == match self.msg {
                Some(ble_message_object::Msg::bestReq(_)) => true,
                Some(ble_message_object::Msg::bestRep(reply)) => reply.ballot is Some,
                None => false,
            },
    {
        match &self.msg {
            Some(ble_message_object::Msg::bestReq(_)) => true,
            Some(ble_message_object::Msg::bestRep(reply)) => reply.is_complete(),
            None => false,
        }
    }
}

} // verus!
