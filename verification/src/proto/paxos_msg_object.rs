//! The body of a replication message on the wire.
use vstd::prelude::*;

use crate::proto::{
    acc_dcd_obj, acc_ed_obj, acc_sync_obj, comp_obj, dcd_obj, f_acc_obj, p_obj, prep_obj,
    prpd_fwd_obj, prpd_r_obj, AccDcdObjView, AccSyncObjView, AcceptStpObjView, Acceptedstp_obj,
    Acceptstp_obj, Decidestp_obj, FAccObjView, PObjView, PrpdFwdObjView,
};

verus! {

/// The kinds of body.
#[derive(Debug, Clone, PartialEq, Eq)]
pub enum Msg {
    PrepareReq(prpd_r_obj),
    Prepare(prep_obj),
    Promise(p_obj),
    AcceptSync(acc_sync_obj),
    FirstAccept(f_acc_obj),
    AcceptDecide(acc_dcd_obj),
    Accepted(acc_ed_obj),
    Decide(dcd_obj),
    ProposalForward(prpd_fwd_obj),
    Compaction(comp_obj),
    ForwardCompaction(comp_obj),
    AcceptStopSign(Acceptstp_obj),
    AcceptedStopSign(Acceptedstp_obj),
    DecideStopSign(Decidestp_obj),
}

/// Model of a [`Msg`].
pub enum MsgView {
    PrepareReq,
    Prepare(prep_obj),
    Promise(PObjView),
    AcceptSync(AccSyncObjView),
    FirstAccept(FAccObjView),
    AcceptDecide(AccDcdObjView),
    Accepted(acc_ed_obj),
    Decide(dcd_obj),
    ProposalForward(PrpdFwdObjView),
    Compaction(comp_obj),
    ForwardCompaction(comp_obj),
    AcceptStopSign(AcceptStpObjView),
    AcceptedStopSign(Acceptedstp_obj),
    DecideStopSign(Decidestp_obj),
}

impl View for Msg {
    type V = MsgView;

    open spec fn view(&self) -> MsgView {
        match *self {
            Msg::PrepareReq(_) => MsgView::PrepareReq,
            Msg::Prepare(m) => MsgView::Prepare(m),
            Msg::Promise(m) => MsgView::Promise(m@),
            Msg::AcceptSync(m) => MsgView::AcceptSync(m@),
            Msg::FirstAccept(m) => MsgView::FirstAccept(m@),
            Msg::AcceptDecide(m) => MsgView::AcceptDecide(m@),
            Msg::Accepted(m) => MsgView::Accepted(m),
            Msg::Decide(m) => MsgView::Decide(m),
            Msg::ProposalForward(m) => MsgView::ProposalForward(m@),
            Msg::Compaction(m) => MsgView::Compaction(m),
            Msg::ForwardCompaction(m) => MsgView::ForwardCompaction(m),
            Msg::AcceptStopSign(m) => MsgView::AcceptStopSign(m@),
            Msg::AcceptedStopSign(m) => MsgView::AcceptedStopSign(m),
            Msg::DecideStopSign(m) => MsgView::DecideStopSign(m),
        }
    }
}

} // verus!
