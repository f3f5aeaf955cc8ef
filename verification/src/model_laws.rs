//! The model of each type holds all that a value holds.
use vstd::prelude::*;

use crate::messages::{
    AcceptDecide, AcceptStopSign, AcceptSync, FirstAccept, Message, PaxosMsg, PaxosMsgView, Promise,
    StopSign, SyncItem, SyncItemView,
};
use crate::proto::paxos_msg_object::{Msg, MsgView};
use crate::proto::sync_item_object::{Item, ItemView};
use crate::proto::{
    acc_dcd_obj, acc_sync_obj, command_objs_view, f_acc_obj, p_obj, paxos_msg_obj, prpd_fwd_obj,
    stp_obj, str_cmd_obj, sync_itm_obj, Acceptstp_obj, QueryResults,
};
use crate::server::{commands_view, StoreCommand, StoreResults};

verus! {

/// The model of a command holds its identifier and its text.
pub proof fn law_command_model(c: StoreCommand)
    ensures
        c@.id == c.id,
        c@.sql == c.sql@,
{
}

/// The model of a command on the wire holds its identifier and its text.
pub proof fn law_command_obj_model(c: str_cmd_obj)
    ensures
        c@.id == c.id,
        c@.sql == c.sql@,
{
}

/// The model of a list of commands holds the model of each, in order.
pub proof fn law_commands_model(cs: Seq<StoreCommand>)
    ensures
        commands_view(cs).len() == cs.len(),
        forall|i: int|
            #![trigger commands_view(cs)[i]]
            #![trigger cs[i]]
            0 <= i < cs.len() ==> commands_view(cs)[i] == cs[i]@,
{
}

/// The model of a list of commands on the wire holds the model of each, in order.
pub proof fn law_command_objs_model(cs: Seq<str_cmd_obj>)
    ensures
        command_objs_view(cs).len() == cs.len(),
        forall|i: int|
            #![trigger command_objs_view(cs)[i]]
            #![trigger cs[i]]
            0 <= i < cs.len() ==> command_objs_view(cs)[i] == cs[i]@,
{
}

/// The model of a sync item is of its kind.
pub proof fn law_sync_item_model(s: SyncItem)
    ensures
        match s {
            SyncItem::Entries(es) => s@ == SyncItemView::Entries(commands_view(es@)),
            SyncItem::Snapshot(k) => s@ == SyncItemView::Snapshot(k),
            SyncItem::Nothing => s@ is Nothing,
        },
{
}

/// The model of a sync item on the wire is of its kind.
pub proof fn law_sync_item_obj_model(o: sync_itm_obj)
    ensures
        match o.item {
            Some(Item::Entries(es)) => o@.item == Some(ItemView::Entries(command_objs_view(es.vec@))),
            Some(Item::Snapshot(code)) => o@.item == Some(ItemView::Snapshot(code)),
            Some(Item::Nothing(_)) => o@.item == Some(ItemView::Nothing),
            None => o@.item is None,
        },
{
}

/// The model of a stop sign holds all that it holds.
pub proof fn law_stop_sign_model(s: StopSign)
    ensures
        s@.config_id == s.config_id,
        s@.nodes == s.nodes@,
        match s.metadata {
            Some(v) => s@.metadata == Some(v@),
            None => s@.metadata is None,
        },
{
}

/// The model of a stop sign on the wire holds all that it holds.
pub proof fn law_stop_sign_obj_model(o: stp_obj)
    ensures
        o@.config_id == o.config_id,
        o@.nodes == o.nodes@,
        match o.metadata {
            Some(v) => o@.metadata == Some(v.vec@),
            None => o@.metadata is None,
        },
{
}

/// The model of a `Promise` holds all that it holds.
pub proof fn law_promise_model(m: Promise)
    ensures
        m@.n == m.n,
        m@.n_accepted == m.n_accepted,
        m@.ld == m.ld,
        m@.la == m.la,
        match m.sync_item {
            Some(v) => m@.sync_item == Some(v@),
            None => m@.sync_item is None,
        },
        match m.stopsign {
            Some(v) => m@.stopsign == Some(v@),
            None => m@.stopsign is None,
        },
{
}

/// The model of a `Promise` on the wire holds all that it holds.
pub proof fn law_promise_obj_model(o: p_obj)
    ensures
        o@.n == o.n,
        o@.n_accepted == o.n_accepted,
        o@.ld == o.ld,
        o@.la == o.la,
        match o.sync_item {
            Some(v) => o@.sync_item == Some(v@),
            None => o@.sync_item is None,
        },
        match o.stopsign {
            Some(v) => o@.stopsign == Some(v@),
            None => o@.stopsign is None,
        },
{
}

/// The model of an `AcceptSync` holds all that it holds.
pub proof fn law_accept_sync_model(m: AcceptSync)
    ensures
        m@.n == m.n,
        m@.sync_idx == m.sync_idx,
        m@.decide_idx == m.decide_idx,
        m@.sync_item == m.sync_item@,
        match m.stopsign {
            Some(v) => m@.stopsign == Some(v@),
            None => m@.stopsign is None,
        },
{
}

/// The model of an `AcceptSync` on the wire holds all that it holds.
pub proof fn law_accept_sync_obj_model(o: acc_sync_obj)
    ensures
        o@.n == o.n,
        o@.sync_idx == o.sync_idx,
        o@.decide_idx == o.decide_idx,
        match o.sync_item {
            Some(v) => o@.sync_item == Some(v@),
            None => o@.sync_item is None,
        },
        match o.stopsign {
            Some(v) => o@.stopsign == Some(v@),
            None => o@.stopsign is None,
        },
{
}

/// The model of a `FirstAccept` holds all that it holds.
pub proof fn law_first_accept_model(m: FirstAccept)
    ensures
        m@.n == m.n,
        m@.entries == commands_view(m.entries@),
{
}

/// The model of a `FirstAccept` on the wire holds all that it holds.
pub proof fn law_first_accept_obj_model(o: f_acc_obj)
    ensures
        o@.n == o.n,
        o@.entries == command_objs_view(o.entries@),
{
}

/// The model of an `AcceptDecide` holds all that it holds.
pub proof fn law_accept_decide_model(m: AcceptDecide)
    ensures
        m@.n == m.n,
        m@.ld == m.ld,
        m@.entries == commands_view(m.entries@),
{
}

/// The model of an `AcceptDecide` on the wire holds all that it holds.
pub proof fn law_accept_decide_obj_model(o: acc_dcd_obj)
    ensures
        o@.n == o.n,
        o@.ld == o.ld,
        o@.entries == command_objs_view(o.entries@),
{
}

/// The model of forwarded proposals on the wire holds all of them.
pub proof fn law_proposals_obj_model(o: prpd_fwd_obj)
    ensures
        o@.entries == command_objs_view(o.entries@),
{
}

/// The model of an `AcceptStopSign` holds all that it holds.
pub proof fn law_accept_stop_sign_model(m: AcceptStopSign)
    ensures
        m@.n == m.n,
        m@.ss == m.ss@,
{
}

/// The model of an `AcceptStopSign` on the wire holds all that it holds.
pub proof fn law_accept_stop_sign_obj_model(o: Acceptstp_obj)
    ensures
        o@.n == o.n,
        match o.ss {
            Some(v) => o@.ss == Some(v@),
            None => o@.ss is None,
        },
{
}

/// The model of a replication message is of its kind, with the same sender and
/// receiver.
pub proof fn law_message_model(m: Message)
    ensures
        m@.from == m.from,
        m@.to == m.to,
        match m.msg {
            PaxosMsg::PrepareReq => m@.msg is PrepareReq,
            PaxosMsg::Prepare(x) => m@.msg == PaxosMsgView::Prepare(x),
            PaxosMsg::Promise(x) => m@.msg == PaxosMsgView::Promise(x@),
            PaxosMsg::AcceptSync(x) => m@.msg == PaxosMsgView::AcceptSync(x@),
            PaxosMsg::FirstAccept(x) => m@.msg == PaxosMsgView::FirstAccept(x@),
            PaxosMsg::AcceptDecide(x) => m@.msg == PaxosMsgView::AcceptDecide(x@),
            PaxosMsg::Accepted(x) => m@.msg == PaxosMsgView::Accepted(x),
            PaxosMsg::Decide(x) => m@.msg == PaxosMsgView::Decide(x),
            PaxosMsg::ProposalForward(x) => m@.msg == PaxosMsgView::ProposalForward(commands_view(x@)),
            PaxosMsg::Compaction(x) => m@.msg == PaxosMsgView::Compaction(x),
            PaxosMsg::ForwardCompaction(x) => m@.msg == PaxosMsgView::ForwardCompaction(x),
            PaxosMsg::AcceptStopSign(x) => m@.msg == PaxosMsgView::AcceptStopSign(x@),
            PaxosMsg::AcceptedStopSign(x) => m@.msg == PaxosMsgView::AcceptedStopSign(x),
            PaxosMsg::DecideStopSign(x) => m@.msg == PaxosMsgView::DecideStopSign(x),
        },
{
}

/// The model of a replication message on the wire is of its kind, with the same
/// sender and receiver.
pub proof fn law_message_obj_model(o: paxos_msg_obj)
    ensures
        o@.from == o.from,
        o@.to == o.to,
        match o.msg {
            Some(Msg::PrepareReq(_)) => o@.msg == Some(MsgView::PrepareReq),
            Some(Msg::Prepare(x)) => o@.msg == Some(MsgView::Prepare(x)),
            Some(Msg::Promise(x)) => o@.msg == Some(MsgView::Promise(x@)),
            Some(Msg::AcceptSync(x)) => o@.msg == Some(MsgView::AcceptSync(x@)),
            Some(Msg::FirstAccept(x)) => o@.msg == Some(MsgView::FirstAccept(x@)),
            Some(Msg::AcceptDecide(x)) => o@.msg == Some(MsgView::AcceptDecide(x@)),
            Some(Msg::Accepted(x)) => o@.msg == Some(MsgView::Accepted(x)),
            Some(Msg::Decide(x)) => o@.msg == Some(MsgView::Decide(x)),
            Some(Msg::ProposalForward(x)) => o@.msg == Some(MsgView::ProposalForward(x@)),
            Some(Msg::Compaction(x)) => o@.msg == Some(MsgView::Compaction(x)),
            Some(Msg::ForwardCompaction(x)) => o@.msg == Some(MsgView::ForwardCompaction(x)),
            Some(Msg::AcceptStopSign(x)) => o@.msg == Some(MsgView::AcceptStopSign(x@)),
            Some(Msg::AcceptedStopSign(x)) => o@.msg == Some(MsgView::AcceptedStopSign(x)),
            Some(Msg::DecideStopSign(x)) => o@.msg == Some(MsgView::DecideStopSign(x)),
            None => o@.msg is None,
        },
{
}

/// The model of results on their way from the store holds every value of every row, in order.
pub proof fn law_results_model(r: StoreResults)
    ensures
        r@.len() == r.rows@.len(),
        forall|i: int|
            #![trigger r@[i]]
            #![trigger r.rows@[i]]
            0 <= i < r.rows@.len() ==> r@[i].len() == r.rows@[i].values@.len(),
        forall|i: int, j: int|
            #![trigger r@[i][j]]
            #![trigger r.rows@[i].values@[j]]
            0 <= i < r.rows@.len() && 0 <= j < r.rows@[i].values@.len() ==> r@[i][j]
                == r.rows@[i].values@[j]@,
{
}

/// The model of results on the wire holds every value of every row, in order.
pub proof fn law_query_results_model(r: QueryResults)
    ensures
        r@.len() == r.rows@.len(),
        forall|i: int|
            #![trigger r@[i]]
            #![trigger r.rows@[i]]
            0 <= i < r.rows@.len() ==> r@[i].len() == r.rows@[i].values@.len(),
        forall|i: int, j: int|
            #![trigger r@[i][j]]
            #![trigger r.rows@[i].values@[j]]
            0 <= i < r.rows@.len() && 0 <= j < r.rows@[i].values@.len() ==> r@[i][j]
                == r.rows@[i].values@[j]@,
{
}

} // verus!
