//! What each kind of message becomes on the wire, and what each kind of object is
//! read as, field by field and in each direction on its own.
use vstd::prelude::*;

use crate::ballot_leader_election::{bestMsg, BLEMessage};
use crate::decode::{ble_message_of, commands_of, lemma_low_usize, message_of};
use crate::encode::{ble_message_wire, message_wire};
use crate::messages::{
    AcceptDecideView, AcceptStopSignView, AcceptSyncView, Accepted, AcceptedStopSign, Compaction,
    Decide, DecideStopSign, FirstAcceptView, MessageView, PaxosMsgView, Prepare, PromiseView,
    SyncItemView,
};
use crate::proto::paxos_msg_object::MsgView;
use crate::proto::sync_item_object::{ItemView, Snapshot};
use crate::proto::{
    acc_ed_obj, ble_message_object, ble_msg__obj, comp_obj, compaction_object, dcd_obj, prep_obj,
    AccDcdObjView, AccSyncObjView, AcceptStpObjView, Acceptedstp_obj, Consistency, Decidestp_obj,
    FAccObjView, PObjView, PaxosMsgObjView, PrpdFwdObjView, StrCmdObjView,
};
use crate::rpc::consistency_of;
use crate::server::StoreCommandView;

verus! {

proof fn lemma_commands_read(objs: Seq<StrCmdObjView>)
    ensures
        commands_of(objs).len() == objs.len(),
        forall|i: int|
            #![trigger commands_of(objs)[i]]
            #![trigger objs[i]]
            0 <= i < objs.len() ==> commands_of(objs)[i].id as int == objs[i].id as int % (usize::MAX
                + 1) && commands_of(objs)[i].sql == objs[i].sql,
{
    assert forall|i: int|
        #![trigger commands_of(objs)[i]]
        #![trigger objs[i]]
        0 <= i < objs.len() implies commands_of(objs)[i].id as int == objs[i].id as int % (usize::MAX
        + 1) && commands_of(objs)[i].sql == objs[i].sql by {
        lemma_low_usize(objs[i].id);
    }
}

/// A message is sent from its sender to its receiver, as an object of its kind and
/// of no other.
pub proof fn law_kind_sent(message: MessageView)
    ensures
        message_wire(message).from == message.from,
        message_wire(message).to == message.to,
        message_wire(message).msg is Some,
        message_wire(message).msg->0 is PrepareReq <==> message.msg is PrepareReq,
        message_wire(message).msg->0 is Prepare <==> message.msg is Prepare,
        message_wire(message).msg->0 is Promise <==> message.msg is Promise,
        message_wire(message).msg->0 is AcceptSync <==> message.msg is AcceptSync,
        message_wire(message).msg->0 is FirstAccept <==> message.msg is FirstAccept,
        message_wire(message).msg->0 is AcceptDecide <==> message.msg is AcceptDecide,
        message_wire(message).msg->0 is Accepted <==> message.msg is Accepted,
        message_wire(message).msg->0 is Decide <==> message.msg is Decide,
        message_wire(message).msg->0 is ProposalForward <==> message.msg is ProposalForward,
        message_wire(message).msg->0 is Compaction <==> message.msg is Compaction,
        message_wire(message).msg->0 is ForwardCompaction <==> message.msg is ForwardCompaction,
        message_wire(message).msg->0 is AcceptStopSign <==> message.msg is AcceptStopSign,
        message_wire(message).msg->0 is AcceptedStopSign <==> message.msg is AcceptedStopSign,
        message_wire(message).msg->0 is DecideStopSign <==> message.msg is DecideStopSign,
{
}

/// An object with a body is read as a message from its sender to its receiver, of
/// its kind and of no other.
pub proof fn law_kind_read(obj: PaxosMsgObjView)
    requires
        obj.msg is Some,
    ensures
        message_of(obj).from == obj.from,
        message_of(obj).to == obj.to,
        message_of(obj).msg is PrepareReq <==> obj.msg->0 is PrepareReq,
        message_of(obj).msg is Prepare <==> obj.msg->0 is Prepare,
        message_of(obj).msg is Promise <==> obj.msg->0 is Promise,
        message_of(obj).msg is AcceptSync <==> obj.msg->0 is AcceptSync,
        message_of(obj).msg is FirstAccept <==> obj.msg->0 is FirstAccept,
        message_of(obj).msg is AcceptDecide <==> obj.msg->0 is AcceptDecide,
        message_of(obj).msg is Accepted <==> obj.msg->0 is Accepted,
        message_of(obj).msg is Decide <==> obj.msg->0 is Decide,
        message_of(obj).msg is ProposalForward <==> obj.msg->0 is ProposalForward,
        message_of(obj).msg is Compaction <==> obj.msg->0 is Compaction,
        message_of(obj).msg is ForwardCompaction <==> obj.msg->0 is ForwardCompaction,
        message_of(obj).msg is AcceptStopSign <==> obj.msg->0 is AcceptStopSign,
        message_of(obj).msg is AcceptedStopSign <==> obj.msg->0 is AcceptedStopSign,
        message_of(obj).msg is DecideStopSign <==> obj.msg->0 is DecideStopSign,
{
}

/// A request to prepare is complete as it is.
pub proof fn law_prepare_req_read(obj: PaxosMsgObjView)
    requires
        obj.msg == Some(MsgView::PrepareReq),
    ensures
        obj.complete(),
        message_of(obj).msg is PrepareReq,
{
}

/// What `Prepare` keeps on the way out: both ballots and both indices.
pub proof fn law_prepare_sent(message: MessageView, m: Prepare)
    requires
        message.msg == PaxosMsgView::Prepare(m),
    ensures
        match message_wire(message).msg {
            Some(MsgView::Prepare(o)) => {
                &&& o.n is Some
                &&& o.n->0.n == m.n.n
                &&& o.n->0.priority == m.n.priority
                &&& o.n->0.pid == m.n.pid
                &&& o.n_accepted is Some
                &&& o.n_accepted->0.n == m.n_accepted.n
                &&& o.n_accepted->0.priority == m.n_accepted.priority
                &&& o.n_accepted->0.pid == m.n_accepted.pid
                &&& m.ld == o.ld
                &&& m.la == o.la
            },
            _ => false,
        },
{
}

/// What `Prepare` keeps on the way in: both ballots and both indices.
pub proof fn law_prepare_read(obj: PaxosMsgObjView, o: prep_obj)
    requires
        obj.msg == Some(MsgView::Prepare(o)),
        o.n is Some,
        o.n_accepted is Some,
    ensures
        obj.complete(),
        match message_of(obj).msg {
            PaxosMsgView::Prepare(m) => {
                &&& o.n is Some
                &&& o.n->0.n == m.n.n
                &&& o.n->0.priority == m.n.priority
                &&& o.n->0.pid == m.n.pid
                &&& o.n_accepted is Some
                &&& o.n_accepted->0.n == m.n_accepted.n
                &&& o.n_accepted->0.priority == m.n_accepted.priority
                &&& o.n_accepted->0.pid == m.n_accepted.pid
                &&& m.ld == o.ld
                &&& m.la == o.la
            },
            _ => false,
        },
{
}

/// What `Promise` keeps on the way out: both ballots, both indices, the sync item and the stop sign.
pub proof fn law_promise_sent(message: MessageView, m: PromiseView)
    requires
        message.msg == PaxosMsgView::Promise(m),
    ensures
        match message_wire(message).msg {
            Some(MsgView::Promise(o)) => {
                &&& o.n is Some
                &&& o.n->0.n == m.n.n
                &&& o.n->0.priority == m.n.priority
                &&& o.n->0.pid == m.n.pid
                &&& o.n_accepted is Some
                &&& o.n_accepted->0.n == m.n_accepted.n
                &&& o.n_accepted->0.priority == m.n_accepted.priority
                &&& o.n_accepted->0.pid == m.n_accepted.pid
                &&& m.ld == o.ld
                &&& m.la == o.la
                &&& (match m.sync_item {
                    Some(sm) => {
                        &&& o.sync_item matches Some(so)
                        &&& (match sm {
                            SyncItemView::Entries(es) => {
                                &&& so.item matches Some(ItemView::Entries(os))
                                &&& es.len() == os.len()
                                &&& forall|i: int|
                                    #![trigger os[i]]
                                    #![trigger es[i]]
                                    0 <= i < es.len() ==> {
                                        &&& os[i].id == es[i].id
                                        &&& es[i].sql == os[i].sql
                                    }
                            },
                            SyncItemView::Snapshot(k) => {
                                &&& so.item matches Some(ItemView::Snapshot(code))
                                &&& (k is Complete) == (code == 0)
                                &&& (k is Delta) == (code == 1)
                                &&& (k is _phtm) == (code == 2)
                            },
                            SyncItemView::Nothing => so.item matches Some(ItemView::Nothing),
                        })
                    },
                    None => o.sync_item is None,
                })
                &&& (match m.stopsign {
                    Some(sm) => {
                        &&& o.stopsign matches Some(so)
                        &&& sm.config_id == so.config_id
                        &&& sm.nodes == so.nodes
                        &&& (match sm.metadata {
                            Some(md) => {
                                &&& so.metadata matches Some(ov)
                                &&& md.len() == ov.len()
                                &&& forall|i: int|
                                    #![trigger ov[i]]
                                    #![trigger md[i]]
                                    0 <= i < md.len() ==> ov[i] == md[i]
                            },
                            None => so.metadata is None,
                        })
                    },
                    None => o.stopsign is None,
                })
            },
            _ => false,
        },
{
}

/// What `Promise` keeps on the way in: both ballots, both indices, the sync item and the stop sign.
pub proof fn law_promise_read(obj: PaxosMsgObjView, o: PObjView)
    requires
        obj.msg == Some(MsgView::Promise(o)),
        o.n is Some,
        o.n_accepted is Some,
        o.sync_item is Some ==> o.sync_item->0.item is Some,
        o.sync_item is Some ==> (o.sync_item->0.item matches Some(ItemView::Snapshot(code)) ==> 0 <= code
            <= 2),
    ensures
        obj.complete(),
        match message_of(obj).msg {
            PaxosMsgView::Promise(m) => {
                &&& o.n is Some
                &&& o.n->0.n == m.n.n
                &&& o.n->0.priority == m.n.priority
                &&& o.n->0.pid == m.n.pid
                &&& o.n_accepted is Some
                &&& o.n_accepted->0.n == m.n_accepted.n
                &&& o.n_accepted->0.priority == m.n_accepted.priority
                &&& o.n_accepted->0.pid == m.n_accepted.pid
                &&& m.ld == o.ld
                &&& m.la == o.la
                &&& (match o.sync_item {
                    Some(so) => {
                        &&& m.sync_item matches Some(sm)
                        &&& (match so.item->0 {
                            ItemView::Entries(os) => {
                                &&& sm matches SyncItemView::Entries(es)
                                &&& es.len() == os.len()
                                &&& forall|i: int|
                                    #![trigger os[i]]
                                    #![trigger es[i]]
                                    0 <= i < es.len() ==> {
                                        &&& es[i].id as int == os[i].id as int % (usize::MAX + 1)
                                        &&& es[i].sql == os[i].sql
                                    }
                            },
                            ItemView::Snapshot(code) => {
                                &&& sm matches SyncItemView::Snapshot(k)
                                &&& (k is Complete) == (code == 0)
                                &&& (k is Delta) == (code == 1)
                                &&& (k is _phtm) == (code == 2)
                            },
                            ItemView::Nothing => sm is Nothing,
                        })
                    },
                    None => m.sync_item is None,
                })
                &&& (match o.stopsign {
                    Some(so) => {
                        &&& m.stopsign matches Some(sm)
                        &&& sm.config_id == so.config_id
                        &&& sm.nodes == so.nodes
                        &&& (match so.metadata {
                            Some(ov) => {
                                &&& sm.metadata matches Some(md)
                                &&& md.len() == ov.len()
                                &&& forall|i: int|
                                    #![trigger ov[i]]
                                    #![trigger md[i]]
                                    0 <= i < md.len() ==> md[i] as int == ov[i] as int % 256
                            },
                            None => sm.metadata is None,
                        })
                    },
                    None => m.stopsign is None,
                })
            },
            _ => false,
        },
{
    if let Some(s) = o.sync_item {
        if let Some(ItemView::Entries(entries)) = s.item {
            lemma_commands_read(entries);
        }
    }
}

/// What `AcceptSync` keeps on the way out: the ballot, the indices, the sync item and the stop sign.
pub proof fn law_accept_sync_sent(message: MessageView, m: AcceptSyncView)
    requires
        message.msg == PaxosMsgView::AcceptSync(m),
    ensures
        match message_wire(message).msg {
            Some(MsgView::AcceptSync(o)) => {
                &&& o.n is Some
                &&& o.n->0.n == m.n.n
                &&& o.n->0.priority == m.n.priority
                &&& o.n->0.pid == m.n.pid
                &&& m.sync_idx == o.sync_idx
                &&& m.decide_idx == o.decide_idx
                &&& o.sync_item is Some
                &&& (match m.sync_item {
                    SyncItemView::Entries(es) => {
                        &&& o.sync_item->0.item matches Some(ItemView::Entries(os))
                        &&& es.len() == os.len()
                        &&& forall|i: int|
                            #![trigger os[i]]
                            #![trigger es[i]]
                            0 <= i < es.len() ==> {
                                &&& os[i].id == es[i].id
                                &&& es[i].sql == os[i].sql
                            }
                    },
                    SyncItemView::Snapshot(k) => {
                        &&& o.sync_item->0.item matches Some(ItemView::Snapshot(code))
                        &&& (k is Complete) == (code == 0)
                        &&& (k is Delta) == (code == 1)
                        &&& (k is _phtm) == (code == 2)
                    },
                    SyncItemView::Nothing => o.sync_item->0.item matches Some(ItemView::Nothing),
                })
                &&& (match m.stopsign {
                    Some(sm) => {
                        &&& o.stopsign matches Some(so)
                        &&& sm.config_id == so.config_id
                        &&& sm.nodes == so.nodes
                        &&& (match sm.metadata {
                            Some(md) => {
                                &&& so.metadata matches Some(ov)
                                &&& md.len() == ov.len()
                                &&& forall|i: int|
                                    #![trigger ov[i]]
                                    #![trigger md[i]]
                                    0 <= i < md.len() ==> ov[i] == md[i]
                            },
                            None => so.metadata is None,
                        })
                    },
                    None => o.stopsign is None,
                })
            },
            _ => false,
        },
{
}

/// What `AcceptSync` keeps on the way in: the ballot, the indices, the sync item and the stop sign.
pub proof fn law_accept_sync_read(obj: PaxosMsgObjView, o: AccSyncObjView)
    requires
        obj.msg == Some(MsgView::AcceptSync(o)),
        o.n is Some,
        o.sync_item is Some,
        o.sync_item->0.item is Some,
        o.sync_item->0.item matches Some(ItemView::Snapshot(code)) ==> 0 <= code <= 2,
    ensures
        obj.complete(),
        match message_of(obj).msg {
            PaxosMsgView::AcceptSync(m) => {
                &&& o.n is Some
                &&& o.n->0.n == m.n.n
                &&& o.n->0.priority == m.n.priority
                &&& o.n->0.pid == m.n.pid
                &&& m.sync_idx == o.sync_idx
                &&& m.decide_idx == o.decide_idx
                &&& o.sync_item is Some
                &&& (match o.sync_item->0.item->0 {
                    ItemView::Entries(os) => {
                        &&& m.sync_item matches SyncItemView::Entries(es)
                        &&& es.len() == os.len()
                        &&& forall|i: int|
                            #![trigger os[i]]
                            #![trigger es[i]]
                            0 <= i < es.len() ==> {
                                &&& es[i].id as int == os[i].id as int % (usize::MAX + 1)
                                &&& es[i].sql == os[i].sql
                            }
                    },
                    ItemView::Snapshot(code) => {
                        &&& m.sync_item matches SyncItemView::Snapshot(k)
                        &&& (k is Complete) == (code == 0)
                        &&& (k is Delta) == (code == 1)
                        &&& (k is _phtm) == (code == 2)
                    },
                    ItemView::Nothing => m.sync_item is Nothing,
                })
                &&& (match o.stopsign {
                    Some(so) => {
                        &&& m.stopsign matches Some(sm)
                        &&& sm.config_id == so.config_id
                        &&& sm.nodes == so.nodes
                        &&& (match so.metadata {
                            Some(ov) => {
                                &&& sm.metadata matches Some(md)
                                &&& md.len() == ov.len()
                                &&& forall|i: int|
                                    #![trigger ov[i]]
                                    #![trigger md[i]]
                                    0 <= i < md.len() ==> md[i] as int == ov[i] as int % 256
                            },
                            None => sm.metadata is None,
                        })
                    },
                    None => m.stopsign is None,
                })
            },
            _ => false,
        },
{
    if let Some(ItemView::Entries(entries)) = o.sync_item->0.item {
        lemma_commands_read(entries);
    }
}

/// What `FirstAccept` keeps on the way out: the ballot and the entries, in order.
pub proof fn law_first_accept_sent(message: MessageView, m: FirstAcceptView)
    requires
        message.msg == PaxosMsgView::FirstAccept(m),
    ensures
        match message_wire(message).msg {
            Some(MsgView::FirstAccept(o)) => {
                &&& o.n is Some
                &&& o.n->0.n == m.n.n
                &&& o.n->0.priority == m.n.priority
                &&& o.n->0.pid == m.n.pid
                &&& m.entries.len() == o.entries.len()
                &&& forall|i: int|
                    #![trigger o.entries[i]]
                    #![trigger m.entries[i]]
                    0 <= i < m.entries.len() ==> {
                        &&& o.entries[i].id == m.entries[i].id
                        &&& m.entries[i].sql == o.entries[i].sql
                    }
            },
            _ => false,
        },
{
}

/// What `FirstAccept` keeps on the way in: the ballot and the entries, in order.
pub proof fn law_first_accept_read(obj: PaxosMsgObjView, o: FAccObjView)
    requires
        obj.msg == Some(MsgView::FirstAccept(o)),
        o.n is Some,
    ensures
        obj.complete(),
        match message_of(obj).msg {
            PaxosMsgView::FirstAccept(m) => {
                &&& o.n is Some
                &&& o.n->0.n == m.n.n
                &&& o.n->0.priority == m.n.priority
                &&& o.n->0.pid == m.n.pid
                &&& m.entries.len() == o.entries.len()
                &&& forall|i: int|
                    #![trigger o.entries[i]]
                    #![trigger m.entries[i]]
                    0 <= i < m.entries.len() ==> {
                        &&& m.entries[i].id as int == o.entries[i].id as int % (usize::MAX + 1)
                        &&& m.entries[i].sql == o.entries[i].sql
                    }
            },
            _ => false,
        },
{
    lemma_commands_read(o.entries);
}

/// What `AcceptDecide` keeps on the way out: the ballot, the index and the entries, in order.
pub proof fn law_accept_decide_sent(message: MessageView, m: AcceptDecideView)
    requires
        message.msg == PaxosMsgView::AcceptDecide(m),
    ensures
        match message_wire(message).msg {
            Some(MsgView::AcceptDecide(o)) => {
                &&& o.n is Some
                &&& o.n->0.n == m.n.n
                &&& o.n->0.priority == m.n.priority
                &&& o.n->0.pid == m.n.pid
                &&& m.entries.len() == o.entries.len()
                &&& forall|i: int|
                    #![trigger o.entries[i]]
                    #![trigger m.entries[i]]
                    0 <= i < m.entries.len() ==> {
                        &&& o.entries[i].id == m.entries[i].id
                        &&& m.entries[i].sql == o.entries[i].sql
                    }
                &&& m.ld == o.ld
            },
            _ => false,
        },
{
}

/// What `AcceptDecide` keeps on the way in: the ballot, the index and the entries, in order.
pub proof fn law_accept_decide_read(obj: PaxosMsgObjView, o: AccDcdObjView)
    requires
        obj.msg == Some(MsgView::AcceptDecide(o)),
        o.n is Some,
    ensures
        obj.complete(),
        match message_of(obj).msg {
            PaxosMsgView::AcceptDecide(m) => {
                &&& o.n is Some
                &&& o.n->0.n == m.n.n
                &&& o.n->0.priority == m.n.priority
                &&& o.n->0.pid == m.n.pid
                &&& m.entries.len() == o.entries.len()
                &&& forall|i: int|
                    #![trigger o.entries[i]]
                    #![trigger m.entries[i]]
                    0 <= i < m.entries.len() ==> {
                        &&& m.entries[i].id as int == o.entries[i].id as int % (usize::MAX + 1)
                        &&& m.entries[i].sql == o.entries[i].sql
                    }
                &&& m.ld == o.ld
            },
            _ => false,
        },
{
    lemma_commands_read(o.entries);
}

/// What `Accepted` keeps on the way out: the ballot and the index.
pub proof fn law_accepted_sent(message: MessageView, m: Accepted)
    requires
        message.msg == PaxosMsgView::Accepted(m),
    ensures
        match message_wire(message).msg {
            Some(MsgView::Accepted(o)) => {
                &&& o.n is Some
                &&& o.n->0.n == m.n.n
                &&& o.n->0.priority == m.n.priority
                &&& o.n->0.pid == m.n.pid
                &&& m.la == o.la
            },
            _ => false,
        },
{
}

/// What `Accepted` keeps on the way in: the ballot and the index.
pub proof fn law_accepted_read(obj: PaxosMsgObjView, o: acc_ed_obj)
    requires
        obj.msg == Some(MsgView::Accepted(o)),
        o.n is Some,
    ensures
        obj.complete(),
        match message_of(obj).msg {
            PaxosMsgView::Accepted(m) => {
                &&& o.n is Some
                &&& o.n->0.n == m.n.n
                &&& o.n->0.priority == m.n.priority
                &&& o.n->0.pid == m.n.pid
                &&& m.la == o.la
            },
            _ => false,
        },
{
}

/// What `Decide` keeps on the way out: the ballot and the index.
pub proof fn law_decide_sent(message: MessageView, m: Decide)
    requires
        message.msg == PaxosMsgView::Decide(m),
    ensures
        match message_wire(message).msg {
            Some(MsgView::Decide(o)) => {
                &&& o.n is Some
                &&& o.n->0.n == m.n.n
                &&& o.n->0.priority == m.n.priority
                &&& o.n->0.pid == m.n.pid
                &&& m.ld == o.ld
            },
            _ => false,
        },
{
}

/// What `Decide` keeps on the way in: the ballot and the index.
pub proof fn law_decide_read(obj: PaxosMsgObjView, o: dcd_obj)
    requires
        obj.msg == Some(MsgView::Decide(o)),
        o.n is Some,
    ensures
        obj.complete(),
        match message_of(obj).msg {
            PaxosMsgView::Decide(m) => {
                &&& o.n is Some
                &&& o.n->0.n == m.n.n
                &&& o.n->0.priority == m.n.priority
                &&& o.n->0.pid == m.n.pid
                &&& m.ld == o.ld
            },
            _ => false,
        },
{
}

/// What `ProposalForward` keeps on the way out: the commands, in order.
pub proof fn law_proposal_forward_sent(message: MessageView, m: Seq<StoreCommandView>)
    requires
        message.msg == PaxosMsgView::ProposalForward(m),
    ensures
        match message_wire(message).msg {
            Some(MsgView::ProposalForward(o)) => {
                &&& m.len() == o.entries.len()
                &&& forall|i: int|
                    #![trigger o.entries[i]]
                    #![trigger m[i]]
                    0 <= i < m.len() ==> {
                        &&& o.entries[i].id == m[i].id
                        &&& m[i].sql == o.entries[i].sql
                    }
            },
            _ => false,
        },
{
}

/// What `ProposalForward` keeps on the way in: the commands, in order.
pub proof fn law_proposal_forward_read(obj: PaxosMsgObjView, o: PrpdFwdObjView)
    requires
        obj.msg == Some(MsgView::ProposalForward(o)),
    ensures
        obj.complete(),
        match message_of(obj).msg {
            PaxosMsgView::ProposalForward(m) => {
                &&& m.len() == o.entries.len()
                &&& forall|i: int|
                    #![trigger o.entries[i]]
                    #![trigger m[i]]
                    0 <= i < m.len() ==> {
                        &&& m[i].id as int == o.entries[i].id as int % (usize::MAX + 1)
                        &&& m[i].sql == o.entries[i].sql
                    }
            },
            _ => false,
        },
{
    lemma_commands_read(o.entries);
}

/// What `Compaction` keeps on the way out: the kind of compaction and its index.
pub proof fn law_compaction_sent(message: MessageView, m: Compaction)
    requires
        message.msg == PaxosMsgView::Compaction(m),
    ensures
        match message_wire(message).msg {
            Some(MsgView::Compaction(o)) => {
                &&& (match m {
                    Compaction::Trim(t) => {
                        &&& o.compaction matches Some(compaction_object::Compaction::Trim(ot))
                        &&& ot.trim == t
                    },
                    Compaction::Snapshot(s) => o.compaction == Some(compaction_object::Compaction::Snapshot(s)),
                })
            },
            _ => false,
        },
{
}

/// What `Compaction` keeps on the way in: the kind of compaction and its index.
pub proof fn law_compaction_read(obj: PaxosMsgObjView, o: comp_obj)
    requires
        obj.msg == Some(MsgView::Compaction(o)),
        o.compaction is Some,
    ensures
        obj.complete(),
        match message_of(obj).msg {
            PaxosMsgView::Compaction(m) => {
                &&& (match o.compaction->0 {
                    compaction_object::Compaction::Trim(ot) => m == Compaction::Trim(ot.trim),
                    compaction_object::Compaction::Snapshot(s) => m == Compaction::Snapshot(s),
                })
            },
            _ => false,
        },
{
}

/// What `ForwardCompaction` keeps on the way out: the kind of compaction and its index.
pub proof fn law_forward_compaction_sent(message: MessageView, m: Compaction)
    requires
        message.msg == PaxosMsgView::ForwardCompaction(m),
    ensures
        match message_wire(message).msg {
            Some(MsgView::ForwardCompaction(o)) => {
                &&& (match m {
                    Compaction::Trim(t) => {
                        &&& o.compaction matches Some(compaction_object::Compaction::Trim(ot))
                        &&& ot.trim == t
                    },
                    Compaction::Snapshot(s) => o.compaction == Some(compaction_object::Compaction::Snapshot(s)),
                })
            },
            _ => false,
        },
{
}

/// What `ForwardCompaction` keeps on the way in: the kind of compaction and its index.
pub proof fn law_forward_compaction_read(obj: PaxosMsgObjView, o: comp_obj)
    requires
        obj.msg == Some(MsgView::ForwardCompaction(o)),
        o.compaction is Some,
    ensures
        obj.complete(),
        match message_of(obj).msg {
            PaxosMsgView::ForwardCompaction(m) => {
                &&& (match o.compaction->0 {
                    compaction_object::Compaction::Trim(ot) => m == Compaction::Trim(ot.trim),
                    compaction_object::Compaction::Snapshot(s) => m == Compaction::Snapshot(s),
                })
            },
            _ => false,
        },
{
}

/// What `AcceptStopSign` keeps on the way out: the ballot and the stop sign.
pub proof fn law_accept_stop_sign_sent(message: MessageView, m: AcceptStopSignView)
    requires
        message.msg == PaxosMsgView::AcceptStopSign(m),
    ensures
        match message_wire(message).msg {
            Some(MsgView::AcceptStopSign(o)) => {
                &&& o.n is Some
                &&& o.n->0.n == m.n.n
                &&& o.n->0.priority == m.n.priority
                &&& o.n->0.pid == m.n.pid
                &&& o.ss is Some
                &&& m.ss.config_id == o.ss->0.config_id
                &&& m.ss.nodes == o.ss->0.nodes
                &&& (match m.ss.metadata {
                    Some(md) => {
                        &&& o.ss->0.metadata matches Some(ov)
                        &&& md.len() == ov.len()
                        &&& forall|i: int|
                            #![trigger ov[i]]
                            #![trigger md[i]]
                            0 <= i < md.len() ==> ov[i] == md[i]
                    },
                    None => o.ss->0.metadata is None,
                })
            },
            _ => false,
        },
{
}

/// What `AcceptStopSign` keeps on the way in: the ballot and the stop sign.
pub proof fn law_accept_stop_sign_read(obj: PaxosMsgObjView, o: AcceptStpObjView)
    requires
        obj.msg == Some(MsgView::AcceptStopSign(o)),
        o.n is Some,
        o.ss is Some,
    ensures
        obj.complete(),
        match message_of(obj).msg {
            PaxosMsgView::AcceptStopSign(m) => {
                &&& o.n is Some
                &&& o.n->0.n == m.n.n
                &&& o.n->0.priority == m.n.priority
                &&& o.n->0.pid == m.n.pid
                &&& o.ss is Some
                &&& m.ss.config_id == o.ss->0.config_id
                &&& m.ss.nodes == o.ss->0.nodes
                &&& (match o.ss->0.metadata {
                    Some(ov) => {
                        &&& m.ss.metadata matches Some(md)
                        &&& md.len() == ov.len()
                        &&& forall|i: int|
                            #![trigger ov[i]]
                            #![trigger md[i]]
                            0 <= i < md.len() ==> md[i] as int == ov[i] as int % 256
                    },
                    None => m.ss.metadata is None,
                })
            },
            _ => false,
        },
{
}

/// What `AcceptedStopSign` keeps on the way out: the ballot.
pub proof fn law_accepted_stop_sign_sent(message: MessageView, m: AcceptedStopSign)
    requires
        message.msg == PaxosMsgView::AcceptedStopSign(m),
    ensures
        match message_wire(message).msg {
            Some(MsgView::AcceptedStopSign(o)) => {
                &&& o.n is Some
                &&& o.n->0.n == m.n.n
                &&& o.n->0.priority == m.n.priority
                &&& o.n->0.pid == m.n.pid
            },
            _ => false,
        },
{
}

/// What `AcceptedStopSign` keeps on the way in: the ballot.
pub proof fn law_accepted_stop_sign_read(obj: PaxosMsgObjView, o: Acceptedstp_obj)
    requires
        obj.msg == Some(MsgView::AcceptedStopSign(o)),
        o.n is Some,
    ensures
        obj.complete(),
        match message_of(obj).msg {
            PaxosMsgView::AcceptedStopSign(m) => {
                &&& o.n is Some
                &&& o.n->0.n == m.n.n
                &&& o.n->0.priority == m.n.priority
                &&& o.n->0.pid == m.n.pid
            },
            _ => false,
        },
{
}

/// What `DecideStopSign` keeps on the way out: the ballot.
pub proof fn law_decide_stop_sign_sent(message: MessageView, m: DecideStopSign)
    requires
        message.msg == PaxosMsgView::DecideStopSign(m),
    ensures
        match message_wire(message).msg {
            Some(MsgView::DecideStopSign(o)) => {
                &&& o.n is Some
                &&& o.n->0.n == m.n.n
                &&& o.n->0.priority == m.n.priority
                &&& o.n->0.pid == m.n.pid
            },
            _ => false,
        },
{
}

/// What `DecideStopSign` keeps on the way in: the ballot.
pub proof fn law_decide_stop_sign_read(obj: PaxosMsgObjView, o: Decidestp_obj)
    requires
        obj.msg == Some(MsgView::DecideStopSign(o)),
        o.n is Some,
    ensures
        obj.complete(),
        match message_of(obj).msg {
            PaxosMsgView::DecideStopSign(m) => {
                &&& o.n is Some
                &&& o.n->0.n == m.n.n
                &&& o.n->0.priority == m.n.priority
                &&& o.n->0.pid == m.n.pid
            },
            _ => false,
        },
{
}

/// A heartbeat is sent from its sender to its receiver, as an object of its kind,
/// with the round, the ballot and the connectedness that it has.
pub proof fn law_heartbeat_sent(message: BLEMessage)
    ensures
        message.from == ble_message_wire(message).from,
        message.to == ble_message_wire(message).to,
        match message.msg {
            bestMsg::Request(rm) => {
                &&& ble_message_wire(message).msg matches Some(ble_message_object::Msg::bestReq(ro))
                &&& rm.round == ro.round
            },
            bestMsg::Reply(rm) => {
                &&& ble_message_wire(message).msg matches Some(ble_message_object::Msg::bestRep(ro))
                &&& rm.round == ro.round
                &&& rm.majority_connected == ro.majority_connected
                &&& ro.ballot is Some
                &&& ro.ballot->0.n == rm.ballot.n
                &&& ro.ballot->0.priority == rm.ballot.priority
                &&& ro.ballot->0.pid == rm.ballot.pid
            },
        },
{
}

/// A heartbeat is read as a message of its kind, with the round, the ballot and the
/// connectedness of the object; a reply that lacks its ballot is not complete.
pub proof fn law_heartbeat_read(obj: ble_msg__obj)
    ensures
        ble_message_of(obj).from == obj.from,
        ble_message_of(obj).to == obj.to,
        match obj.msg {
            Some(ble_message_object::Msg::bestReq(ro)) => {
                &&& obj.complete()
                &&& ble_message_of(obj).msg matches bestMsg::Request(rm)
                &&& rm.round == ro.round
            },
            Some(ble_message_object::Msg::bestRep(ro)) => {
                &&& obj.complete() == ro.ballot is Some
                &&& ro.ballot is Some ==> {
                    &&& ble_message_of(obj).msg matches bestMsg::Reply(rm)
                    &&& rm.round == ro.round
                    &&& rm.majority_connected == ro.majority_connected
                    &&& ro.ballot is Some
                    &&& ro.ballot->0.n == rm.ballot.n
                    &&& ro.ballot->0.priority == rm.ballot.priority
                    &&& ro.ballot->0.pid == rm.ballot.pid
                }
            },
            None => !obj.complete(),
        },
{
}

/// Each kind of snapshot has a number of its own, and no other number stands for a
/// kind.
pub proof fn law_snapshot_numbers(kind: Snapshot, code: i32)
    ensures
        kind.code() == 0 <==> kind is Complete,
        kind.code() == 1 <==> kind is Delta,
        kind.code() == 2 <==> kind is phtm,
        Snapshot::of_code(kind.code()) == Some(kind),
        Snapshot::of_code(code) is Some <==> 0 <= code <= 2,
{
}

/// A query is relaxed where it asks for relaxed reads, and strong with any other
/// number.
pub proof fn law_relaxed_where_asked(code: i32)
    ensures
        Consistency::Strong.code() == 0,
        Consistency::RelaxedReads.code() == 1,
        consistency_of(code) is RelaxedReads <==> code == 1,
        consistency_of(code) is Strong <==> code != 1,
{
}

} // verus!
