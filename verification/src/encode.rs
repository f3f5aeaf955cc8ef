//! From messages to wire objects.
//!
//! Each function states the model of the object that it builds as a function of
//! the model of its argument, named `.._wire`.
use vstd::prelude::*;

use crate::ballot_leader_election::{bestMsg, bestReply, bestRequest, BLEMessage, Ballot};
use crate::messages::{
    AcceptDecide, AcceptDecideView, AcceptStopSign, AcceptStopSignView, AcceptSync, AcceptSyncView,
    Accepted, AcceptedStopSign, Compaction, Decide, DecideStopSign, FirstAccept, FirstAcceptView,
    Message, MessageView, PaxosMsg, PaxosMsgView, Prepare, Promise, PromiseView, SnapshotType,
    StopSign, StopSignView, SyncItem, SyncItemView,
};
use crate::proto::paxos_msg_object::MsgView;
use crate::proto::sync_item_object::ItemView;
use crate::proto::{
    acc_dcd_obj, acc_ed_obj, acc_sync_obj, ballot_obj, beat_rep_obj, beat_req_obj, ble_message_object,
    ble_msg__obj, command_objs_view, comp_obj, compaction_object, dcd_obj, f_acc_obj, p_obj,
    paxos_msg_obj, paxos_msg_object, prep_obj, prpd_fwd_obj, prpd_r_obj, stop_sign_object, stp_obj,
    str_cmd_obj, sync_item_object, sync_itm_obj, AccDcdObjView, AccSyncObjView, AcceptStpObjView,
    Acceptedstp_obj, Acceptstp_obj, Decidestp_obj, FAccObjView, PObjView, PaxosMsgObjView,
    PrpdFwdObjView, StpObjView, StrCmdObjView, SyncItmObjView,
};
use crate::server::{commands_view, StoreCommand, StoreCommandView};

verus! {

pub open spec fn ballot_wire(ballot: Ballot) -> ballot_obj {
    ballot_obj { n: ballot.n, priority: ballot.priority, pid: ballot.pid }
}

/// Builds the wire form of a ballot.
pub fn balt_proto(ballot: Ballot) -> (obj: ballot_obj)
    ensures
        obj == ballot_wire(ballot),
        obj.n == ballot.n,
        obj.priority == ballot.priority,
        obj.pid == ballot.pid,
{
    ballot_obj { n: ballot.n, priority: ballot.priority, pid: ballot.pid }
}

pub open spec fn prepare_wire(prepare: Prepare) -> prep_obj {
    prep_obj {
        n: Some(ballot_wire(prepare.n)),
        ld: prepare.ld,
        n_accepted: Some(ballot_wire(prepare.n_accepted)),
        la: prepare.la,
    }
}

/// Builds the wire form of a [`Prepare`].
pub fn prep_proto(prepare: Prepare) -> (obj: prep_obj)
    ensures
        obj == prepare_wire(prepare),
        obj.n is Some,
        obj.n->0.n == prepare.n.n,
        obj.n->0.priority == prepare.n.priority,
        obj.n->0.pid == prepare.n.pid,
        obj.n_accepted is Some,
        obj.n_accepted->0.n == prepare.n_accepted.n,
        obj.n_accepted->0.priority == prepare.n_accepted.priority,
        obj.n_accepted->0.pid == prepare.n_accepted.pid,
        prepare.ld == obj.ld,
        prepare.la == obj.la,
{
    prep_obj {
        n: Some(balt_proto(prepare.n)),
        ld: prepare.ld,
        n_accepted: Some(balt_proto(prepare.n_accepted)),
        la: prepare.la,
    }
}

pub open spec fn command_wire(cmd: StoreCommandView) -> StrCmdObjView {
    StrCmdObjView { id: cmd.id as u64, sql: cmd.sql }
}

/// Builds the wire form of a command. A `usize` always fits in a `u64`.
pub fn str_cmd_proto(cmd: StoreCommand) -> (obj: str_cmd_obj)
    ensures
        obj@ == command_wire(cmd@),
        obj.id == cmd.id,
        obj.sql@ == cmd.sql@,
{
    str_cmd_obj { id: cmd.id as u64, sql: cmd.sql }
}

pub open spec fn commands_wire(cmds: Seq<StoreCommandView>) -> Seq<StrCmdObjView> {
    cmds.map_values(|c: StoreCommandView| command_wire(c))
}

/// Builds the wire form of a list of commands, in order.
fn commands_proto(cmds: Vec<StoreCommand>) -> (objs: Vec<str_cmd_obj>)
    ensures
        command_objs_view(objs@) == commands_wire(commands_view(cmds@)),
        cmds@.len() == objs@.len(),
        forall|i: int|
            #![trigger objs@[i]]
            #![trigger cmds@[i]]
            0 <= i < cmds@.len() ==> {
                &&& objs@[i].id == cmds@[i].id
                &&& cmds@[i].sql@ == objs@[i].sql@
            },
{
    let mut objs: Vec<str_cmd_obj> = Vec::new();
    for cmd in iter: cmds.into_iter()
        invariant
            objs.len() == iter.index(),
            forall|i: int| 0 <= i < objs.len() ==> {
                &&& (#[trigger] objs@[i])@ == command_wire(iter.seq()[i]@)
                &&& objs@[i].id == iter.seq()[i].id
                &&& objs@[i].sql@ == iter.seq()[i].sql@
            },
    {
        objs.push(str_cmd_proto(cmd));
    }
    assert(command_objs_view(objs@) =~= commands_wire(commands_view(cmds@)));
    objs
}

/// The wire kind of a kind of snapshot.
pub open spec fn snapshot_wire(ss: SnapshotType) -> sync_item_object::Snapshot {
    match ss {
        SnapshotType::Complete => sync_item_object::Snapshot::Complete,
        SnapshotType::Delta => sync_item_object::Snapshot::Delta,
        SnapshotType::_phtm => sync_item_object::Snapshot::phtm,
    }
}

pub open spec fn sync_item_wire(sync_item: SyncItemView) -> SyncItmObjView {
    SyncItmObjView {
        item: Some(
            match sync_item {
                SyncItemView::Entries(entries) => ItemView::Entries(commands_wire(entries)),
                SyncItemView::Snapshot(ss) => ItemView::Snapshot(snapshot_wire(ss).code()),
                SyncItemView::Nothing => ItemView::Nothing,
            },
        ),
    }
}

/// Builds the wire form of a [`SyncItem`].
pub fn syn_itm_proto(sync_item: SyncItem) -> (obj: sync_itm_obj)
    ensures
        obj@ == sync_item_wire(sync_item@),
        match sync_item {
            SyncItem::Entries(es) => {
                &&& obj.item matches Some(sync_item_object::Item::Entries(os))
                &&& es@.len() == os.vec@.len()
                &&& forall|i: int|
                    #![trigger os.vec@[i]]
                    #![trigger es@[i]]
                    0 <= i < es@.len() ==> {
                        &&& os.vec@[i].id == es@[i].id
                        &&& es@[i].sql@ == os.vec@[i].sql@
                    }
            },
            SyncItem::Snapshot(k) => {
                &&& obj.item matches Some(sync_item_object::Item::Snapshot(code))
                &&& (k is Complete) == (code == 0)
                &&& (k is Delta) == (code == 1)
                &&& (k is _phtm) == (code == 2)
            },
            SyncItem::Nothing => obj.item matches Some(sync_item_object::Item::Nothing(_)),
        },
{
    sync_itm_obj {
        item: Some(
            match sync_item {
                SyncItem::Entries(vec) => sync_item_object::Item::Entries(
                    sync_item_object::Entries { vec: commands_proto(vec) },
                ),
                SyncItem::Snapshot(ss) => match ss {
                    SnapshotType::Complete => sync_item_object::Item::Snapshot(
                        sync_item_object::Snapshot::Complete.to_i32(),
                    ),
                    SnapshotType::Delta => sync_item_object::Item::Snapshot(
                        sync_item_object::Snapshot::Delta.to_i32(),
                    ),
                    SnapshotType::_phtm => sync_item_object::Item::Snapshot(
                        sync_item_object::Snapshot::phtm.to_i32(),
                    ),
                },
                SyncItem::Nothing => sync_item_object::Item::Nothing(sync_item_object::Nothing {  }),
            },
        ),
    }
}

/// Each byte of the metadata, as a 32-bit number.
pub open spec fn metadata_wire(metadata: Seq<u8>) -> Seq<u32> {
    metadata.map_values(|m: u8| m as u32)
}

/// Widens each byte of the metadata, in order.
fn metadata_proto(metadata: Vec<u8>) -> (vec: Vec<u32>)
    ensures
        vec@ == metadata_wire(metadata@),
        metadata@.len() == vec@.len(),
        forall|i: int|
            #![trigger vec@[i]]
            #![trigger metadata@[i]]
            0 <= i < metadata@.len() ==> vec@[i] == metadata@[i],
{
    let mut vec: Vec<u32> = Vec::new();
    for m in iter: metadata.into_iter()
        invariant
            vec.len() == iter.index(),
            forall|i: int| 0 <= i < vec.len() ==> #[trigger] vec@[i] == iter.seq()[i] as u32,
    {
        vec.push(m as u32);
    }
    assert(vec@ =~= metadata_wire(metadata@));
    vec
}

pub open spec fn stop_sign_wire(stop_sign: StopSignView) -> StpObjView {
    StpObjView {
        config_id: stop_sign.config_id,
        nodes: stop_sign.nodes,
        metadata: match stop_sign.metadata {
            Some(md) => Some(metadata_wire(md)),
            None => None,
        },
    }
}

/// Builds the wire form of a [`StopSign`].
pub fn stop_sign_proto(stop_sign: StopSign) -> (obj: stp_obj)
    ensures
        obj@ == stop_sign_wire(stop_sign@),
        stop_sign.config_id == obj.config_id,
        stop_sign.nodes@ == obj.nodes@,
        match stop_sign.metadata {
            Some(md) => {
                &&& obj.metadata matches Some(ov)
                &&& md@.len() == ov.vec@.len()
                &&& forall|i: int|
                    #![trigger ov.vec@[i]]
                    #![trigger md@[i]]
                    0 <= i < md@.len() ==> ov.vec@[i] == md@[i]
            },
            None => obj.metadata is None,
        },
{
    stp_obj {
        config_id: stop_sign.config_id,
        nodes: stop_sign.nodes,
        metadata: match stop_sign.metadata {
            Some(vec) => Some(stop_sign_object::Metadata { vec: metadata_proto(vec) }),
            None => None,
        },
    }
}

pub open spec fn opt_stop_sign_wire(stop_sign: Option<StopSignView>) -> Option<StpObjView> {
    match stop_sign {
        Some(ss) => Some(stop_sign_wire(ss)),
        None => None,
    }
}

pub open spec fn promise_wire(promise: PromiseView) -> PObjView {
    PObjView {
        n: Some(ballot_wire(promise.n)),
        n_accepted: Some(ballot_wire(promise.n_accepted)),
        sync_item: match promise.sync_item {
            Some(s) => Some(sync_item_wire(s)),
            None => None,
        },
        ld: promise.ld,
        la: promise.la,
        stopsign: opt_stop_sign_wire(promise.stopsign),
    }
}

/// Builds the wire form of a [`Promise`].
pub fn promise_proto(promise: Promise) -> (obj: p_obj)
    ensures
        obj@ == promise_wire(promise@),
        obj.n is Some,
        obj.n->0.n == promise.n.n,
        obj.n->0.priority == promise.n.priority,
        obj.n->0.pid == promise.n.pid,
        obj.n_accepted is Some,
        obj.n_accepted->0.n == promise.n_accepted.n,
        obj.n_accepted->0.priority == promise.n_accepted.priority,
        obj.n_accepted->0.pid == promise.n_accepted.pid,
        promise.ld == obj.ld,
        promise.la == obj.la,
        match promise.sync_item {
            Some(sm) => {
                &&& obj.sync_item matches Some(so)
                &&& (match sm {
                    SyncItem::Entries(es) => {
                        &&& so.item matches Some(sync_item_object::Item::Entries(os))
                        &&& es@.len() == os.vec@.len()
                        &&& forall|i: int|
                            #![trigger os.vec@[i]]
                            #![trigger es@[i]]
                            0 <= i < es@.len() ==> {
                                &&& os.vec@[i].id == es@[i].id
                                &&& es@[i].sql@ == os.vec@[i].sql@
                            }
                    },
                    SyncItem::Snapshot(k) => {
                        &&& so.item matches Some(sync_item_object::Item::Snapshot(code))
                        &&& (k is Complete) == (code == 0)
                        &&& (k is Delta) == (code == 1)
                        &&& (k is _phtm) == (code == 2)
                    },
                    SyncItem::Nothing => so.item matches Some(sync_item_object::Item::Nothing(_)),
                })
            },
            None => obj.sync_item is None,
        },
        match promise.stopsign {
            Some(sm) => {
                &&& obj.stopsign matches Some(so)
                &&& sm.config_id == so.config_id
                &&& sm.nodes@ == so.nodes@
                &&& (match sm.metadata {
                    Some(md) => {
                        &&& so.metadata matches Some(ov)
                        &&& md@.len() == ov.vec@.len()
                        &&& forall|i: int|
                            #![trigger ov.vec@[i]]
                            #![trigger md@[i]]
                            0 <= i < md@.len() ==> ov.vec@[i] == md@[i]
                    },
                    None => so.metadata is None,
                })
            },
            None => obj.stopsign is None,
        },
{
    p_obj {
        n: Some(balt_proto(promise.n)),
        n_accepted: Some(balt_proto(promise.n_accepted)),
        sync_item: match promise.sync_item {
            Some(s) => Some(syn_itm_proto(s)),
            None => None,
        },
        ld: promise.ld,
        la: promise.la,
        stopsign: match promise.stopsign {
            Some(ss) => Some(stop_sign_proto(ss)),
            None => None,
        },
    }
}

pub open spec fn accept_sync_wire(accept_sync: AcceptSyncView) -> AccSyncObjView {
    AccSyncObjView {
        n: Some(ballot_wire(accept_sync.n)),
        sync_item: Some(sync_item_wire(accept_sync.sync_item)),
        sync_idx: accept_sync.sync_idx,
        decide_idx: accept_sync.decide_idx,
        stopsign: opt_stop_sign_wire(accept_sync.stopsign),
    }
}

/// Builds the wire form of an [`AcceptSync`].
pub fn accept_sync_proto(accept_sync: AcceptSync) -> (obj: acc_sync_obj)
    ensures
        obj@ == accept_sync_wire(accept_sync@),
        obj.n is Some,
        obj.n->0.n == accept_sync.n.n,
        obj.n->0.priority == accept_sync.n.priority,
        obj.n->0.pid == accept_sync.n.pid,
        accept_sync.sync_idx == obj.sync_idx,
        accept_sync.decide_idx == obj.decide_idx,
        obj.sync_item is Some,
        match accept_sync.sync_item {
            SyncItem::Entries(es) => {
                &&& obj.sync_item->0.item matches Some(sync_item_object::Item::Entries(os))
                &&& es@.len() == os.vec@.len()
                &&& forall|i: int|
                    #![trigger os.vec@[i]]
                    #![trigger es@[i]]
                    0 <= i < es@.len() ==> {
                        &&& os.vec@[i].id == es@[i].id
                        &&& es@[i].sql@ == os.vec@[i].sql@
                    }
            },
            SyncItem::Snapshot(k) => {
                &&& obj.sync_item->0.item matches Some(sync_item_object::Item::Snapshot(code))
                &&& (k is Complete) == (code == 0)
                &&& (k is Delta) == (code == 1)
                &&& (k is _phtm) == (code == 2)
            },
            SyncItem::Nothing => obj.sync_item->0.item matches Some(sync_item_object::Item::Nothing(_)),
        },
        match accept_sync.stopsign {
            Some(sm) => {
                &&& obj.stopsign matches Some(so)
                &&& sm.config_id == so.config_id
                &&& sm.nodes@ == so.nodes@
                &&& (match sm.metadata {
                    Some(md) => {
                        &&& so.metadata matches Some(ov)
                        &&& md@.len() == ov.vec@.len()
                        &&& forall|i: int|
                            #![trigger ov.vec@[i]]
                            #![trigger md@[i]]
                            0 <= i < md@.len() ==> ov.vec@[i] == md@[i]
                    },
                    None => so.metadata is None,
                })
            },
            None => obj.stopsign is None,
        },
{
    acc_sync_obj {
        n: Some(balt_proto(accept_sync.n)),
        sync_item: Some(syn_itm_proto(accept_sync.sync_item)),
        sync_idx: accept_sync.sync_idx,
        decide_idx: accept_sync.decide_idx,
        stopsign: match accept_sync.stopsign {
            Some(ss) => Some(stop_sign_proto(ss)),
            None => None,
        },
    }
}

pub open spec fn first_accept_wire(first_accept: FirstAcceptView) -> FAccObjView {
    FAccObjView {
        n: Some(ballot_wire(first_accept.n)),
        entries: commands_wire(first_accept.entries),
    }
}

/// Builds the wire form of a [`FirstAccept`].
pub fn first_accept_proto(first_accept: FirstAccept) -> (obj: f_acc_obj)
    ensures
        obj@ == first_accept_wire(first_accept@),
        obj.n is Some,
        obj.n->0.n == first_accept.n.n,
        obj.n->0.priority == first_accept.n.priority,
        obj.n->0.pid == first_accept.n.pid,
        first_accept.entries@.len() == obj.entries@.len(),
        forall|i: int|
            #![trigger obj.entries@[i]]
            #![trigger first_accept.entries@[i]]
            0 <= i < first_accept.entries@.len() ==> {
                &&& obj.entries@[i].id == first_accept.entries@[i].id
                &&& first_accept.entries@[i].sql@ == obj.entries@[i].sql@
            },
{
    f_acc_obj {
        n: Some(balt_proto(first_accept.n)),
        entries: commands_proto(first_accept.entries),
    }
}

pub open spec fn accept_decide_wire(accept_decide: AcceptDecideView) -> AccDcdObjView {
    AccDcdObjView {
        n: Some(ballot_wire(accept_decide.n)),
        ld: accept_decide.ld,
        entries: commands_wire(accept_decide.entries),
    }
}

/// Builds the wire form of an [`AcceptDecide`].
pub fn accept_decide_proto(accept_decide: AcceptDecide) -> (obj: acc_dcd_obj)
    ensures
        obj@ == accept_decide_wire(accept_decide@),
        obj.n is Some,
        obj.n->0.n == accept_decide.n.n,
        obj.n->0.priority == accept_decide.n.priority,
        obj.n->0.pid == accept_decide.n.pid,
        accept_decide.entries@.len() == obj.entries@.len(),
        forall|i: int|
            #![trigger obj.entries@[i]]
            #![trigger accept_decide.entries@[i]]
            0 <= i < accept_decide.entries@.len() ==> {
                &&& obj.entries@[i].id == accept_decide.entries@[i].id
                &&& accept_decide.entries@[i].sql@ == obj.entries@[i].sql@
            },
        accept_decide.ld == obj.ld,
{
    acc_dcd_obj {
        n: Some(balt_proto(accept_decide.n)),
        ld: accept_decide.ld,
        entries: commands_proto(accept_decide.entries),
    }
}

pub open spec fn accepted_wire(accepted: Accepted) -> acc_ed_obj {
    acc_ed_obj { n: Some(ballot_wire(accepted.n)), la: accepted.la }
}

/// Builds the wire form of an [`Accepted`].
pub fn accepted_proto(accepted: Accepted) -> (obj: acc_ed_obj)
    ensures
        obj == accepted_wire(accepted),
        obj.n is Some,
        obj.n->0.n == accepted.n.n,
        obj.n->0.priority == accepted.n.priority,
        obj.n->0.pid == accepted.n.pid,
        accepted.la == obj.la,
{
    acc_ed_obj { n: Some(balt_proto(accepted.n)), la: accepted.la }
}

pub open spec fn decide_wire(decide: Decide) -> dcd_obj {
    dcd_obj { n: Some(ballot_wire(decide.n)), ld: decide.ld }
}

/// Builds the wire form of a [`Decide`].
pub fn decide_proto(decide: Decide) -> (obj: dcd_obj)
    ensures
        obj == decide_wire(decide),
        obj.n is Some,
        obj.n->0.n == decide.n.n,
        obj.n->0.priority == decide.n.priority,
        obj.n->0.pid == decide.n.pid,
        decide.ld == obj.ld,
{
    dcd_obj { n: Some(balt_proto(decide.n)), ld: decide.ld }
}

pub open spec fn proposal_forward_wire(proposals: Seq<StoreCommandView>) -> PrpdFwdObjView {
    PrpdFwdObjView { entries: commands_wire(proposals) }
}

/// Builds the wire form of forwarded proposals.
pub fn proposal_forward_proto(proposals: Vec<StoreCommand>) -> (obj: prpd_fwd_obj)
    ensures
        obj@ == proposal_forward_wire(commands_view(proposals@)),
        proposals@.len() == obj.entries@.len(),
        forall|i: int|
            #![trigger obj.entries@[i]]
            #![trigger proposals@[i]]
            0 <= i < proposals@.len() ==> {
                &&& obj.entries@[i].id == proposals@[i].id
                &&& proposals@[i].sql@ == obj.entries@[i].sql@
            },
{
    prpd_fwd_obj { entries: commands_proto(proposals) }
}

pub open spec fn compaction_wire(compaction: Compaction) -> comp_obj {
    comp_obj {
        compaction: Some(
            match compaction {
                Compaction::Trim(trim) => compaction_object::Compaction::Trim(
                    compaction_object::Trim { trim },
                ),
                Compaction::Snapshot(ss) => compaction_object::Compaction::Snapshot(ss),
            },
        ),
    }
}

/// Builds the wire form of a [`Compaction`].
pub fn compaction_proto(compaction: Compaction) -> (obj: comp_obj)
    ensures
        obj == compaction_wire(compaction),
        match compaction {
            Compaction::Trim(t) => {
                &&& obj.compaction matches Some(compaction_object::Compaction::Trim(ot))
                &&& ot.trim == t
            },
            Compaction::Snapshot(s) => obj.compaction == Some(compaction_object::Compaction::Snapshot(s)),
        },
{
    comp_obj {
        compaction: Some(
            match compaction {
                Compaction::Trim(trim) => compaction_object::Compaction::Trim(
                    compaction_object::Trim { trim },
                ),
                Compaction::Snapshot(ss) => compaction_object::Compaction::Snapshot(ss),
            },
        ),
    }
}

pub open spec fn accept_stop_sign_wire(accept_stop_sign: AcceptStopSignView) -> AcceptStpObjView {
    AcceptStpObjView {
        n: Some(ballot_wire(accept_stop_sign.n)),
        ss: Some(stop_sign_wire(accept_stop_sign.ss)),
    }
}

/// Builds the wire form of an [`AcceptStopSign`].
pub fn accept_stop_sign_proto(accept_stop_sign: AcceptStopSign) -> (obj: Acceptstp_obj)
    ensures
        obj@ == accept_stop_sign_wire(accept_stop_sign@),
        obj.n is Some,
        obj.n->0.n == accept_stop_sign.n.n,
        obj.n->0.priority == accept_stop_sign.n.priority,
        obj.n->0.pid == accept_stop_sign.n.pid,
        obj.ss is Some,
        accept_stop_sign.ss.config_id == obj.ss->0.config_id,
        accept_stop_sign.ss.nodes@ == obj.ss->0.nodes@,
        match accept_stop_sign.ss.metadata {
            Some(md) => {
                &&& obj.ss->0.metadata matches Some(ov)
                &&& md@.len() == ov.vec@.len()
                &&& forall|i: int|
                    #![trigger ov.vec@[i]]
                    #![trigger md@[i]]
                    0 <= i < md@.len() ==> ov.vec@[i] == md@[i]
            },
            None => obj.ss->0.metadata is None,
        },
{
    Acceptstp_obj {
        n: Some(balt_proto(accept_stop_sign.n)),
        ss: Some(stop_sign_proto(accept_stop_sign.ss)),
    }
}

pub open spec fn accepted_stop_sign_wire(accepted_stop_sign: AcceptedStopSign) -> Acceptedstp_obj {
    Acceptedstp_obj { n: Some(ballot_wire(accepted_stop_sign.n)) }
}

/// Builds the wire form of an [`AcceptedStopSign`].
pub fn accepted_stop_sign_proto(accepted_stop_sign: AcceptedStopSign) -> (obj: Acceptedstp_obj)
    ensures
        obj == accepted_stop_sign_wire(accepted_stop_sign),
        obj.n is Some,
        obj.n->0.n == accepted_stop_sign.n.n,
        obj.n->0.priority == accepted_stop_sign.n.priority,
        obj.n->0.pid == accepted_stop_sign.n.pid,
{
    Acceptedstp_obj { n: Some(balt_proto(accepted_stop_sign.n)) }
}

pub open spec fn decide_stop_sign_wire(decide_stop_sign: DecideStopSign) -> Decidestp_obj {
    Decidestp_obj { n: Some(ballot_wire(decide_stop_sign.n)) }
}

/// Builds the wire form of a [`DecideStopSign`].
pub fn decide_stop_sign_proto(decide_stop_sign: DecideStopSign) -> (obj: Decidestp_obj)
    ensures
        obj == decide_stop_sign_wire(decide_stop_sign),
        obj.n is Some,
        obj.n->0.n == decide_stop_sign.n.n,
        obj.n->0.priority == decide_stop_sign.n.priority,
        obj.n->0.pid == decide_stop_sign.n.pid,
{
    Decidestp_obj { n: Some(balt_proto(decide_stop_sign.n)) }
}

/// The body of a replication message on the wire.
pub open spec fn paxos_msg_wire(msg: PaxosMsgView) -> MsgView {
    match msg {
        PaxosMsgView::PrepareReq => MsgView::PrepareReq,
        PaxosMsgView::Prepare(m) => MsgView::Prepare(prepare_wire(m)),
        PaxosMsgView::Promise(m) => MsgView::Promise(promise_wire(m)),
        PaxosMsgView::AcceptSync(m) => MsgView::AcceptSync(accept_sync_wire(m)),
        PaxosMsgView::FirstAccept(m) => MsgView::FirstAccept(first_accept_wire(m)),
        PaxosMsgView::AcceptDecide(m) => MsgView::AcceptDecide(accept_decide_wire(m)),
        PaxosMsgView::Accepted(m) => MsgView::Accepted(accepted_wire(m)),
        PaxosMsgView::Decide(m) => MsgView::Decide(decide_wire(m)),
        PaxosMsgView::ProposalForward(m) => MsgView::ProposalForward(proposal_forward_wire(m)),
        PaxosMsgView::Compaction(m) => MsgView::Compaction(compaction_wire(m)),
        PaxosMsgView::ForwardCompaction(m) => MsgView::ForwardCompaction(compaction_wire(m)),
        PaxosMsgView::AcceptStopSign(m) => MsgView::AcceptStopSign(accept_stop_sign_wire(m)),
        PaxosMsgView::AcceptedStopSign(m) => MsgView::AcceptedStopSign(accepted_stop_sign_wire(m)),
        PaxosMsgView::DecideStopSign(m) => MsgView::DecideStopSign(decide_stop_sign_wire(m)),
    }
}

/// A replication message on the wire: the same sender and receiver, and the
/// body of the same kind.
pub open spec fn message_wire(message: MessageView) -> PaxosMsgObjView {
    PaxosMsgObjView {
        from: message.from,
        to: message.to,
        msg: Some(paxos_msg_wire(message.msg)),
    }
}

/// Builds the wire form of a replication message.
pub fn sp_mg_proto_def(message: Message) -> (obj: paxos_msg_obj)
    ensures
        obj@ == message_wire(message@),
        obj.from == message.from,
        obj.to == message.to,
        obj.msg is Some,
        obj.msg->0 is PrepareReq <==> message.msg is PrepareReq,
        obj.msg->0 is Prepare <==> message.msg is Prepare,
        obj.msg->0 is Promise <==> message.msg is Promise,
        obj.msg->0 is AcceptSync <==> message.msg is AcceptSync,
        obj.msg->0 is FirstAccept <==> message.msg is FirstAccept,
        obj.msg->0 is AcceptDecide <==> message.msg is AcceptDecide,
        obj.msg->0 is Accepted <==> message.msg is Accepted,
        obj.msg->0 is Decide <==> message.msg is Decide,
        obj.msg->0 is ProposalForward <==> message.msg is ProposalForward,
        obj.msg->0 is Compaction <==> message.msg is Compaction,
        obj.msg->0 is ForwardCompaction <==> message.msg is ForwardCompaction,
        obj.msg->0 is AcceptStopSign <==> message.msg is AcceptStopSign,
        obj.msg->0 is AcceptedStopSign <==> message.msg is AcceptedStopSign,
        obj.msg->0 is DecideStopSign <==> message.msg is DecideStopSign,
{
    paxos_msg_obj {
        from: message.from,
        to: message.to,
        msg: Some(
            match message.msg {
                PaxosMsg::PrepareReq => paxos_msg_object::Msg::PrepareReq(prpd_r_obj {  }),
                PaxosMsg::Prepare(prepare) => paxos_msg_object::Msg::Prepare(prep_proto(prepare)),
                PaxosMsg::Promise(promise) => paxos_msg_object::Msg::Promise(
                    promise_proto(promise),
                ),
                PaxosMsg::AcceptSync(accept_sync) => paxos_msg_object::Msg::AcceptSync(
                    accept_sync_proto(accept_sync),
                ),
                PaxosMsg::FirstAccept(first_accept) => paxos_msg_object::Msg::FirstAccept(
                    first_accept_proto(first_accept),
                ),
                PaxosMsg::AcceptDecide(accept_decide) => paxos_msg_object::Msg::AcceptDecide(
                    accept_decide_proto(accept_decide),
                ),
                PaxosMsg::Accepted(accepted) => paxos_msg_object::Msg::Accepted(
                    accepted_proto(accepted),
                ),
                PaxosMsg::Decide(decide) => paxos_msg_object::Msg::Decide(decide_proto(decide)),
                PaxosMsg::ProposalForward(proposals) => paxos_msg_object::Msg::ProposalForward(
                    proposal_forward_proto(proposals),
                ),
                PaxosMsg::Compaction(compaction) => paxos_msg_object::Msg::Compaction(
                    compaction_proto(compaction),
                ),
                PaxosMsg::ForwardCompaction(compaction) => paxos_msg_object::Msg::ForwardCompaction(
                    compaction_proto(compaction),
                ),
                PaxosMsg::AcceptStopSign(accept_stop_sign) => paxos_msg_object::Msg::AcceptStopSign(
                    accept_stop_sign_proto(accept_stop_sign),
                ),
                PaxosMsg::AcceptedStopSign(accepted_stop_sign) =>
                    paxos_msg_object::Msg::AcceptedStopSign(
                    accepted_stop_sign_proto(accepted_stop_sign),
                ),
                PaxosMsg::DecideStopSign(decide_stop_sign) => paxos_msg_object::Msg::DecideStopSign(
                    decide_stop_sign_proto(decide_stop_sign),
                ),
            },
        ),
    }
}

pub open spec fn best_request_wire(best_request: bestRequest) -> beat_req_obj {
    beat_req_obj { round: best_request.round }
}

/// Builds the wire form of a heartbeat request.
pub fn best_request_proto(best_request: bestRequest) -> (obj: beat_req_obj)
    ensures
        obj == best_request_wire(best_request),
        best_request.round == obj.round,
{
    beat_req_obj { round: best_request.round }
}

pub open spec fn best_reply_wire(best_reply: bestReply) -> beat_rep_obj {
    beat_rep_obj {
        round: best_reply.round,
        ballot: Some(ballot_wire(best_reply.ballot)),
        majority_connected: best_reply.majority_connected,
    }
}

/// Builds the wire form of a heartbeat reply.
pub fn best_reply_proto(best_reply: bestReply) -> (obj: beat_rep_obj)
    ensures
        obj == best_reply_wire(best_reply),
        best_reply.round == obj.round,
        best_reply.majority_connected == obj.majority_connected,
        obj.ballot is Some,
        obj.ballot->0.n == best_reply.ballot.n,
        obj.ballot->0.priority == best_reply.ballot.priority,
        obj.ballot->0.pid == best_reply.ballot.pid,
{
    beat_rep_obj {
        round: best_reply.round,
        ballot: Some(balt_proto(best_reply.ballot)),
        majority_connected: best_reply.majority_connected,
    }
}

/// A leader election message on the wire.
pub open spec fn ble_message_wire(message: BLEMessage) -> ble_msg__obj {
    ble_msg__obj {
        from: message.from,
        to: message.to,
        msg: Some(
            match message.msg {
                bestMsg::Request(request) => ble_message_object::Msg::bestReq(
                    best_request_wire(request),
                ),
                bestMsg::Reply(reply) => ble_message_object::Msg::bestRep(best_reply_wire(reply)),
            },
        ),
    }
}

/// Builds the wire form of a leader election message.
pub fn ble_message_to_proto_definition(message: BLEMessage) -> (obj: ble_msg__obj)
    ensures
        obj == ble_message_wire(message),
        message.from == obj.from,
        message.to == obj.to,
        match message.msg {
            bestMsg::Request(rm) => {
                &&& obj.msg matches Some(ble_message_object::Msg::bestReq(ro))
                &&& rm.round == ro.round
            },
            bestMsg::Reply(rm) => {
                &&& obj.msg matches Some(ble_message_object::Msg::bestRep(ro))
                &&& rm.round == ro.round
                &&& rm.majority_connected == ro.majority_connected
                &&& ro.ballot is Some
                &&& ro.ballot->0.n == rm.ballot.n
                &&& ro.ballot->0.priority == rm.ballot.priority
                &&& ro.ballot->0.pid == rm.ballot.pid
            },
        },
{
    ble_msg__obj {
        from: message.from,
        to: message.to,
        msg: Some(
            match message.msg {
                bestMsg::Request(request) => ble_message_object::Msg::bestReq(
                    best_request_proto(request),
                ),
                bestMsg::Reply(reply) => ble_message_object::Msg::bestRep(best_reply_proto(reply)),
            },
        ),
    }
}

} // verus!
