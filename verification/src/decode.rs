//! From wire objects to messages.
//!
//! Each function states the model of the message that it reads as a function of
//! the model of the object, named `.._of`. An object that is not complete has no
//! message.
use vstd::prelude::*;

use crate::ballot_leader_election::{bestMsg, bestReply, bestRequest, BLEMessage, Ballot};
use crate::messages::{
    AcceptDecide, AcceptDecideView, AcceptStopSign, AcceptStopSignView, AcceptSync, AcceptSyncView,
    Accepted, AcceptedStopSign, Compaction, Decide, DecideStopSign, FirstAccept, FirstAcceptView,
    Message, MessageView, PaxosMsg, PaxosMsgView, Prepare, Promise, PromiseView, SnapshotType,
    StopSign, StopSignView, SyncItem, SyncItemView,
};
use crate::proto::paxos_msg_object::MsgView;
use crate::proto::sync_item_object::ItemView;
use crate::proto::{
    acc_dcd_obj, acc_ed_obj, acc_sync_obj, ballot_obj, beat_rep_obj, beat_req_obj, ble_message_object,
    ble_msg__obj, command_objs_view, comp_obj, compaction_object, dcd_obj, f_acc_obj, p_obj,
    paxos_msg_obj, paxos_msg_object, prep_obj, prpd_fwd_obj, stp_obj, str_cmd_obj, sync_item_object,
    sync_itm_obj, AccDcdObjView, AccSyncObjView, AcceptStpObjView, Acceptedstp_obj, Acceptstp_obj,
    Decidestp_obj, FAccObjView, PObjView, PaxosMsgObjView, PrpdFwdObjView, StpObjView,
    StrCmdObjView, SyncItmObjView,
};
use crate::server::{commands_view, StoreCommand, StoreCommandView};

verus! {

pub open spec fn ballot_of(obj: ballot_obj) -> Ballot {
    Ballot { n: obj.n, priority: obj.priority, pid: obj.pid }
}

/// Reads a ballot.
pub fn ballot_from_proto(obj: ballot_obj) -> (ballot: Ballot)
    ensures
        ballot == ballot_of(obj),
        obj.n == ballot.n,
        obj.priority == ballot.priority,
        obj.pid == ballot.pid,
{
    Ballot { n: obj.n, priority: obj.priority, pid: obj.pid }
}

pub open spec fn prepare_of(obj: prep_obj) -> Prepare
    recommends
        obj.complete(),
{
    Prepare {
        n: ballot_of(obj.n->0),
        ld: obj.ld,
        n_accepted: ballot_of(obj.n_accepted->0),
        la: obj.la,
    }
}

/// Reads a [`Prepare`].
pub fn prepare_from_proto(obj: prep_obj) -> (prepare: Prepare)
    requires
        obj.complete(),
    ensures
        prepare == prepare_of(obj),
        obj.n is Some,
        obj.n->0.n == prepare.n.n,
        obj.n->0.priority == prepare.n.priority,
        obj.n->0.pid == prepare.n.pid,
        obj.n_accepted is Some,
        obj.n_accepted->0.n == prepare.n_accepted.n,
        obj.n_accepted->0.priority == prepare.n_accepted.priority,
        obj.n_accepted->0.pid == prepare.n_accepted.pid,
        prepare.ld == obj.ld,
        prepare.la == obj.la,
{
    Prepare {
        n: ballot_from_proto(obj.n.unwrap()),
        ld: obj.ld,
        n_accepted: ballot_from_proto(obj.n_accepted.unwrap()),
        la: obj.la,
    }
}

/// The low bits of a number, as many as a `usize` has.
pub open spec fn low_usize(n: u64) -> usize {
    (n as int % (usize::MAX + 1)) as usize
}

/// The low eight bits of a number.
pub open spec fn low_u8(n: u32) -> u8 {
    (n % 256) as u8
}

/// To cast to a `usize` keeps the low bits.
pub proof fn lemma_low_usize(n: u64)
    ensures
        n as usize == low_usize(n),
        low_usize(n) as int == n as int % (usize::MAX + 1),
{
    vstd::arithmetic::div_mod::lemma_mod_bound(n as int, usize::MAX + 1);
    vstd::layout::unsigned_int_max_values();
    vstd::arithmetic::power2::lemma2_to64();
    vstd::arithmetic::power2::lemma2_to64_rest();
    if usize::BITS == 64 {
        assert(usize::MAX == u64::MAX);
    } else {
        assert(usize::BITS == 32);
        assert(usize::MAX + 1 == 0x1_0000_0000);
        assert(usize::BITS == 32 ==> n as usize as u64 == n % 0x1_0000_0000) by (bit_vector);
        assert(n as usize == n as int % 0x1_0000_0000);
    }
}

proof fn lemma_low_u8(n: u32)
    ensures
        n as u8 == low_u8(n),
{
    assert(n as u8 == n % 256) by (bit_vector);
}

pub open spec fn command_of(obj: StrCmdObjView) -> StoreCommandView {
    StoreCommandView { id: low_usize(obj.id), sql: obj.sql }
}

/// Reads a command. Where a `usize` has fewer than 64 bits, the high bits of the
/// identifier are lost.
pub fn store_command_from_proto(obj: str_cmd_obj) -> (cmd: StoreCommand)
    ensures
        cmd@ == command_of(obj@),
        obj.id <= usize::MAX ==> cmd.id == obj.id,
        cmd.id as int == obj.id as int % (usize::MAX + 1),
        cmd.sql@ == obj.sql@,
{
    proof {
        lemma_low_usize(obj.id);
    }
    StoreCommand { id: obj.id as usize, sql: obj.sql }
}

pub open spec fn commands_of(objs: Seq<StrCmdObjView>) -> Seq<StoreCommandView> {
    objs.map_values(|c: StrCmdObjView| command_of(c))
}

/// Reads a list of commands, in order.
fn commands_from_proto(objs: Vec<str_cmd_obj>) -> (cmds: Vec<StoreCommand>)
    ensures
        commands_view(cmds@) == commands_of(command_objs_view(objs@)),
        cmds@.len() == objs@.len(),
        forall|i: int|
            #![trigger objs@[i]]
            #![trigger cmds@[i]]
            0 <= i < cmds@.len() ==> {
                &&& cmds@[i].id as int == objs@[i].id as int % (usize::MAX + 1)
                &&& cmds@[i].sql@ == objs@[i].sql@
            },
{
    let mut cmds: Vec<StoreCommand> = Vec::new();
    for obj in iter: objs.into_iter()
        invariant
            cmds.len() == iter.index(),
            forall|i: int| 0 <= i < cmds.len() ==> {
                &&& (#[trigger] cmds@[i])@ == command_of(iter.seq()[i]@)
                &&& cmds@[i].id as int == iter.seq()[i].id as int % (usize::MAX + 1)
                &&& cmds@[i].sql@ == iter.seq()[i].sql@
            },
    {
        cmds.push(store_command_from_proto(obj));
    }
    assert(commands_view(cmds@) =~= commands_of(command_objs_view(objs@)));
    cmds
}

/// The kind of snapshot that a wire kind stands for.
pub open spec fn snapshot_of(ss: sync_item_object::Snapshot) -> SnapshotType {
    match ss {
        sync_item_object::Snapshot::Complete => SnapshotType::Complete,
        sync_item_object::Snapshot::Delta => SnapshotType::Delta,
        sync_item_object::Snapshot::phtm => SnapshotType::_phtm,
    }
}

pub open spec fn sync_item_of(obj: SyncItmObjView) -> SyncItemView
    recommends
        obj.complete(),
{
    match obj.item->0 {
        ItemView::Entries(entries) => SyncItemView::Entries(commands_of(entries)),
        ItemView::Snapshot(ss) => SyncItemView::Snapshot(
            snapshot_of(sync_item_object::Snapshot::of_code(ss)->0),
        ),
        ItemView::Nothing => SyncItemView::Nothing,
    }
}

/// Reads a [`SyncItem`].
pub fn sync_item_from_proto(obj: sync_itm_obj) -> (sync_item: SyncItem)
    requires
        obj@.complete(),
    ensures
        sync_item@ == sync_item_of(obj@),
        match obj.item->0 {
            sync_item_object::Item::Entries(os) => {
                &&& sync_item matches SyncItem::Entries(es)
                &&& es@.len() == os.vec@.len()
                &&& forall|i: int|
                    #![trigger os.vec@[i]]
                    #![trigger es@[i]]
                    0 <= i < es@.len() ==> {
                        &&& es@[i].id as int == os.vec@[i].id as int % (usize::MAX + 1)
                        &&& es@[i].sql@ == os.vec@[i].sql@
                    }
            },
            sync_item_object::Item::Snapshot(code) => {
                &&& sync_item matches SyncItem::Snapshot(k)
                &&& (k is Complete) == (code == 0)
                &&& (k is Delta) == (code == 1)
                &&& (k is _phtm) == (code == 2)
            },
            sync_item_object::Item::Nothing(_) => sync_item is Nothing,
        },
{
    match obj.item.unwrap() {
        sync_item_object::Item::Entries(entries) => SyncItem::Entries(
            commands_from_proto(entries.vec),
        ),
        sync_item_object::Item::Snapshot(ss) => {
            match sync_item_object::Snapshot::from_i32(ss).unwrap() {
                sync_item_object::Snapshot::Complete => SyncItem::Snapshot(SnapshotType::Complete),
                sync_item_object::Snapshot::Delta => SyncItem::Snapshot(SnapshotType::Delta),
                sync_item_object::Snapshot::phtm => SyncItem::Snapshot(SnapshotType::_phtm),
            }
        },
        sync_item_object::Item::Nothing(_) => SyncItem::Nothing,
    }
}

/// The low eight bits of each number.
pub open spec fn metadata_of(vec: Seq<u32>) -> Seq<u8> {
    vec.map_values(|m: u32| low_u8(m))
}

/// Narrows each number of the metadata to a byte, in order.
fn metadata_from_proto(vec: Vec<u32>) -> (metadata: Vec<u8>)
    ensures
        metadata@ == metadata_of(vec@),
        metadata@.len() == vec@.len(),
        forall|i: int|
            #![trigger vec@[i]]
            #![trigger metadata@[i]]
            0 <= i < metadata@.len() ==> metadata@[i] as int == vec@[i] as int % 256,
{
    let mut metadata: Vec<u8> = Vec::new();
    for m in iter: vec.into_iter()
        invariant
            metadata.len() == iter.index(),
            forall|i: int| 0 <= i < metadata.len() ==> #[trigger] metadata@[i] == low_u8(iter.seq()[i]),
    {
        proof {
            lemma_low_u8(m);
        }
        metadata.push(m as u8);
    }
    assert(metadata@ =~= metadata_of(vec@));
    metadata
}

pub open spec fn stop_sign_of(obj: StpObjView) -> StopSignView {
    StopSignView {
        config_id: obj.config_id,
        nodes: obj.nodes,
        metadata: match obj.metadata {
            Some(md) => Some(metadata_of(md)),
            None => None,
        },
    }
}

/// Reads a [`StopSign`]. Of each number of the metadata the low eight bits count.
pub fn stop_sign_from_proto(obj: stp_obj) -> (stop_sign: StopSign)
    ensures
        stop_sign@ == stop_sign_of(obj@),
        stop_sign.config_id == obj.config_id,
        stop_sign.nodes@ == obj.nodes@,
        match obj.metadata {
            Some(ov) => {
                &&& stop_sign.metadata matches Some(md)
                &&& md@.len() == ov.vec@.len()
                &&& forall|i: int|
                    #![trigger ov.vec@[i]]
                    #![trigger md@[i]]
                    0 <= i < md@.len() ==> md@[i] as int == ov.vec@[i] as int % 256
            },
            None => stop_sign.metadata is None,
        },
{
    StopSign {
        config_id: obj.config_id,
        nodes: obj.nodes,
        metadata: match obj.metadata {
            Some(md) => Some(metadata_from_proto(md.vec)),
            None => None,
        },
    }
}

pub open spec fn opt_stop_sign_of(obj: Option<StpObjView>) -> Option<StopSignView> {
    match obj {
        Some(ss) => Some(stop_sign_of(ss)),
        None => None,
    }
}

pub open spec fn promise_of(obj: PObjView) -> PromiseView
    recommends
        obj.complete(),
{
    PromiseView {
        n: ballot_of(obj.n->0),
        n_accepted: ballot_of(obj.n_accepted->0),
        sync_item: match obj.sync_item {
            Some(s) => Some(sync_item_of(s)),
            None => None,
        },
        ld: obj.ld,
        la: obj.la,
        stopsign: opt_stop_sign_of(obj.stopsign),
    }
}

/// Reads a [`Promise`].
pub fn promise_from_proto(obj: p_obj) -> (promise: Promise)
    requires
        obj@.complete(),
    ensures
        promise@ == promise_of(obj@),
        obj.n is Some,
        obj.n->0.n == promise.n.n,
        obj.n->0.priority == promise.n.priority,
        obj.n->0.pid == promise.n.pid,
        obj.n_accepted is Some,
        obj.n_accepted->0.n == promise.n_accepted.n,
        obj.n_accepted->0.priority == promise.n_accepted.priority,
        obj.n_accepted->0.pid == promise.n_accepted.pid,
        promise.ld == obj.ld,
        promise.la == obj.la,
        match obj.sync_item {
            Some(so) => {
                &&& promise.sync_item matches Some(sm)
                &&& (match so.item->0 {
                    sync_item_object::Item::Entries(os) => {
                        &&& sm matches SyncItem::Entries(es)
                        &&& es@.len() == os.vec@.len()
                        &&& forall|i: int|
                            #![trigger os.vec@[i]]
                            #![trigger es@[i]]
                            0 <= i < es@.len() ==> {
                                &&& es@[i].id as int == os.vec@[i].id as int % (usize::MAX + 1)
                                &&& es@[i].sql@ == os.vec@[i].sql@
                            }
                    },
                    sync_item_object::Item::Snapshot(code) => {
                        &&& sm matches SyncItem::Snapshot(k)
                        &&& (k is Complete) == (code == 0)
                        &&& (k is Delta) == (code == 1)
                        &&& (k is _phtm) == (code == 2)
                    },
                    sync_item_object::Item::Nothing(_) => sm is Nothing,
                })
            },
            None => promise.sync_item is None,
        },
        match obj.stopsign {
            Some(so) => {
                &&& promise.stopsign matches Some(sm)
                &&& sm.config_id == so.config_id
                &&& sm.nodes@ == so.nodes@
                &&& (match so.metadata {
                    Some(ov) => {
                        &&& sm.metadata matches Some(md)
                        &&& md@.len() == ov.vec@.len()
                        &&& forall|i: int|
                            #![trigger ov.vec@[i]]
                            #![trigger md@[i]]
                            0 <= i < md@.len() ==> md@[i] as int == ov.vec@[i] as int % 256
                    },
                    None => sm.metadata is None,
                })
            },
            None => promise.stopsign is None,
        },
{
    Promise {
        n: ballot_from_proto(obj.n.unwrap()),
        n_accepted: ballot_from_proto(obj.n_accepted.unwrap()),
        sync_item: match obj.sync_item {
            Some(s) => Some(sync_item_from_proto(s)),
            None => None,
        },
        ld: obj.ld,
        la: obj.la,
        stopsign: match obj.stopsign {
            Some(ss) => Some(stop_sign_from_proto(ss)),
            None => None,
        },
    }
}

pub open spec fn accept_sync_of(obj: AccSyncObjView) -> AcceptSyncView
    recommends
        obj.complete(),
{
    AcceptSyncView {
        n: ballot_of(obj.n->0),
        sync_item: sync_item_of(obj.sync_item->0),
        sync_idx: obj.sync_idx,
        decide_idx: obj.decide_idx,
        stopsign: opt_stop_sign_of(obj.stopsign),
    }
}

/// Reads an [`AcceptSync`].
pub fn accept_sync_from_proto(obj: acc_sync_obj) -> (accept_sync: AcceptSync)
    requires
        obj@.complete(),
    ensures
        accept_sync@ == accept_sync_of(obj@),
        obj.n is Some,
        obj.n->0.n == accept_sync.n.n,
        obj.n->0.priority == accept_sync.n.priority,
        obj.n->0.pid == accept_sync.n.pid,
        accept_sync.sync_idx == obj.sync_idx,
        accept_sync.decide_idx == obj.decide_idx,
        obj.sync_item is Some,
        match obj.sync_item->0.item->0 {
            sync_item_object::Item::Entries(os) => {
                &&& accept_sync.sync_item matches SyncItem::Entries(es)
                &&& es@.len() == os.vec@.len()
                &&& forall|i: int|
                    #![trigger os.vec@[i]]
                    #![trigger es@[i]]
                    0 <= i < es@.len() ==> {
                        &&& es@[i].id as int == os.vec@[i].id as int % (usize::MAX + 1)
                        &&& es@[i].sql@ == os.vec@[i].sql@
                    }
            },
            sync_item_object::Item::Snapshot(code) => {
                &&& accept_sync.sync_item matches SyncItem::Snapshot(k)
                &&& (k is Complete) == (code == 0)
                &&& (k is Delta) == (code == 1)
                &&& (k is _phtm) == (code == 2)
            },
            sync_item_object::Item::Nothing(_) => accept_sync.sync_item is Nothing,
        },
        match obj.stopsign {
            Some(so) => {
                &&& accept_sync.stopsign matches Some(sm)
                &&& sm.config_id == so.config_id
                &&& sm.nodes@ == so.nodes@
                &&& (match so.metadata {
                    Some(ov) => {
                        &&& sm.metadata matches Some(md)
                        &&& md@.len() == ov.vec@.len()
                        &&& forall|i: int|
                            #![trigger ov.vec@[i]]
                            #![trigger md@[i]]
                            0 <= i < md@.len() ==> md@[i] as int == ov.vec@[i] as int % 256
                    },
                    None => sm.metadata is None,
                })
            },
            None => accept_sync.stopsign is None,
        },
{
    AcceptSync {
        n: ballot_from_proto(obj.n.unwrap()),
        sync_item: sync_item_from_proto(obj.sync_item.unwrap()),
        sync_idx: obj.sync_idx,
        decide_idx: obj.decide_idx,
        stopsign: match obj.stopsign {
            Some(ss) => Some(stop_sign_from_proto(ss)),
            None => None,
        },
    }
}

pub open spec fn first_accept_of(obj: FAccObjView) -> FirstAcceptView
    recommends
        obj.complete(),
{
    FirstAcceptView { n: ballot_of(obj.n->0), entries: commands_of(obj.entries) }
}

/// Reads a [`FirstAccept`].
pub fn first_accept_from_proto(obj: f_acc_obj) -> (first_accept: FirstAccept)
    requires
        obj@.complete(),
    ensures
        first_accept@ == first_accept_of(obj@),
        obj.n is Some,
        obj.n->0.n == first_accept.n.n,
        obj.n->0.priority == first_accept.n.priority,
        obj.n->0.pid == first_accept.n.pid,
        first_accept.entries@.len() == obj.entries@.len(),
        forall|i: int|
            #![trigger obj.entries@[i]]
            #![trigger first_accept.entries@[i]]
            0 <= i < first_accept.entries@.len() ==> {
                &&& first_accept.entries@[i].id as int == obj.entries@[i].id as int % (usize::MAX + 1)
                &&& first_accept.entries@[i].sql@ == obj.entries@[i].sql@
            },
{
    FirstAccept {
        n: ballot_from_proto(obj.n.unwrap()),
        entries: commands_from_proto(obj.entries),
    }
}

pub open spec fn accept_decide_of(obj: AccDcdObjView) -> AcceptDecideView
    recommends
        obj.complete(),
{
    AcceptDecideView { n: ballot_of(obj.n->0), ld: obj.ld, entries: commands_of(obj.entries) }
}

/// Reads an [`AcceptDecide`].
pub fn accept_decide_from_proto(obj: acc_dcd_obj) -> (accept_decide: AcceptDecide)
    requires
        obj@.complete(),
    ensures
        accept_decide@ == accept_decide_of(obj@),
        obj.n is Some,
        obj.n->0.n == accept_decide.n.n,
        obj.n->0.priority == accept_decide.n.priority,
        obj.n->0.pid == accept_decide.n.pid,
        accept_decide.entries@.len() == obj.entries@.len(),
        forall|i: int|
            #![trigger obj.entries@[i]]
            #![trigger accept_decide.entries@[i]]
            0 <= i < accept_decide.entries@.len() ==> {
                &&& accept_decide.entries@[i].id as int == obj.entries@[i].id as int % (usize::MAX + 1)
                &&& accept_decide.entries@[i].sql@ == obj.entries@[i].sql@
            },
        accept_decide.ld == obj.ld,
{
    AcceptDecide {
        n: ballot_from_proto(obj.n.unwrap()),
        ld: obj.ld,
        entries: commands_from_proto(obj.entries),
    }
}

pub open spec fn accepted_of(obj: acc_ed_obj) -> Accepted
    recommends
        obj.complete(),
{
    Accepted { n: ballot_of(obj.n->0), la: obj.la }
}

/// Reads an [`Accepted`].
pub fn accepted_from_proto(obj: acc_ed_obj) -> (accepted: Accepted)
    requires
        obj.complete(),
    ensures
        accepted == accepted_of(obj),
        obj.n is Some,
        obj.n->0.n == accepted.n.n,
        obj.n->0.priority == accepted.n.priority,
        obj.n->0.pid == accepted.n.pid,
        accepted.la == obj.la,
{
    Accepted { n: ballot_from_proto(obj.n.unwrap()), la: obj.la }
}

pub open spec fn decide_of(obj: dcd_obj) -> Decide
    recommends
        obj.complete(),
{
    Decide { n: ballot_of(obj.n->0), ld: obj.ld }
}

/// Reads a [`Decide`].
pub fn decide_from_proto(obj: dcd_obj) -> (decide: Decide)
    requires
        obj.complete(),
    ensures
        decide == decide_of(obj),
        obj.n is Some,
        obj.n->0.n == decide.n.n,
        obj.n->0.priority == decide.n.priority,
        obj.n->0.pid == decide.n.pid,
        decide.ld == obj.ld,
{
    Decide { n: ballot_from_proto(obj.n.unwrap()), ld: obj.ld }
}

pub open spec fn proposal_forward_of(obj: PrpdFwdObjView) -> Seq<StoreCommandView> {
    commands_of(obj.entries)
}

/// Reads forwarded proposals.
pub fn proposal_forward_from_proto(obj: prpd_fwd_obj) -> (proposals: Vec<StoreCommand>)
    ensures
        commands_view(proposals@) == proposal_forward_of(obj@),
        proposals@.len() == obj.entries@.len(),
        forall|i: int|
            #![trigger obj.entries@[i]]
            #![trigger proposals@[i]]
            0 <= i < proposals@.len() ==> {
                &&& proposals@[i].id as int == obj.entries@[i].id as int % (usize::MAX + 1)
                &&& proposals@[i].sql@ == obj.entries@[i].sql@
            },
{
    commands_from_proto(obj.entries)
}

pub open spec fn compaction_of(obj: comp_obj) -> Compaction
    recommends
        obj.complete(),
{
    match obj.compaction->0 {
        compaction_object::Compaction::Trim(trim) => Compaction::Trim(trim.trim),
        compaction_object::Compaction::Snapshot(ss) => Compaction::Snapshot(ss),
    }
}

/// Reads a [`Compaction`].
pub fn compaction_from_proto(obj: comp_obj) -> (compaction: Compaction)
    requires
        obj.complete(),
    ensures
        compaction == compaction_of(obj),
        match obj.compaction->0 {
            compaction_object::Compaction::Trim(ot) => compaction == Compaction::Trim(ot.trim),
            compaction_object::Compaction::Snapshot(s) => compaction == Compaction::Snapshot(s),
        },
{
    match obj.compaction.unwrap() {
        compaction_object::Compaction::Trim(trim) => Compaction::Trim(trim.trim),
        compaction_object::Compaction::Snapshot(ss) => Compaction::Snapshot(ss),
    }
}

pub open spec fn accept_stop_sign_of(obj: AcceptStpObjView) -> AcceptStopSignView
    recommends
        obj.complete(),
{
    AcceptStopSignView { n: ballot_of(obj.n->0), ss: stop_sign_of(obj.ss->0) }
}

/// Reads an [`AcceptStopSign`].
pub fn accept_stop_sign_from_proto(obj: Acceptstp_obj) -> (accept_stop_sign: AcceptStopSign)
    requires
        obj@.complete(),
    ensures
        accept_stop_sign@ == accept_stop_sign_of(obj@),
        obj.n is Some,
        obj.n->0.n == accept_stop_sign.n.n,
        obj.n->0.priority == accept_stop_sign.n.priority,
        obj.n->0.pid == accept_stop_sign.n.pid,
        obj.ss is Some,
        accept_stop_sign.ss.config_id == obj.ss->0.config_id,
        accept_stop_sign.ss.nodes@ == obj.ss->0.nodes@,
        match obj.ss->0.metadata {
            Some(ov) => {
                &&& accept_stop_sign.ss.metadata matches Some(md)
                &&& md@.len() == ov.vec@.len()
                &&& forall|i: int|
                    #![trigger ov.vec@[i]]
                    #![trigger md@[i]]
                    0 <= i < md@.len() ==> md@[i] as int == ov.vec@[i] as int % 256
            },
            None => accept_stop_sign.ss.metadata is None,
        },
{
    AcceptStopSign {
        n: ballot_from_proto(obj.n.unwrap()),
        ss: stop_sign_from_proto(obj.ss.unwrap()),
    }
}

pub open spec fn accepted_stop_sign_of(obj: Acceptedstp_obj) -> AcceptedStopSign
    recommends
        obj.complete(),
{
    AcceptedStopSign { n: ballot_of(obj.n->0) }
}

/// Reads an [`AcceptedStopSign`].
pub fn accepted_stop_sign_from_proto(obj: Acceptedstp_obj) -> (accepted_stop_sign: AcceptedStopSign)
    requires
        obj.complete(),
    ensures
        accepted_stop_sign == accepted_stop_sign_of(obj),
        obj.n is Some,
        obj.n->0.n == accepted_stop_sign.n.n,
        obj.n->0.priority == accepted_stop_sign.n.priority,
        obj.n->0.pid == accepted_stop_sign.n.pid,
{
    AcceptedStopSign { n: ballot_from_proto(obj.n.unwrap()) }
}

pub open spec fn decide_stop_sign_of(obj: Decidestp_obj) -> DecideStopSign
    recommends
        obj.complete(),
{
    DecideStopSign { n: ballot_of(obj.n->0) }
}

/// Reads a [`DecideStopSign`].
pub fn decide_stop_sign_from_proto(obj: Decidestp_obj) -> (decide_stop_sign: DecideStopSign)
    requires
        obj.complete(),
    ensures
        decide_stop_sign == decide_stop_sign_of(obj),
        obj.n is Some,
        obj.n->0.n == decide_stop_sign.n.n,
        obj.n->0.priority == decide_stop_sign.n.priority,
        obj.n->0.pid == decide_stop_sign.n.pid,
{
    DecideStopSign { n: ballot_from_proto(obj.n.unwrap()) }
}

/// The replication message of a body.
pub open spec fn paxos_msg_of(msg: MsgView) -> PaxosMsgView
    recommends
        msg.complete(),
{
    match msg {
        MsgView::PrepareReq => PaxosMsgView::PrepareReq,
        MsgView::Prepare(m) => PaxosMsgView::Prepare(prepare_of(m)),
        MsgView::Promise(m) => PaxosMsgView::Promise(promise_of(m)),
        MsgView::AcceptSync(m) => PaxosMsgView::AcceptSync(accept_sync_of(m)),
        MsgView::FirstAccept(m) => PaxosMsgView::FirstAccept(first_accept_of(m)),
        MsgView::AcceptDecide(m) => PaxosMsgView::AcceptDecide(accept_decide_of(m)),
        MsgView::Accepted(m) => PaxosMsgView::Accepted(accepted_of(m)),
        MsgView::Decide(m) => PaxosMsgView::Decide(decide_of(m)),
        MsgView::ProposalForward(m) => PaxosMsgView::ProposalForward(proposal_forward_of(m)),
        MsgView::Compaction(m) => PaxosMsgView::Compaction(compaction_of(m)),
        MsgView::ForwardCompaction(m) => PaxosMsgView::ForwardCompaction(compaction_of(m)),
        MsgView::AcceptStopSign(m) => PaxosMsgView::AcceptStopSign(accept_stop_sign_of(m)),
        MsgView::AcceptedStopSign(m) => PaxosMsgView::AcceptedStopSign(accepted_stop_sign_of(m)),
        MsgView::DecideStopSign(m) => PaxosMsgView::DecideStopSign(decide_stop_sign_of(m)),
    }
}

/// The replication message of an object: the same sender and receiver, and the
/// message of the same kind.
pub open spec fn message_of(obj: PaxosMsgObjView) -> MessageView
    recommends
        obj.complete(),
{
    MessageView { from: obj.from, to: obj.to, msg: paxos_msg_of(obj.msg->0) }
}

/// Reads a replication message.
pub fn sp_message_from_proto(obj: paxos_msg_obj) -> (message: Message)
    requires
        obj@.complete(),
    ensures
        message@ == message_of(obj@),
        message.from == obj.from,
        message.to == obj.to,
        message.msg is PrepareReq <==> obj.msg->0 is PrepareReq,
        message.msg is Prepare <==> obj.msg->0 is Prepare,
        message.msg is Promise <==> obj.msg->0 is Promise,
        message.msg is AcceptSync <==> obj.msg->0 is AcceptSync,
        message.msg is FirstAccept <==> obj.msg->0 is FirstAccept,
        message.msg is AcceptDecide <==> obj.msg->0 is AcceptDecide,
        message.msg is Accepted <==> obj.msg->0 is Accepted,
        message.msg is Decide <==> obj.msg->0 is Decide,
        message.msg is ProposalForward <==> obj.msg->0 is ProposalForward,
        message.msg is Compaction <==> obj.msg->0 is Compaction,
        message.msg is ForwardCompaction <==> obj.msg->0 is ForwardCompaction,
        message.msg is AcceptStopSign <==> obj.msg->0 is AcceptStopSign,
        message.msg is AcceptedStopSign <==> obj.msg->0 is AcceptedStopSign,
        message.msg is DecideStopSign <==> obj.msg->0 is DecideStopSign,
{
    Message {
        from: obj.from,
        to: obj.to,
        msg: match obj.msg.unwrap() {
            paxos_msg_object::Msg::PrepareReq(_) => PaxosMsg::PrepareReq,
            paxos_msg_object::Msg::Prepare(prepare) => PaxosMsg::Prepare(
                prepare_from_proto(prepare),
            ),
            paxos_msg_object::Msg::Promise(promise) => PaxosMsg::Promise(
                promise_from_proto(promise),
            ),
            paxos_msg_object::Msg::AcceptSync(accept_sync) => PaxosMsg::AcceptSync(
                accept_sync_from_proto(accept_sync),
            ),
            paxos_msg_object::Msg::FirstAccept(first_accept) => PaxosMsg::FirstAccept(
                first_accept_from_proto(first_accept),
            ),
            paxos_msg_object::Msg::AcceptDecide(accept_decide) => PaxosMsg::AcceptDecide(
                accept_decide_from_proto(accept_decide),
            ),
            paxos_msg_object::Msg::Accepted(accepted) => PaxosMsg::Accepted(
                accepted_from_proto(accepted),
            ),
            paxos_msg_object::Msg::Decide(decide) => PaxosMsg::Decide(decide_from_proto(decide)),
            paxos_msg_object::Msg::ProposalForward(proposals) => PaxosMsg::ProposalForward(
                proposal_forward_from_proto(proposals),
            ),
            paxos_msg_object::Msg::Compaction(compaction) => PaxosMsg::Compaction(
                compaction_from_proto(compaction),
            ),
            paxos_msg_object::Msg::ForwardCompaction(compaction) => PaxosMsg::ForwardCompaction(
                compaction_from_proto(compaction),
            ),
            paxos_msg_object::Msg::AcceptStopSign(accept_stop_sign) => PaxosMsg::AcceptStopSign(
                accept_stop_sign_from_proto(accept_stop_sign),
            ),
            paxos_msg_object::Msg::AcceptedStopSign(accepted_stop_sign) =>
                PaxosMsg::AcceptedStopSign(accepted_stop_sign_from_proto(accepted_stop_sign)),
            paxos_msg_object::Msg::DecideStopSign(decide_stop_sign) => PaxosMsg::DecideStopSign(
                decide_stop_sign_from_proto(decide_stop_sign),
            ),
        },
    }
}

pub open spec fn best_request_of(obj: beat_req_obj) -> bestRequest {
    bestRequest { round: obj.round }
}

/// Reads a heartbeat request.
pub fn best_request_from_proto(obj: beat_req_obj) -> (best_request: bestRequest)
    ensures
        best_request == best_request_of(obj),
        best_request.round == obj.round,
{
    bestRequest { round: obj.round }
}

pub open spec fn best_reply_of(obj: beat_rep_obj) -> bestReply
    recommends
        obj.complete(),
{
    bestReply {
        round: obj.round,
        ballot: ballot_of(obj.ballot->0),
        majority_connected: obj.majority_connected,
    }
}

/// Reads a heartbeat reply.
pub fn best_reply_from_proto(obj: beat_rep_obj) -> (best_reply: bestReply)
    requires
        obj.complete(),
    ensures
        best_reply == best_reply_of(obj),
        best_reply.round == obj.round,
        best_reply.majority_connected == obj.majority_connected,
        obj.ballot is Some,
        obj.ballot->0.n == best_reply.ballot.n,
        obj.ballot->0.priority == best_reply.ballot.priority,
        obj.ballot->0.pid == best_reply.ballot.pid,
{
    bestReply {
        round: obj.round,
        ballot: ballot_from_proto(obj.ballot.unwrap()),
        majority_connected: obj.majority_connected,
    }
}

/// The leader election message of an object.
pub open spec fn ble_message_of(obj: ble_msg__obj) -> BLEMessage
    recommends
        obj.complete(),
{
    BLEMessage {
        from: obj.from,
        to: obj.to,
        msg: match obj.msg->0 {
            ble_message_object::Msg::bestReq(request) => bestMsg::Request(best_request_of(request)),
            ble_message_object::Msg::bestRep(reply) => bestMsg::Reply(best_reply_of(reply)),
        },
    }
}

/// Reads a leader election message.
pub fn ble_message_from_proto(obj: ble_msg__obj) -> (message: BLEMessage)
    requires
        obj.complete(),
    ensures
        message == ble_message_of(obj),
        message.from == obj.from,
        message.to == obj.to,
        match obj.msg->0 {
            ble_message_object::Msg::bestReq(ro) => {
                &&& message.msg matches bestMsg::Request(rm)
                &&& rm.round == ro.round
            },
            ble_message_object::Msg::bestRep(ro) => {
                &&& message.msg matches bestMsg::Reply(rm)
                &&& rm.round == ro.round
                &&& rm.majority_connected == ro.majority_connected
                &&& ro.ballot is Some
                &&& ro.ballot->0.n == rm.ballot.n
                &&& ro.ballot->0.priority == rm.ballot.priority
                &&& ro.ballot->0.pid == rm.ballot.pid
            },
        },
{
    BLEMessage {
        from: obj.from,
        to: obj.to,
        msg: match obj.msg.unwrap() {
            ble_message_object::Msg::bestReq(request) => bestMsg::Request(
                best_request_from_proto(request),
            ),
            ble_message_object::Msg::bestRep(reply) => bestMsg::Reply(best_reply_from_proto(reply)),
        },
    }
}

} // verus!
