//! What holds of encoding and decoding together.
use vstd::prelude::*;

use crate::ballot_leader_election::BLEMessage;
use crate::decode::{
    ble_message_of, commands_of, low_usize, message_of, metadata_of, opt_stop_sign_of, stop_sign_of,
    sync_item_of,
};
use crate::encode::{
    ble_message_wire, commands_wire, message_wire, metadata_wire, opt_stop_sign_wire,
    stop_sign_wire, sync_item_wire,
};
use crate::messages::{MessageView, PaxosMsgView, StopSignView, SyncItemView};
use crate::proto::paxos_msg_object::MsgView;
use crate::proto::sync_item_object::ItemView;
use crate::proto::{ble_msg__obj, PaxosMsgObjView, StpObjView, StrCmdObjView, SyncItmObjView};
use crate::server::StoreCommandView;

verus! {

proof fn lemma_low_usize_of_small(n: u64)
    requires
        n <= usize::MAX,
    ensures
        low_usize(n) == n,
{
    vstd::arithmetic::div_mod::lemma_small_mod(n as nat, (usize::MAX + 1) as nat);
}

/// A list of commands comes back from the wire as it was sent.
pub proof fn law_commands_round_trip(cmds: Seq<StoreCommandView>)
    ensures
        commands_of(commands_wire(cmds)) == cmds,
{
    assert forall|i: int| 0 <= i < cmds.len() implies #[trigger] commands_of(commands_wire(cmds))[i]
        == cmds[i] by {
        lemma_low_usize_of_small(cmds[i].id as u64);
    }
    assert(commands_of(commands_wire(cmds)) =~= cmds);
}

/// The metadata of a stop sign come back from the wire as they were sent.
pub proof fn law_metadata_round_trip(metadata: Seq<u8>)
    ensures
        metadata_of(metadata_wire(metadata)) == metadata,
{
    assert(metadata_of(metadata_wire(metadata)) =~= metadata);
}

/// A sync item is sent complete and comes back from the wire as it was sent.
pub proof fn law_sync_item_round_trip(sync_item: SyncItemView)
    ensures
        sync_item_wire(sync_item).complete(),
        sync_item_of(sync_item_wire(sync_item)) == sync_item,
{
    if let SyncItemView::Entries(entries) = sync_item {
        law_commands_round_trip(entries);
    }
}

/// A stop sign comes back from the wire as it was sent.
pub proof fn law_stop_sign_round_trip(stop_sign: StopSignView)
    ensures
        stop_sign_of(stop_sign_wire(stop_sign)) == stop_sign,
{
    if let Some(metadata) = stop_sign.metadata {
        law_metadata_round_trip(metadata);
    }
}

proof fn lemma_opt_stop_sign_round_trip(stop_sign: Option<StopSignView>)
    ensures
        opt_stop_sign_of(opt_stop_sign_wire(stop_sign)) == stop_sign,
{
    if let Some(ss) = stop_sign {
        law_stop_sign_round_trip(ss);
    }
}

/// Every replication message is sent complete and comes back from the wire as it
/// was sent.
pub proof fn law_message_round_trip(message: MessageView)
    ensures
        message_wire(message).complete(),
        message_of(message_wire(message)) == message,
{
    match message.msg {
        PaxosMsgView::Promise(m) => {
            if let Some(s) = m.sync_item {
                law_sync_item_round_trip(s);
            }
            lemma_opt_stop_sign_round_trip(m.stopsign);
        },
        PaxosMsgView::AcceptSync(m) => {
            law_sync_item_round_trip(m.sync_item);
            lemma_opt_stop_sign_round_trip(m.stopsign);
        },
        PaxosMsgView::FirstAccept(m) => {
            law_commands_round_trip(m.entries);
        },
        PaxosMsgView::AcceptDecide(m) => {
            law_commands_round_trip(m.entries);
        },
        PaxosMsgView::ProposalForward(m) => {
            law_commands_round_trip(m);
        },
        PaxosMsgView::AcceptStopSign(m) => {
            law_stop_sign_round_trip(m.ss);
        },
        _ => {},
    }
}

/// Every leader election message is sent complete and comes back from the wire as
/// it was sent.
pub proof fn law_ble_message_round_trip(message: BLEMessage)
    ensures
        ble_message_wire(message).complete(),
        ble_message_of(ble_message_wire(message)) == message,
{
}

/// Every identifier of a list of commands fits in a `usize`.
pub open spec fn ids_fit(objs: Seq<StrCmdObjView>) -> bool {
    forall|i: int| 0 <= i < objs.len() ==> (#[trigger] objs[i]).id <= usize::MAX
}

/// Every number of the metadata, where there are any, is a byte.
pub open spec fn metadata_fit(obj: StpObjView) -> bool {
    obj.metadata is Some ==> forall|i: int|
        0 <= i < obj.metadata->0.len() ==> (#[trigger] obj.metadata->0[i]) < 256
}

pub open spec fn opt_metadata_fit(obj: Option<StpObjView>) -> bool {
    obj is Some ==> metadata_fit(obj->0)
}

pub open spec fn sync_item_fits(obj: SyncItmObjView) -> bool {
    obj.item matches Some(ItemView::Entries(entries)) ==> ids_fit(entries)
}

/// Nothing that the object holds is wider than what a message holds in its place.
pub open spec fn fits(obj: PaxosMsgObjView) -> bool {
    match obj.msg {
        Some(MsgView::Promise(m)) => {
            &&& m.sync_item is Some ==> sync_item_fits(m.sync_item->0)
            &&& opt_metadata_fit(m.stopsign)
        },
        Some(MsgView::AcceptSync(m)) => {
            &&& m.sync_item is Some ==> sync_item_fits(m.sync_item->0)
            &&& opt_metadata_fit(m.stopsign)
        },
        Some(MsgView::FirstAccept(m)) => ids_fit(m.entries),
        Some(MsgView::AcceptDecide(m)) => ids_fit(m.entries),
        Some(MsgView::ProposalForward(m)) => ids_fit(m.entries),
        Some(MsgView::AcceptStopSign(m)) => opt_metadata_fit(m.ss),
        _ => true,
    }
}

/// A list of commands whose identifiers fit is sent on as it was received.
pub proof fn law_commands_relay(objs: Seq<StrCmdObjView>)
    requires
        ids_fit(objs),
    ensures
        commands_wire(commands_of(objs)) == objs,
{
    assert forall|i: int| 0 <= i < objs.len() implies #[trigger] commands_wire(commands_of(objs))[i]
        == objs[i] by {
        assert(objs[i].id <= usize::MAX);
        lemma_low_usize_of_small(objs[i].id);
    }
    assert(commands_wire(commands_of(objs)) =~= objs);
}

/// A stop sign whose metadata are bytes is sent on as it was received.
pub proof fn law_stop_sign_relay(obj: StpObjView)
    requires
        metadata_fit(obj),
    ensures
        stop_sign_wire(stop_sign_of(obj)) == obj,
{
    if let Some(md) = obj.metadata {
        assert(metadata_wire(metadata_of(md)) =~= md) by {
            assert forall|i: int| 0 <= i < md.len() implies #[trigger] metadata_wire(
                metadata_of(md),
            )[i] == md[i] by {
                assert(md[i] < 256);
            }
        }
    }
}

proof fn lemma_opt_stop_sign_relay(obj: Option<StpObjView>)
    requires
        opt_metadata_fit(obj),
    ensures
        opt_stop_sign_wire(opt_stop_sign_of(obj)) == obj,
{
    if let Some(ss) = obj {
        law_stop_sign_relay(ss);
    }
}

/// A complete sync item whose identifiers fit is sent on as it was received.
pub proof fn law_sync_item_relay(obj: SyncItmObjView)
    requires
        obj.complete(),
        sync_item_fits(obj),
    ensures
        sync_item_wire(sync_item_of(obj)) == obj,
{
    if let Some(ItemView::Entries(entries)) = obj.item {
        law_commands_relay(entries);
    }
}

/// A complete object in which everything fits is sent on as it was received:
/// reading it loses nothing.
pub proof fn law_message_relay(obj: PaxosMsgObjView)
    requires
        obj.complete(),
        fits(obj),
    ensures
        message_wire(message_of(obj)) == obj,
{
    match obj.msg->0 {
        MsgView::Promise(m) => {
            if let Some(s) = m.sync_item {
                law_sync_item_relay(s);
            }
            lemma_opt_stop_sign_relay(m.stopsign);
        },
        MsgView::AcceptSync(m) => {
            law_sync_item_relay(m.sync_item->0);
            lemma_opt_stop_sign_relay(m.stopsign);
        },
        MsgView::FirstAccept(m) => {
            law_commands_relay(m.entries);
        },
        MsgView::AcceptDecide(m) => {
            law_commands_relay(m.entries);
        },
        MsgView::ProposalForward(m) => {
            law_commands_relay(m.entries);
        },
        MsgView::AcceptStopSign(m) => {
            law_stop_sign_relay(m.ss->0);
        },
        _ => {},
    }
}

/// What is sent fits.
pub proof fn law_sent_fits(message: MessageView)
    ensures
        fits(message_wire(message)),
{
}

/// A complete leader election object is sent on as it was received.
pub proof fn law_ble_message_relay(obj: ble_msg__obj)
    requires
        obj.complete(),
    ensures
        ble_message_wire(ble_message_of(obj)) == obj,
{
}

} // verus!
