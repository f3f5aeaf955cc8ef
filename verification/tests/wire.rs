use chiselstore_rpc::ballot_leader_election::{bestMsg, bestReply, bestRequest, BLEMessage, Ballot};
use chiselstore_rpc::decode::{
    ballot_from_proto, ble_message_from_proto, compaction_from_proto, first_accept_from_proto,
    proposal_forward_from_proto, sp_message_from_proto, stop_sign_from_proto,
    store_command_from_proto, sync_item_from_proto,
};
use chiselstore_rpc::encode::{
    balt_proto, ble_message_to_proto_definition, compaction_proto, first_accept_proto,
    proposal_forward_proto, sp_mg_proto_def, stop_sign_proto, str_cmd_proto, syn_itm_proto,
};
use chiselstore_rpc::messages::{
    AcceptDecide, AcceptStopSign, AcceptSync, Accepted, AcceptedStopSign, Compaction, Decide,
    DecideStopSign, FirstAccept, Message, PaxosMsg, Prepare, Promise, SnapshotType, StopSign,
    SyncItem,
};
use chiselstore_rpc::proto::{
    acc_dcd_obj, acc_ed_obj, acc_sync_obj, ballot_obj, beat_rep_obj, beat_req_obj,
    ble_message_object, ble_msg__obj, comp_obj, compaction_object, dcd_obj, f_acc_obj, p_obj,
    paxos_msg_obj, paxos_msg_object, prep_obj, prpd_fwd_obj, prpd_r_obj, stop_sign_object, stp_obj,
    str_cmd_obj, sync_item_object, sync_itm_obj, Acceptedstp_obj, Acceptstp_obj, Decidestp_obj,
};
use chiselstore_rpc::StoreCommand;

fn ballot(n: u32) -> Ballot {
    Ballot { n, priority: 10 + n as u64, pid: 20 + n as u64 }
}

fn ballot_wire(n: u32) -> ballot_obj {
    ballot_obj { n, priority: 10 + n as u64, pid: 20 + n as u64 }
}

fn commands() -> Vec<StoreCommand> {
    vec![
        StoreCommand { id: 7, sql: "CREATE TABLE t (a)".to_string() },
        StoreCommand { id: 8, sql: "INSERT INTO t VALUES (1)".to_string() },
    ]
}

fn commands_wire() -> Vec<str_cmd_obj> {
    vec![
        str_cmd_obj { id: 7, sql: "CREATE TABLE t (a)".to_string() },
        str_cmd_obj { id: 8, sql: "INSERT INTO t VALUES (1)".to_string() },
    ]
}

fn stop_sign() -> StopSign {
    StopSign { config_id: 3, nodes: vec![1, 2, 5], metadata: Some(vec![0, 127, 255]) }
}

fn stop_sign_wire() -> stp_obj {
    stp_obj {
        config_id: 3,
        nodes: vec![1, 2, 5],
        metadata: Some(stop_sign_object::Metadata { vec: vec![0, 127, 255] }),
    }
}

/// Every kind of replication message, with its body on the wire.
fn bodies() -> Vec<(PaxosMsg, paxos_msg_object::Msg)> {
    vec![
        (PaxosMsg::PrepareReq, paxos_msg_object::Msg::PrepareReq(prpd_r_obj {})),
        (
            PaxosMsg::Prepare(Prepare { n: ballot(1), ld: 4, n_accepted: ballot(2), la: 5 }),
            paxos_msg_object::Msg::Prepare(prep_obj {
                n: Some(ballot_wire(1)),
                ld: 4,
                n_accepted: Some(ballot_wire(2)),
                la: 5,
            }),
        ),
        (
            PaxosMsg::Promise(Promise {
                n: ballot(1),
                n_accepted: ballot(2),
                sync_item: Some(SyncItem::Entries(commands())),
                ld: 4,
                la: 5,
                stopsign: Some(stop_sign()),
            }),
            paxos_msg_object::Msg::Promise(p_obj {
                n: Some(ballot_wire(1)),
                n_accepted: Some(ballot_wire(2)),
                sync_item: Some(sync_itm_obj {
                    item: Some(sync_item_object::Item::Entries(sync_item_object::Entries {
                        vec: commands_wire(),
                    })),
                }),
                ld: 4,
                la: 5,
                stopsign: Some(stop_sign_wire()),
            }),
        ),
        (
            PaxosMsg::Promise(Promise {
                n: ballot(1),
                n_accepted: ballot(2),
                sync_item: None,
                ld: 0,
                la: u64::MAX,
                stopsign: None,
            }),
            paxos_msg_object::Msg::Promise(p_obj {
                n: Some(ballot_wire(1)),
                n_accepted: Some(ballot_wire(2)),
                sync_item: None,
                ld: 0,
                la: u64::MAX,
                stopsign: None,
            }),
        ),
        (
            PaxosMsg::AcceptSync(AcceptSync {
                n: ballot(3),
                sync_item: SyncItem::Snapshot(SnapshotType::Delta),
                sync_idx: 6,
                decide_idx: Some(9),
                stopsign: None,
            }),
            paxos_msg_object::Msg::AcceptSync(acc_sync_obj {
                n: Some(ballot_wire(3)),
                sync_item: Some(sync_itm_obj { item: Some(sync_item_object::Item::Snapshot(1)) }),
                sync_idx: 6,
                decide_idx: Some(9),
                stopsign: None,
            }),
        ),
        (
            PaxosMsg::FirstAccept(FirstAccept { n: ballot(4), entries: commands() }),
            paxos_msg_object::Msg::FirstAccept(f_acc_obj {
                n: Some(ballot_wire(4)),
                entries: commands_wire(),
            }),
        ),
        (
            PaxosMsg::AcceptDecide(AcceptDecide { n: ballot(5), ld: 11, entries: commands() }),
            paxos_msg_object::Msg::AcceptDecide(acc_dcd_obj {
                n: Some(ballot_wire(5)),
                ld: 11,
                entries: commands_wire(),
            }),
        ),
        (
            PaxosMsg::Accepted(Accepted { n: ballot(6), la: 12 }),
            paxos_msg_object::Msg::Accepted(acc_ed_obj { n: Some(ballot_wire(6)), la: 12 }),
        ),
        (
            PaxosMsg::Decide(Decide { n: ballot(7), ld: 13 }),
            paxos_msg_object::Msg::Decide(dcd_obj { n: Some(ballot_wire(7)), ld: 13 }),
        ),
        (
            PaxosMsg::ProposalForward(commands()),
            paxos_msg_object::Msg::ProposalForward(prpd_fwd_obj { entries: commands_wire() }),
        ),
        (
            PaxosMsg::Compaction(Compaction::Trim(Some(14))),
            paxos_msg_object::Msg::Compaction(comp_obj {
                compaction: Some(compaction_object::Compaction::Trim(compaction_object::Trim {
                    trim: Some(14),
                })),
            }),
        ),
        (
            PaxosMsg::ForwardCompaction(Compaction::Snapshot(15)),
            paxos_msg_object::Msg::ForwardCompaction(comp_obj {
                compaction: Some(compaction_object::Compaction::Snapshot(15)),
            }),
        ),
        (
            PaxosMsg::AcceptStopSign(AcceptStopSign { n: ballot(8), ss: stop_sign() }),
            paxos_msg_object::Msg::AcceptStopSign(Acceptstp_obj {
                n: Some(ballot_wire(8)),
                ss: Some(stop_sign_wire()),
            }),
        ),
        (
            PaxosMsg::AcceptedStopSign(AcceptedStopSign { n: ballot(9) }),
            paxos_msg_object::Msg::AcceptedStopSign(Acceptedstp_obj { n: Some(ballot_wire(9)) }),
        ),
        (
            PaxosMsg::DecideStopSign(DecideStopSign { n: ballot(1) }),
            paxos_msg_object::Msg::DecideStopSign(Decidestp_obj { n: Some(ballot_wire(1)) }),
        ),
    ]
}

#[test]
fn every_message_is_encoded() {
    for (msg, body) in bodies() {
        let obj = sp_mg_proto_def(Message { from: 1, to: 2, msg });
        assert_eq!(obj, paxos_msg_obj { from: 1, to: 2, msg: Some(body) });
    }
}

#[test]
fn every_message_is_decoded() {
    for (msg, body) in bodies() {
        let obj = paxos_msg_obj { from: 3, to: 4, msg: Some(body) };
        assert!(obj.is_complete());
        assert_eq!(sp_message_from_proto(obj), Message { from: 3, to: 4, msg });
    }
}

#[test]
fn every_message_comes_back() {
    for (msg, _) in bodies() {
        let message = Message { from: 5, to: 6, msg };
        let obj = sp_mg_proto_def(message.clone());
        assert!(obj.is_complete());
        assert_eq!(sp_message_from_proto(obj), message);
    }
}

#[test]
fn every_object_is_relayed() {
    for (_, body) in bodies() {
        let obj = paxos_msg_obj { from: 5, to: 6, msg: Some(body) };
        assert_eq!(sp_mg_proto_def(sp_message_from_proto(obj.clone())), obj);
    }
}

#[test]
fn command_round_trip() {
    let cmd = StoreCommand { id: usize::MAX, sql: "SELECT 1".to_string() };
    let obj = str_cmd_proto(cmd.clone());
    assert_eq!(obj, str_cmd_obj { id: usize::MAX as u64, sql: "SELECT 1".to_string() });
    assert_eq!(store_command_from_proto(obj), cmd);
}

#[test]
fn command_id_keeps_low_bits() {
    let obj = str_cmd_obj { id: u64::MAX, sql: String::new() };
    assert_eq!(store_command_from_proto(obj).id, usize::MAX);
}

#[test]
fn first_accept_round_trip() {
    let first = FirstAccept { n: ballot(2), entries: commands() };
    let obj = first_accept_proto(first.clone());
    assert_eq!(obj, f_acc_obj { n: Some(ballot_wire(2)), entries: commands_wire() });
    assert!(obj.is_complete());
    assert_eq!(first_accept_from_proto(obj), first);
}

#[test]
fn proposals_keep_their_order() {
    let obj = proposal_forward_proto(commands());
    assert_eq!(obj, prpd_fwd_obj { entries: commands_wire() });
    assert_eq!(proposal_forward_from_proto(obj), commands());
    assert_eq!(proposal_forward_proto(vec![]), prpd_fwd_obj { entries: vec![] });
}

#[test]
fn ballot_round_trip() {
    assert_eq!(balt_proto(ballot(3)), ballot_wire(3));
    assert_eq!(ballot_from_proto(ballot_wire(3)), ballot(3));
}

#[test]
fn snapshots_have_numbers() {
    let kinds = [SnapshotType::Complete, SnapshotType::Delta, SnapshotType::_phtm];
    for (code, kind) in kinds.into_iter().enumerate() {
        let obj = syn_itm_proto(SyncItem::Snapshot(kind));
        assert_eq!(obj.item, Some(sync_item_object::Item::Snapshot(code as i32)));
        assert_eq!(sync_item_from_proto(obj), SyncItem::Snapshot(kind));
    }
}

#[test]
fn nothing_to_bring_over() {
    let obj = syn_itm_proto(SyncItem::Nothing);
    assert_eq!(obj.item, Some(sync_item_object::Item::Nothing(sync_item_object::Nothing {})));
    assert_eq!(sync_item_from_proto(obj), SyncItem::Nothing);
}

#[test]
fn unknown_snapshot_is_not_complete() {
    for code in [-1, 3, i32::MAX] {
        let obj = sync_itm_obj { item: Some(sync_item_object::Item::Snapshot(code)) };
        assert!(!obj.is_complete());
        assert_eq!(sync_item_object::Snapshot::from_i32(code), None);
    }
}

#[test]
fn stop_sign_round_trip() {
    assert_eq!(stop_sign_proto(stop_sign()), stop_sign_wire());
    assert_eq!(stop_sign_from_proto(stop_sign_wire()), stop_sign());
    let bare = StopSign { config_id: 0, nodes: vec![], metadata: None };
    assert_eq!(stop_sign_from_proto(stop_sign_proto(bare.clone())), bare);
}

#[test]
fn metadata_keep_low_bytes() {
    let obj = stp_obj {
        config_id: 1,
        nodes: vec![],
        metadata: Some(stop_sign_object::Metadata { vec: vec![256, 257, u32::MAX] }),
    };
    assert_eq!(stop_sign_from_proto(obj).metadata, Some(vec![0, 1, 255]));
}

#[test]
fn trim_may_be_open() {
    let obj = compaction_proto(Compaction::Trim(None));
    assert_eq!(
        obj.compaction,
        Some(compaction_object::Compaction::Trim(compaction_object::Trim { trim: None }))
    );
    assert_eq!(compaction_from_proto(obj), Compaction::Trim(None));
}

#[test]
fn heartbeats_round_trip() {
    let request = BLEMessage { from: 1, to: 2, msg: bestMsg::Request(bestRequest { round: 3 }) };
    let obj = ble_message_to_proto_definition(request);
    assert_eq!(
        obj,
        ble_msg__obj {
            from: 1,
            to: 2,
            msg: Some(ble_message_object::Msg::bestReq(beat_req_obj { round: 3 })),
        }
    );
    assert!(obj.is_complete());
    assert_eq!(ble_message_from_proto(obj), request);

    let reply = BLEMessage {
        from: 2,
        to: 1,
        msg: bestMsg::Reply(bestReply { round: 3, ballot: ballot(4), majority_connected: true }),
    };
    let obj = ble_message_to_proto_definition(reply);
    assert_eq!(
        obj,
        ble_msg__obj {
            from: 2,
            to: 1,
            msg: Some(ble_message_object::Msg::bestRep(beat_rep_obj {
                round: 3,
                ballot: Some(ballot_wire(4)),
                majority_connected: true,
            })),
        }
    );
    assert!(obj.is_complete());
    assert_eq!(ble_message_from_proto(obj), reply);
    assert_eq!(ble_message_to_proto_definition(ble_message_from_proto(obj)), obj);
}

#[test]
fn gaps_are_not_complete() {
    let bodies = vec![
        paxos_msg_object::Msg::Prepare(prep_obj {
            n: None,
            ld: 0,
            n_accepted: Some(ballot_wire(1)),
            la: 0,
        }),
        paxos_msg_object::Msg::Prepare(prep_obj {
            n: Some(ballot_wire(1)),
            ld: 0,
            n_accepted: None,
            la: 0,
        }),
        paxos_msg_object::Msg::Promise(p_obj {
            n: Some(ballot_wire(1)),
            n_accepted: Some(ballot_wire(1)),
            sync_item: Some(sync_itm_obj { item: None }),
            ld: 0,
            la: 0,
            stopsign: None,
        }),
        paxos_msg_object::Msg::AcceptSync(acc_sync_obj {
            n: Some(ballot_wire(1)),
            sync_item: None,
            sync_idx: 0,
            decide_idx: None,
            stopsign: None,
        }),
        paxos_msg_object::Msg::FirstAccept(f_acc_obj { n: None, entries: vec![] }),
        paxos_msg_object::Msg::AcceptDecide(acc_dcd_obj { n: None, ld: 0, entries: vec![] }),
        paxos_msg_object::Msg::Accepted(acc_ed_obj { n: None, la: 0 }),
        paxos_msg_object::Msg::Decide(dcd_obj { n: None, ld: 0 }),
        paxos_msg_object::Msg::Compaction(comp_obj { compaction: None }),
        paxos_msg_object::Msg::ForwardCompaction(comp_obj { compaction: None }),
        paxos_msg_object::Msg::AcceptStopSign(Acceptstp_obj { n: Some(ballot_wire(1)), ss: None }),
        paxos_msg_object::Msg::AcceptedStopSign(Acceptedstp_obj { n: None }),
        paxos_msg_object::Msg::DecideStopSign(Decidestp_obj { n: None }),
    ];
    for body in bodies {
        assert!(!paxos_msg_obj { from: 1, to: 2, msg: Some(body) }.is_complete());
    }
    assert!(!paxos_msg_obj { from: 1, to: 2, msg: None }.is_complete());
    assert!(!ble_msg__obj { from: 1, to: 2, msg: None }.is_complete());
    let reply = beat_rep_obj { round: 1, ballot: None, majority_connected: false };
    let msg = Some(ble_message_object::Msg::bestRep(reply));
    assert!(!ble_msg__obj { from: 1, to: 2, msg }.is_complete());
}
