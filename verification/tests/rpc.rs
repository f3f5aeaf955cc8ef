use chiselstore_rpc::ballot_leader_election::{bestMsg, bestRequest, BLEMessage};
use chiselstore_rpc::messages::{Message, PaxosMsg};
use chiselstore_rpc::pool::Acquired;
use chiselstore_rpc::proto::{
    ble_message_object, beat_req_obj, ble_msg__obj, paxos_msg_obj, paxos_msg_object, prpd_r_obj,
    Query, QueryResults, QueryRow, Void,
};
use chiselstore_rpc::proto;
use chiselstore_rpc::rpc::{RpcService, RpcTransport, Status};
use chiselstore_rpc::server::{StoreQuery, StoreResults, StoreRow};
use chiselstore_rpc::Consistency;

fn node_addr() -> Box<dyn Fn(u64) -> String + Send + Sync> {
    Box::new(|id| format!("http://node{}:5000", id))
}

#[test]
fn transport_sends_to_the_node() {
    let transport = RpcTransport::new(node_addr());
    let msg = Message { from: 1, to: 9, msg: PaxosMsg::PrepareReq };
    let out = transport.send_seqpaxos(2, msg);
    assert_eq!(out.peer, "http://node2:5000");
    assert_eq!(
        out.message,
        paxos_msg_obj {
            from: 1,
            to: 9,
            msg: Some(paxos_msg_object::Msg::PrepareReq(prpd_r_obj {})),
        }
    );
}

#[test]
fn transport_sends_heartbeats_to_the_node() {
    let transport = RpcTransport::new(node_addr());
    let msg = BLEMessage { from: 1, to: 3, msg: bestMsg::Request(bestRequest { round: 4 }) };
    let out = transport.send_ble(3, msg);
    assert_eq!(out.peer, "http://node3:5000");
    assert_eq!(
        out.message,
        ble_msg__obj {
            from: 1,
            to: 3,
            msg: Some(ble_message_object::Msg::bestReq(beat_req_obj { round: 4 })),
        }
    );
}

#[test]
fn transport_starts_without_connections() {
    let mut transport = RpcTransport::new(node_addr());
    let peer = "http://node2:5000".to_string();
    assert_eq!(transport.connections.connection(peer.clone()), Acquired::Dial(peer));
}

#[test]
fn service_reads_what_transport_sends() {
    let transport = RpcTransport::new(node_addr());
    let service = RpcService::new(());
    let msg = Message { from: 1, to: 2, msg: PaxosMsg::PrepareReq };
    let out = transport.send_seqpaxos(2, msg.clone());
    assert!(out.message.is_complete());
    assert_eq!(service.sp_msg(out.message), (msg, Void {}));

    let msg = BLEMessage { from: 1, to: 2, msg: bestMsg::Request(bestRequest { round: 4 }) };
    let out = transport.send_ble(2, msg);
    assert!(out.message.is_complete());
    assert_eq!(service.ble_msg(out.message), (msg, Void {}));
}

#[test]
fn service_keeps_its_server() {
    assert_eq!(RpcService::new(17).server, 17);
}

fn ask(consistency: i32) -> StoreQuery {
    let service = RpcService::new(());
    service.execute(Query { sql: "SELECT 1".to_string(), consistency })
}

fn query(consistency: Consistency) -> StoreQuery {
    StoreQuery { sql: "SELECT 1".to_string(), consistency }
}

#[test]
fn query_is_strong_by_default() {
    assert_eq!(ask(0), query(Consistency::Strong));
    assert_eq!(ask(proto::Consistency::Strong.to_i32()), query(Consistency::Strong));
}

#[test]
fn relaxed_reads_are_handed_to_the_server() {
    assert_eq!(ask(1), query(Consistency::RelaxedReads));
    assert_eq!(ask(proto::Consistency::RelaxedReads.to_i32()), query(Consistency::RelaxedReads));
}

#[test]
fn unknown_consistency_is_strong() {
    for code in [-1, 2, i32::MIN, i32::MAX] {
        assert_eq!(proto::Consistency::from_i32(code), None);
        assert_eq!(ask(code), query(Consistency::Strong));
    }
}

#[test]
fn rows_are_answered_in_order() {
    let service = RpcService::new(());
    let row = |values: &[&str]| values.iter().map(|v| v.to_string()).collect::<Vec<String>>();
    let results = StoreResults {
        rows: vec![
            StoreRow { values: row(&["1", "a"]) },
            StoreRow { values: row(&[]) },
            StoreRow { values: row(&["2", "b"]) },
        ],
    };
    let expected = QueryResults {
        rows: vec![
            QueryRow { values: row(&["1", "a"]) },
            QueryRow { values: row(&[]) },
            QueryRow { values: row(&["2", "b"]) },
        ],
    };
    assert_eq!(service.execute_reply(Ok(results)), Ok(expected));
}

#[test]
fn failed_query_is_an_internal_error() {
    let service = RpcService::new(());
    let reply = service.execute_reply(Err("no such table: t".to_string()));
    assert_eq!(reply, Err(Status::Internal("no such table: t".to_string())));
}
