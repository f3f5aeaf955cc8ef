//! The RPC transport, which sends to other nodes, and the RPC service, which
//! answers them.
//!
//! Both decide here what is sent, to whom, and what is answered. To open
//! connections, to send and to run queries is up to their users.
use vstd::prelude::*;

use crate::ballot_leader_election::BLEMessage;
use crate::decode::{ble_message_from_proto, ble_message_of, message_of, sp_message_from_proto};
use crate::encode::{
    ble_message_to_proto_definition, ble_message_wire, message_wire, sp_mg_proto_def,
};
use crate::laws::{law_ble_message_round_trip, law_message_round_trip};
use crate::messages::Message;
use crate::pool::Connections;
use crate::proto;
use crate::proto::{ble_msg__obj, paxos_msg_obj, Query, QueryResults, QueryRow, Void};
use crate::server::{Consistency, StoreQuery, StoreResults};

verus! {

/// A wire object, and the address of the node that it is sent to.
#[derive(Debug, Clone, PartialEq, Eq)]
pub struct Outgoing<M> {
    pub peer: String,
    pub message: M,
}

/// RPC transport.
pub struct RpcTransport<F> {
    /// Node address mapping function.
    pub node_addr: F,
    /// The connections to other nodes that are idle.
    pub connections: Connections,
}

impl<F: Fn(u64) -> String> RpcTransport<F> {
    /// Creates a new RPC transport.
    pub fn new(node_addr: F) -> (transport: Self)
        ensures
            transport.node_addr == node_addr,
            transport.connections.wf(),
            transport.connections@ == Map::<Seq<char>, Seq<u64>>::empty(),
            transport.connections.opened() == 0,
    {
        RpcTransport { node_addr, connections: Connections::new() }
    }

    /// Prepares a replication message to be sent to the node `to_id`: its wire form
    /// goes to the address that the node has. The receiver reads the same message.
    pub fn send_seqpaxos(&self, to_id: u64, msg: Message) -> (out: Outgoing<paxos_msg_obj>)
        requires
            call_requires(self.node_addr, (to_id,)),
        ensures
            call_ensures(self.node_addr, (to_id,), out.peer),
            out.message@ == message_wire(msg@),
            out.message@.complete(),
            message_of(out.message@) == msg@,
    {
        proof {
            law_message_round_trip(msg@);
        }
        let message = sp_mg_proto_def(msg);
        let peer = (self.node_addr)(to_id);
        Outgoing { peer, message }
    }

    /// Prepares a leader election message to be sent to the node `to_id`: its wire
    /// form goes to the address that the node has. The receiver reads the same
    /// message.
    pub fn send_ble(&self, to_id: u64, msg: BLEMessage) -> (out: Outgoing<ble_msg__obj>)
        requires
            call_requires(self.node_addr, (to_id,)),
        ensures
            call_ensures(self.node_addr, (to_id,), out.peer),
            out.message == ble_message_wire(msg),
            out.message.complete(),
            ble_message_of(out.message) == msg,
    {
        proof {
            law_ble_message_round_trip(msg);
        }
        let message = ble_message_to_proto_definition(msg);
        let peer = (self.node_addr)(to_id);
        Outgoing { peer, message }
    }
}

/// Why a request is refused.
#[derive(Debug, Clone, PartialEq, Eq)]
pub enum Status {
    /// An internal error, with a message for the caller.
    Internal(String),
}

/// The consistency that a number on the wire asks for: relaxed reads where it
/// stands for them, and strong consistency otherwise.
pub open spec fn consistency_of(code: i32) -> Consistency {
    if code == proto::Consistency::RelaxedReads.code() {
        Consistency::RelaxedReads
    } else {
        Consistency::Strong
    }
}

/// RPC service.
#[derive(Debug)]
pub struct RpcService<S> {
    /// The server accessed via this RPC service.
    pub server: S,
}

impl<S> RpcService<S> {
    /// Creates a service for a server.
    pub fn new(server: S) -> (service: Self)
        ensures
            service.server == server,
    {
        RpcService { server }
    }

    /// Returns what the server has to run for a query: the statement, with the
    /// consistency that the query asks for. Where it asks for none, or for one that
    /// is not known, consistency is strong.
    pub fn execute(&self, request: Query) -> (query: StoreQuery)
        ensures
            query.sql@ == request.sql@,
            query.consistency == consistency_of(request.consistency),
            query.consistency is RelaxedReads <==> request.consistency == 1,
            query.consistency is Strong <==> request.consistency != 1,
    {
        let consistency = match proto::Consistency::from_i32(request.consistency) {
            Some(proto::Consistency::RelaxedReads) => Consistency::RelaxedReads,
            Some(proto::Consistency::Strong) => Consistency::Strong,
            None => Consistency::Strong,
        };
        StoreQuery { sql: request.sql, consistency }
    }

    /// Answers a query with what the server returned: the rows, in order, or the
    /// rendering of the server's error.
    pub fn execute_reply(&self, results: Result<StoreResults, String>) -> (reply: Result<
        QueryResults,
        Status,
    >)
        ensures
            match results {
                Ok(results) => {
                    &&& reply matches Ok(answer)
                    &&& answer@ == results@
                    &&& answer.rows@.len() == results.rows@.len()
                    &&& forall|i: int|
                        #![trigger answer.rows@[i]]
                        #![trigger results.rows@[i]]
                        0 <= i < results.rows@.len() ==> answer.rows@[i].values@.len()
                            == results.rows@[i].values@.len()
                    &&& forall|i: int, j: int|
                        #![trigger answer.rows@[i].values@[j]]
                        #![trigger results.rows@[i].values@[j]]
                        0 <= i < results.rows@.len() && 0 <= j < results.rows@[i].values@.len()
                            ==> answer.rows@[i].values@[j]@ == results.rows@[i].values@[j]@
                },
                Err(e) => reply matches Err(Status::Internal(message)) && message@ == e@,
            },
    {
        let results = match results {
            Ok(results) => results,
            Err(e) => return Err(Status::Internal(e)),
        };
        let mut rows: Vec<QueryRow> = Vec::new();
        for row in iter: results.rows.into_iter()
            invariant
                rows.len() == iter.index(),
                forall|i: int|
                    0 <= i < rows.len() ==> (#[trigger] rows@[i]).values == iter.seq()[i].values,
        {
            rows.push(QueryRow { values: row.values });
        }
        let reply = QueryResults { rows };
        assert(reply@ =~= results@);
        Ok(reply)
    }

    /// Receives a replication message. Returns the message for the server to
    /// handle, and the answer to the sender.
    pub fn sp_msg(&self, request: paxos_msg_obj) -> (received: (Message, Void))
        requires
            request@.complete(),
        ensures
            received.0@ == message_of(request@),
            received.0.from == request.from,
            received.0.to == request.to,
    {
        (sp_message_from_proto(request), Void {  })
    }

    /// Receives a leader election message. Returns the message for the server to
    /// handle, and the answer to the sender.
    pub fn ble_msg(&self, request: ble_msg__obj) -> (received: (BLEMessage, Void))
        requires
            request.complete(),
        ensures
            received.0 == ble_message_of(request),
            received.0.from == request.from,
            received.0.to == request.to,
    {
        (ble_message_from_proto(request), Void {  })
    }
}

} // verus!
