//! RPC layer of a replicated SQL store.
//!
//! Nodes exchange two families of messages: the messages of the replication
//! protocol (sequence Paxos) and the heartbeats of ballot leader election. This
//! crate maps both onto the objects that travel on the wire and back, keeps the
//! pools of idle connections to the other nodes, and holds the decisions of the
//! RPC transport and of the RPC service.
#![allow(non_camel_case_types)]
#![allow(non_snake_case)]

pub mod ballot_leader_election;
pub mod decode;
pub mod encode;
pub mod laws;
pub mod messages;
pub mod model_laws;
pub mod pool;
pub mod pool_laws;
pub mod proto;
pub mod rpc;
pub mod server;
pub mod wire_laws;

pub use server::Consistency;
pub use server::StoreCommand;
