# chiselstore_rpc

The RPC layer of a replicated SQL store, with its logic verified by Verus.

- `src/messages.rs`, `src/ballot_leader_election.rs`, `src/server.rs`: the messages
  of the replication protocol and of leader election, and what the store takes and
  returns.
- `src/proto/`: the objects that travel on the wire, and which of them are complete.
- `src/encode.rs`, `src/decode.rs`: from messages to wire objects and back.
- `src/laws.rs`: every message is sent complete and comes back as it was sent.
- `src/pool.rs`, `src/pool_laws.rs`: the pools of idle connections, at most sixteen
  for each address, handed out in the order in which they were put back.
- `src/rpc.rs`: what the transport sends to whom, and what the service answers.
- `app/`: gRPC around the library.
