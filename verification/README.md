# eb_raft

A Raft node library around the `raft` crate's in-memory log store and an example
key-value state machine, with its logic proved in Verus.

- `src/types.rs`, `src/error.rs`: the Raft records and errors as plain values.
- `src/log_model.rs`: the model of the engine's in-memory store and of each operation on it.
- `src/core_store.rs`: the trusted items that reach `raft::storage::MemStorage`.
- `src/storage.rs`: the node's log store; `src/storage_laws.rs`: what holds across its operations.
- `src/codec.rs`: the trusted items that reach `bincode`; `src/kv.rs`: the key-value state machine.
- `src/node.rs`, `src/membership.rs`, `src/mailbox.rs`, `src/retry.rs`: the decisions of a node
  that founds or joins a cluster, answers proposals and delivers messages.
- `app/`: the program: command line, logging, channels, the Raft engine's node, and the network.
