//! The errors of the library.
use vstd::prelude::*;

verus! {

/// Why the log store refused a request; the same cases as the Raft storage contract.
#[derive(Clone, Copy, Debug, PartialEq, Eq)]
pub enum StorageError {
    /// The requested entries lie before the first index that the store still holds.
    Compacted,
    /// The requested entry lies after the last index of the store.
    Unavailable,
    /// The entries are being fetched and will be available later.
    LogTemporarilyUnavailable,
    /// The snapshot lies before the first index that the store holds.
    SnapshotOutOfDate,
    /// The snapshot is being created and will be available later.
    SnapshotTemporarilyUnavailable,
    /// Any other failure of the Raft engine.
    Other,
}

/// The errors of a Raft node.
#[derive(Clone, Debug, PartialEq, Eq)]
pub enum RaftError {
    /// The Raft engine or its storage failed.
    RaftError(StorageError),
    /// The cluster refused to let this node join.
    JoinError,
    /// The transport failed, with its message.
    Grpc(String),
    /// A remote procedure call failed, with its status message.
    RemoteCall(String),
    /// An input or output failed, with its message.
    Io(String),
    /// Something else failed, with its message.
    Other(String),
    /// The failure is not known.
    Unknown,
}

/// The result of an operation of a Raft node.
pub type RaftResult<T> = Result<T, RaftError>;

} // verus!
