//! How a node that founds a cluster is set up.
use vstd::prelude::*;
use crate::log_model::CoreState;
use crate::storage::MemStorage;
use crate::types::{ConfState, ConfStateView, Snapshot, SnapshotMetadata, SnapshotMetadataView, SnapshotView};

verus! {

/// The Raft node of this project.
pub struct EbRaft;

/// The settings of a Raft node: its id, and its election timeout and heartbeat interval in ticks.
#[derive(Clone, Copy, Debug, PartialEq, Eq)]
pub struct NodeConfig {
    pub id: u64,
    pub election_tick: usize,
    pub heartbeat_tick: usize,
}

/// The settings are accepted by the Raft engine (the others at their defaults).
pub open spec fn config_valid(config: NodeConfig) -> bool {
    config.id != 0 && config.heartbeat_tick > 0 && config.election_tick > config.heartbeat_tick
}

/// `raft::Config::validate` of a config with this id, election and heartbeat ticks and
/// every other setting at its default: it refuses an id of 0, a heartbeat of 0 ticks and
/// an election timeout not longer than the heartbeat; the other conditions hold for the
/// defaults. It doubles the election timeout, which `requires` keeps from overflowing.
#[verifier::external_body]
fn validate_config(config: &NodeConfig) -> (r: Result<(), String>)
    requires
        config_valid(*config) ==> config.election_tick <= usize::MAX / 2,
    ensures
        r is Ok <==> config_valid(*config),
{
    let c = raft::Config {
        id: config.id, election_tick: config.election_tick, heartbeat_tick: config.heartbeat_tick,
        ..Default::default()
    };
    c.validate().map_err(|e| e.to_string())
}

/// The membership of a cluster whose only voter is node 1.
pub open spec fn founding_membership() -> ConfStateView {
    ConfStateView { voters: seq![1u64], ..ConfStateView::empty() }
}

/// The place where a founding leader's log starts: index 1, term 1, node 1 alone voting.
pub open spec fn founding_snapshot() -> SnapshotMetadataView {
    SnapshotMetadataView { conf_state: founding_membership(), index: 1, term: 1 }
}

/// The settings and the log store of the node that founds a cluster as its leader:
/// node 1, with an election timeout of 10 ticks and a heartbeat of 3, whose log starts
/// after a snapshot at index 1 and term 1 in which node 1 is the only voter. Starting
/// past index 0 makes every node that joins later catch up through a snapshot first.
pub fn leader_setup() -> (r: (NodeConfig, MemStorage))
    ensures
        r.0 == (NodeConfig { id: 1, election_tick: 10, heartbeat_tick: 3 }),
        config_valid(r.0),
        r.1@.wf(),
        r.1@.core == CoreState::initial().with_snapshot(founding_snapshot()),
        r.1@.core.log_in_order(),
        r.1@.core.first_index() == 2,
        r.1@.core.term_of(0) == Err::<u64, crate::error::StorageError>(crate::error::StorageError::Compacted),
        r.1@.core.term_of(1) == Ok::<u64, crate::error::StorageError>(1),
        r.1@.core.last_index() == 1,
        r.1@.core.hard_state.commit == 1,
        r.1@.core.hard_state.term == 1,
        r.1@.core.conf_state == founding_membership(),
        r.1@.snapshot == SnapshotView::empty(),
{
    let config = NodeConfig { id: 1, election_tick: 10, heartbeat_tick: 3 };
    let valid = validate_config(&config);
    assert(valid is Ok);
    let mut storage = MemStorage::create();
    let snapshot = Snapshot {
        data: Vec::new(),
        metadata: SnapshotMetadata { conf_state: ConfState::with_voters(vec![1u64]), index: 1, term: 1 },
    };
    assert(snapshot.metadata.conf_state.voters@ =~= seq![1u64]);
    assert(snapshot.metadata@ == founding_snapshot());
    let applied = storage.apply_snapshot(snapshot);
    assert(applied is Ok);
    (config, storage)
}

} // verus!
