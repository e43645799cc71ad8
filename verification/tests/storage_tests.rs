use eb_raft::error::{RaftError, StorageError};
use eb_raft::node::leader_setup;
use eb_raft::node::NodeConfig;
use eb_raft::storage::MemStorage;
use eb_raft::types::{ConfState, Entry, EntryType, HardState, Snapshot, SnapshotMetadata};

fn entry(index: u64, term: u64) -> Entry {
    Entry { entry_type: EntryType::EntryNormal, term, index, data: vec![index as u8], context: vec![], sync_log: false }
}

fn snapshot_at(index: u64, term: u64, voters: Vec<u64>) -> Snapshot {
    Snapshot {
        data: vec![],
        metadata: SnapshotMetadata { conf_state: ConfState::with_voters(voters), index, term },
    }
}

fn empty_conf() -> ConfState {
    ConfState::with_voters(vec![])
}

#[test]
fn new_store_is_empty() {
    let s = MemStorage::create();
    assert_eq!(s.first_index(), Ok(1));
    assert_eq!(s.last_index(), Ok(0));
    assert_eq!(s.term(0), Ok(0));
    assert_eq!(s.term(1), Err(RaftError::RaftError(StorageError::Unavailable)));
    let st = s.initial_state().unwrap();
    assert_eq!(st.hard_state, HardState { term: 0, vote: 0, commit: 0 });
    assert_eq!(st.conf_state, empty_conf());
    assert_eq!(s.snapshot(0, 0), Ok(snapshot_at(0, 0, vec![])));
    assert_eq!(s.entries(0, 0, None), Err(RaftError::RaftError(StorageError::Compacted)));
}

#[test]
fn append_then_read_back() {
    let mut s = MemStorage::create();
    let ents = vec![entry(1, 1), entry(2, 1), entry(3, 2)];
    assert_eq!(s.append(&ents), Ok(()));
    assert_eq!(s.first_index(), Ok(1));
    assert_eq!(s.last_index(), Ok(3));
    assert_eq!(s.entries(1, 4, None), Ok(ents.clone()));
    assert_eq!(s.entries(2, 3, None), Ok(vec![entry(2, 1)]));
    assert_eq!(s.entries(4, 4, None), Ok(vec![]));
    assert_eq!(s.term(1), Ok(1));
    assert_eq!(s.term(3), Ok(2));
    assert_eq!(s.term(4), Err(RaftError::RaftError(StorageError::Unavailable)));
}

#[test]
fn append_empty_changes_nothing() {
    let mut s = MemStorage::create();
    assert_eq!(s.append(&[entry(1, 1)]), Ok(()));
    assert_eq!(s.append(&[]), Ok(()));
    assert_eq!(s.entries(1, 2, None), Ok(vec![entry(1, 1)]));
    assert_eq!(s.last_index(), Ok(1));
}

#[test]
fn append_overwrites_conflicting_suffix() {
    let mut s = MemStorage::create();
    s.append(&[entry(1, 1), entry(2, 1), entry(3, 1)]).unwrap();
    s.append(&[entry(2, 5)]).unwrap();
    assert_eq!(s.last_index(), Ok(2));
    assert_eq!(s.entries(1, 3, None), Ok(vec![entry(1, 1), entry(2, 5)]));
    assert_eq!(s.term(2), Ok(5));
    assert_eq!(s.term(3), Err(RaftError::RaftError(StorageError::Unavailable)));
    // appending right after the last entry extends the log
    s.append(&[entry(3, 6), entry(4, 6)]).unwrap();
    assert_eq!(s.last_index(), Ok(4));
    assert_eq!(s.term(4), Ok(6));
}

#[test]
fn entries_keep_the_kind_and_payload() {
    let mut s = MemStorage::create();
    let e = Entry {
        entry_type: EntryType::EntryConfChangeV2,
        term: 2,
        index: 1,
        data: vec![1, 2, 3],
        context: vec![9],
        sync_log: true,
    };
    s.append(&[e.clone(), Entry { entry_type: EntryType::EntryConfChange, ..entry(2, 2) }]).unwrap();
    let got = s.entries(1, 3, None).unwrap();
    assert_eq!(got[0], e);
    assert_eq!(got[1].entry_type, EntryType::EntryConfChange);
}

#[test]
fn size_limit_keeps_at_least_one_entry() {
    let mut s = MemStorage::create();
    s.append(&[entry(1, 1), entry(2, 1), entry(3, 1)]).unwrap();
    assert_eq!(s.entries(1, 4, Some(0)), Ok(vec![entry(1, 1)]));
    assert_eq!(s.entries(1, 4, Some(u64::MAX)).unwrap().len(), 3);
    assert_eq!(s.entries(1, 4, Some(1_000_000)).unwrap().len(), 3);
    assert_eq!(s.entries(1, 4, None).unwrap().len(), 3);
}

#[test]
fn size_limit_stops_where_the_next_entry_passes_it() {
    // each of these entries encodes to 7 bytes: term, index and one data byte
    let mut s = MemStorage::create();
    s.append(&[entry(1, 1), entry(2, 1), entry(3, 1)]).unwrap();
    assert_eq!(s.entries(1, 4, Some(14)), Ok(vec![entry(1, 1), entry(2, 1)]));
    assert_eq!(s.entries(1, 4, Some(13)), Ok(vec![entry(1, 1)]));
    assert_eq!(s.entries(1, 4, Some(21)).unwrap().len(), 3);
    assert_eq!(s.entries(2, 4, Some(20)), Ok(vec![entry(2, 1), entry(3, 1)]));
}

#[test]
fn compact_discards_prefix() {
    let mut s = MemStorage::create();
    s.append(&[entry(1, 1), entry(2, 1), entry(3, 2), entry(4, 2)]).unwrap();
    assert_eq!(s.compact(3), Ok(()));
    assert_eq!(s.first_index(), Ok(3));
    assert_eq!(s.last_index(), Ok(4));
    assert_eq!(s.term(2), Err(RaftError::RaftError(StorageError::Compacted)));
    assert_eq!(s.term(3), Ok(2));
    assert_eq!(s.entries(2, 4, None), Err(RaftError::RaftError(StorageError::Compacted)));
    assert_eq!(s.entries(3, 5, None), Ok(vec![entry(3, 2), entry(4, 2)]));
    // compacting at or before the first index does nothing
    assert_eq!(s.compact(2), Ok(()));
    assert_eq!(s.first_index(), Ok(3));
}

#[test]
fn compact_everything_falls_back_to_snapshot() {
    let mut s = MemStorage::create();
    s.append(&[entry(1, 1), entry(2, 1)]).unwrap();
    s.compact(3).unwrap();
    assert_eq!(s.first_index(), Ok(1));
    assert_eq!(s.last_index(), Ok(0));
}

#[test]
fn hard_state_read_back() {
    let mut s = MemStorage::create();
    let hs = HardState { term: 4, vote: 2, commit: 7 };
    assert_eq!(s.set_hard_state(&hs), Ok(()));
    assert_eq!(s.initial_state().unwrap().hard_state, hs);
    assert_eq!(s.set_hard_state_comit(9), Ok(()));
    assert_eq!(s.initial_state().unwrap().hard_state, HardState { term: 4, vote: 2, commit: 9 });
}

#[test]
fn conf_state_read_back() {
    let mut s = MemStorage::create();
    let cs = ConfState {
        voters: vec![1, 2, 3],
        learners: vec![4],
        voters_outgoing: vec![1],
        learners_next: vec![5],
        auto_leave: true,
    };
    assert_eq!(s.set_conf_state(&cs), Ok(()));
    assert_eq!(s.initial_state().unwrap().conf_state, cs);
    assert_eq!(s.initial_state().unwrap().hard_state, HardState { term: 0, vote: 0, commit: 0 });
}

#[test]
fn apply_snapshot_resets_log() {
    let mut s = MemStorage::create();
    s.append(&[entry(1, 1), entry(2, 1)]).unwrap();
    s.set_hard_state(&HardState { term: 7, vote: 3, commit: 1 }).unwrap();
    assert_eq!(s.apply_snapshot(snapshot_at(5, 3, vec![1, 2])), Ok(()));
    assert_eq!(s.first_index(), Ok(6));
    assert_eq!(s.last_index(), Ok(5));
    assert_eq!(s.term(5), Ok(3));
    assert_eq!(s.term(4), Err(RaftError::RaftError(StorageError::Compacted)));
    let st = s.initial_state().unwrap();
    assert_eq!(st.hard_state, HardState { term: 7, vote: 3, commit: 5 });
    assert_eq!(st.conf_state.voters, vec![1, 2]);
    // the node's own snapshot is not the applied one
    assert_eq!(s.snapshot(0, 0), Ok(snapshot_at(0, 0, vec![])));
}

#[test]
fn apply_snapshot_raises_term() {
    let mut s = MemStorage::create();
    s.apply_snapshot(snapshot_at(4, 9, vec![1])).unwrap();
    assert_eq!(s.initial_state().unwrap().hard_state, HardState { term: 9, vote: 0, commit: 4 });
}

#[test]
fn apply_old_snapshot_is_refused() {
    let mut s = MemStorage::create();
    s.append(&[entry(1, 1), entry(2, 1), entry(3, 1)]).unwrap();
    s.compact(3).unwrap();
    assert_eq!(
        s.apply_snapshot(snapshot_at(2, 1, vec![1])),
        Err(RaftError::RaftError(StorageError::SnapshotOutOfDate))
    );
    assert_eq!(s.first_index(), Ok(3));
    assert_eq!(s.last_index(), Ok(3));
    // a snapshot at the first index is accepted
    assert_eq!(s.apply_snapshot(snapshot_at(3, 1, vec![1])), Ok(()));
    assert_eq!(s.first_index(), Ok(4));
}

#[test]
fn create_snapshot_then_snapshot() {
    let mut s = MemStorage::create();
    s.append(&[entry(1, 1), entry(2, 3), entry(3, 4)]).unwrap();
    s.set_conf_state(&ConfState::with_voters(vec![1, 2])).unwrap();
    s.set_hard_state_comit(2).unwrap();
    assert_eq!(s.create_snapshot(b"state".to_vec()), Ok(()));
    let snap = s.snapshot(10, 2).unwrap();
    assert_eq!(snap.data, b"state".to_vec());
    assert_eq!(snap.metadata.index, 2);
    assert_eq!(snap.metadata.term, 3);
    assert_eq!(snap.metadata.conf_state, ConfState::with_voters(vec![1, 2]));
    // the log is untouched
    assert_eq!(s.last_index(), Ok(3));
}

#[test]
fn create_snapshot_at_applied_snapshot() {
    let mut s = MemStorage::create();
    s.apply_snapshot(snapshot_at(4, 2, vec![3])).unwrap();
    s.create_snapshot(vec![7]).unwrap();
    assert_eq!(
        s.snapshot(0, 0),
        Ok(Snapshot { data: vec![7], metadata: SnapshotMetadata { conf_state: ConfState::with_voters(vec![3]), index: 4, term: 2 } })
    );
}

#[test]
fn leader_starts_after_founding_snapshot() {
    let (config, s) = leader_setup();
    assert_eq!(config, NodeConfig { id: 1, election_tick: 10, heartbeat_tick: 3 });
    assert_eq!(s.first_index(), Ok(2));
    assert_eq!(s.last_index(), Ok(1));
    assert_eq!(s.term(1), Ok(1));
    assert_eq!(s.term(0), Err(RaftError::RaftError(StorageError::Compacted)));
    let st = s.initial_state().unwrap();
    assert_eq!(st.hard_state, HardState { term: 1, vote: 0, commit: 1 });
    assert_eq!(st.conf_state, ConfState::with_voters(vec![1]));
}

#[test]
fn entries_agree_with_terms_after_operations() {
    let mut s = MemStorage::create();
    s.append(&[entry(1, 1), entry(2, 1), entry(3, 2), entry(4, 2), entry(5, 3)]).unwrap();
    s.append(&[entry(4, 4), entry(5, 4), entry(6, 4)]).unwrap();
    s.compact(2).unwrap();
    let ents = s.entries(2, 7, None).unwrap();
    assert_eq!(ents.len(), 5);
    for (i, e) in ents.iter().enumerate() {
        assert_eq!(e.index, 2 + i as u64);
        assert_eq!(s.term(e.index), Ok(e.term));
    }
    assert_eq!(ents.iter().map(|e| e.term).collect::<Vec<_>>(), vec![1, 2, 4, 4, 4]);
}
