//! The Raft engine's in-memory log store (`raft::storage::MemStorage`), reached
//! through trusted items whose contracts restate what its source does.
use vstd::prelude::*;
use raft::eraftpb;
use raft::storage::MemStorage as CoreMemStorage;
use raft::{GetEntriesContext, Storage};
use raft::Error as EngineError;
use raft::StorageError as EngineStorageError;
use crate::error::StorageError;
use crate::log_model::{encoded_size, total_size, CoreState};
use crate::types::{
    entry_views, EntryView, ConfState, Entry, EntryType, HardState, RaftState,
    Snapshot, SnapshotMetadata,
};

verus! {

#[verifier::external_type_specification]
#[verifier::external_body]
pub struct ExCoreMemStorage(CoreMemStorage);

/// What a `raft::storage::MemStorage` holds: its entries, hard state, membership,
/// the place of its last applied snapshot, and whether its next snapshot request
/// is armed to fail.
pub uninterp spec fn core_state(core: CoreMemStorage) -> CoreState;

/// `MemStorage::default()`: an empty store, with an empty hard state and membership,
/// its snapshot at index 0 and term 0, and nothing armed to fail.
#[verifier::external_body]
pub(crate) fn core_new() -> (core: CoreMemStorage)
    ensures
        core_state(core) == CoreState::initial(),
{
    CoreMemStorage::default()
}

/// `MemStorageCore::append` (through `MemStorage::wl`): drops the stored entries from
/// the index of the first new one on and adds the new ones; always `Ok`. It panics when
/// the new entries reach into the compacted part or leave a gap, which `requires` rules out.
#[verifier::external_body]
pub(crate) fn core_append(core: &mut CoreMemStorage, ents: &[Entry]) -> (r: Result<(), StorageError>)
    requires
        core_state(*old(core)).wf(),
        core_state(*old(core)).append_allowed(entry_views(ents@)),
    ensures
        r is Ok,
        core_state(*final(core)) == core_state(*old(core)).appended(entry_views(ents@)),
{
    let raw: Vec<eraftpb::Entry> = ents.iter().map(|e| {
        let mut x = eraftpb::Entry::default();
        x.set_entry_type(match e.entry_type {
            EntryType::EntryNormal => eraftpb::EntryType::EntryNormal,
            EntryType::EntryConfChange => eraftpb::EntryType::EntryConfChange,
            EntryType::EntryConfChangeV2 => eraftpb::EntryType::EntryConfChangeV2,
        });
        x.term = e.term; x.index = e.index;
        x.data = e.data.clone().into(); x.context = e.context.clone().into(); x.sync_log = e.sync_log;
        x
    }).collect();
    core.wl().append(&raw).map_err(|_| StorageError::Other)
}

/// `MemStorageCore::set_hardstate`: replaces the hard state, nothing else.
#[verifier::external_body]
pub(crate) fn core_set_hard_state(core: &mut CoreMemStorage, hs: &HardState)
    ensures
        core_state(*final(core)) == core_state(*old(core)).with_hard_state(*hs),
{
    let mut h = eraftpb::HardState::default();
    h.term = hs.term; h.vote = hs.vote; h.commit = hs.commit;
    core.wl().set_hardstate(h)
}

/// `MemStorageCore::hard_state`: the stored hard state.
#[verifier::external_body]
pub(crate) fn core_hard_state(core: &CoreMemStorage) -> (hs: HardState)
    ensures
        hs == core_state(*core).hard_state,
{
    let h = core.wl().hard_state().clone();
    HardState { term: h.term, vote: h.vote, commit: h.commit }
}

/// `MemStorageCore::set_conf_state`: replaces the membership, nothing else.
#[verifier::external_body]
pub(crate) fn core_set_conf_state(core: &mut CoreMemStorage, cs: &ConfState)
    ensures
        core_state(*final(core)) == core_state(*old(core)).with_conf_state(cs@),
{
    let mut c = eraftpb::ConfState::default();
    c.voters = cs.voters.clone(); c.learners = cs.learners.clone();
    c.voters_outgoing = cs.voters_outgoing.clone(); c.learners_next = cs.learners_next.clone();
    c.auto_leave = cs.auto_leave;
    core.wl().set_conf_state(c)
}

/// `MemStorageCore::apply_snapshot`: refuses a snapshot older than the first stored index
/// with `SnapshotOutOfDate` and changes nothing; else empties the log, takes over the
/// snapshot's index, term and membership, commits to its index and raises the term to it.
#[verifier::external_body]
pub(crate) fn core_apply_snapshot(core: &mut CoreMemStorage, snapshot: &Snapshot) -> (r: Result<(), StorageError>)
    requires
        core_state(*old(core)).wf(),
    ensures
        core_state(*old(core)).snapshot_out_of_date(snapshot.metadata@) ==> {
            &&& r is Err && r->Err_0 == StorageError::SnapshotOutOfDate
            &&& core_state(*final(core)) == core_state(*old(core))
        },
        !core_state(*old(core)).snapshot_out_of_date(snapshot.metadata@) ==> {
            &&& r is Ok
            &&& core_state(*final(core)) == core_state(*old(core)).with_snapshot(snapshot.metadata@)
        },
{
    let cs = &snapshot.metadata.conf_state;
    let mut s = eraftpb::Snapshot::default();
    s.data = snapshot.data.clone().into();
    let m = s.mut_metadata();
    m.index = snapshot.metadata.index; m.term = snapshot.metadata.term;
    let c = m.mut_conf_state();
    c.voters = cs.voters.clone(); c.learners = cs.learners.clone();
    c.voters_outgoing = cs.voters_outgoing.clone(); c.learners_next = cs.learners_next.clone();
    c.auto_leave = cs.auto_leave;
    match core.wl().apply_snapshot(s) {
        Ok(()) => Ok(()),
        Err(EngineError::Store(EngineStorageError::SnapshotOutOfDate)) => Err(StorageError::SnapshotOutOfDate),
        Err(_) => Err(StorageError::Other),
    }
}

/// `MemStorageCore::compact`: drops the entries before `compact_index`, or does nothing
/// when that index is not past the first stored one; always `Ok`. It panics when the index
/// lies past what the log received, which `requires` rules out.
#[verifier::external_body]
pub(crate) fn core_compact(core: &mut CoreMemStorage, compact_index: u64) -> (r: Result<(), StorageError>)
    requires
        core_state(*old(core)).wf(),
        core_state(*old(core)).compact_allowed(compact_index),
    ensures
        r is Ok,
        core_state(*final(core)) == core_state(*old(core)).compacted(compact_index),
{
    core.wl().compact(compact_index).map_err(|_| StorageError::Other)
}

/// `Storage::initial_state` of `MemStorage`: the stored hard state and membership; always `Ok`.
#[verifier::external_body]
pub(crate) fn core_initial_state(core: &CoreMemStorage) -> (r: Result<RaftState, StorageError>)
    ensures
        r is Ok,
        r->Ok_0@.hard_state == core_state(*core).hard_state,
        r->Ok_0@.conf_state == core_state(*core).conf_state,
{
    match core.initial_state() {
        Ok(s) => Ok(RaftState {
            hard_state: HardState { term: s.hard_state.term, vote: s.hard_state.vote, commit: s.hard_state.commit },
            conf_state: ConfState {
                voters: s.conf_state.voters, learners: s.conf_state.learners,
                voters_outgoing: s.conf_state.voters_outgoing, learners_next: s.conf_state.learners_next,
                auto_leave: s.conf_state.auto_leave,
            },
        }),
        Err(_) => Err(StorageError::Other),
    }
}

/// `Storage::entries` of `MemStorage`, asked by a caller that cannot wait: `Compacted` when
/// `low` lies before the first stored index; else the stored entries of `[low, high)`, cut
/// by the engine's size rule (`raft::util::limit_size`, on each entry's `compute_size`) to
/// a prefix (the whole range without a limit). An entry with a non-zero index has a
/// non-zero encoded size: its index field is always written (below 4 GiB of payload, where
/// the `u32` size cannot wrap). It panics when the range leaves the log, which `requires` rules out.
#[verifier::external_body]
pub(crate) fn core_entries(core: &CoreMemStorage, low: u64, high: u64, max_size: Option<u64>) -> (r: Result<Vec<Entry>, StorageError>)
    requires
        core_state(*core).wf(),
        core_state(*core).entries_allowed(low, high),
    ensures
        r is Ok <==> core_state(*core).entries_of(low, high, max_size) is Ok,
        r is Ok ==> entry_views(r->Ok_0@) == core_state(*core).entries_of(low, high, max_size)->Ok_0,
        r is Err ==> r->Err_0 == core_state(*core).entries_of(low, high, max_size)->Err_0,
        r is Ok && max_size is Some && r->Ok_0.len() < core_state(*core).range(low, high).len() ==>
            total_size(entry_views(r->Ok_0@)) + encoded_size(core_state(*core).range(low, high)[r->Ok_0.len() as int]) > max_size->Some_0,
        r is Ok ==> forall|e: EntryView| e.index > 0 && e.data.len() + e.context.len() < 0xffff_0000 ==> #[trigger] encoded_size(e) > 0,
{
    let ctx = GetEntriesContext::empty(false);
    match core.entries(low, high, max_size, ctx) {
        Ok(v) => Ok(v.iter().map(|e| Entry {
            entry_type: match e.get_entry_type() {
                eraftpb::EntryType::EntryNormal => EntryType::EntryNormal,
                eraftpb::EntryType::EntryConfChange => EntryType::EntryConfChange,
                eraftpb::EntryType::EntryConfChangeV2 => EntryType::EntryConfChangeV2,
            },
            term: e.term, index: e.index, data: e.data.to_vec(), context: e.context.to_vec(), sync_log: e.sync_log,
        }).collect()),
        Err(EngineError::Store(EngineStorageError::Compacted)) => Err(StorageError::Compacted),
        Err(_) => Err(StorageError::Other),
    }
}

/// `Storage::term` of `MemStorage`: the term of the entry at `idx`, the snapshot's term at
/// the snapshot's index, `Compacted` before the first stored index and `Unavailable` after
/// the last. It panics when `idx` falls outside the stored entries otherwise, which
/// `requires` rules out.
#[verifier::external_body]
pub(crate) fn core_term(core: &CoreMemStorage, idx: u64) -> (r: Result<u64, StorageError>)
    requires
        core_state(*core).wf(),
        core_state(*core).term_allowed(idx),
    ensures
        r == core_state(*core).term_of(idx),
{
    match core.term(idx) {
        Ok(t) => Ok(t),
        Err(EngineError::Store(EngineStorageError::Compacted)) => Err(StorageError::Compacted),
        Err(EngineError::Store(EngineStorageError::Unavailable)) => Err(StorageError::Unavailable),
        Err(_) => Err(StorageError::Other),
    }
}

/// `Storage::first_index` of `MemStorage`: always `Ok` with the first readable index.
#[verifier::external_body]
pub(crate) fn core_first_index(core: &CoreMemStorage) -> (r: Result<u64, StorageError>)
    requires
        core_state(*core).wf(),
    ensures
        r is Ok,
        r->Ok_0 == core_state(*core).first_index(),
{
    core.first_index().map_err(|_| StorageError::Other)
}

/// `Storage::last_index` of `MemStorage`: always `Ok` with the last index of the log.
#[verifier::external_body]
pub(crate) fn core_last_index(core: &CoreMemStorage) -> (r: Result<u64, StorageError>)
    ensures
        r is Ok,
        r->Ok_0 == core_state(*core).last_index(),
{
    core.last_index().map_err(|_| StorageError::Other)
}

/// `Storage::snapshot` of `MemStorage`, when no failure is armed: always `Ok` with a
/// snapshot without data at the commit index (or `request_index`, if later), the term of
/// that entry and the stored membership. It panics when the commit index lies before the
/// last applied snapshot or outside the stored entries, which `requires` rules out.
#[verifier::external_body]
pub(crate) fn core_snapshot(core: &CoreMemStorage, request_index: u64) -> (r: Result<Snapshot, StorageError>)
    requires
        core_state(*core).snapshot_allowed(),
        !core_state(*core).snapshot_unavailable_armed,
    ensures
        r is Ok,
        r->Ok_0@ == core_state(*core).snapshot_at(request_index),
{
    match core.snapshot(request_index, 0) {
        Ok(s) => {
            let (m, c) = (s.get_metadata(), s.get_metadata().get_conf_state());
            Ok(Snapshot { data: s.data.to_vec(), metadata: SnapshotMetadata {
                conf_state: ConfState {
                    voters: c.voters.clone(), learners: c.learners.clone(),
                    voters_outgoing: c.voters_outgoing.clone(), learners_next: c.learners_next.clone(),
                    auto_leave: c.auto_leave,
                },
                index: m.index, term: m.term,
            } })
        }
        Err(_) => Err(StorageError::Other),
    }
}

} // verus!
