//! The node's log store: the Raft engine's in-memory store, plus the last
//! snapshot that the node made of its applied state.
use vstd::prelude::*;
use raft::storage::MemStorage as CoreMemStorage;
use crate::core_store::{
    core_append, core_apply_snapshot, core_compact, core_entries, core_first_index,
    core_hard_state, core_initial_state, core_last_index, core_new, core_set_conf_state,
    core_set_hard_state, core_snapshot, core_state, core_term,
};
use crate::error::{RaftError, RaftResult};
use crate::log_model::{kept_len, total_size, CoreState};
use crate::storage_laws::{
    append_keeps_order, compact_keeps_order, entries_in_order, size_limit_respected,
};
use crate::types::{
    entry_views, ConfState, Entry, HardState, RaftState, RaftStateView,
    Snapshot, SnapshotMetadata, SnapshotView,
};

verus! {

/// A log store: the engine's store and the last snapshot the node made.
pub struct MemStorage {
    core: CoreMemStorage,
    snapshot: Snapshot,
}

/// The mathematical value of a [`MemStorage`].
pub struct StorageView {
    pub core: CoreState,
    pub snapshot: SnapshotView,
}

impl View for MemStorage {
    type V = StorageView;

    closed spec fn view(&self) -> StorageView {
        StorageView { core: core_state(self.core), snapshot: self.snapshot@ }
    }
}

impl StorageView {
    pub open spec fn wf(self) -> bool {
        self.core.wf()
    }
}

impl MemStorage {
    /// An empty store: no entries, empty hard state and membership, and an empty snapshot.
    pub fn create() -> (s: Self)
        ensures
            s@.wf(),
            s@.core == CoreState::initial(),
            s@.core.log_in_order(),
            s@.snapshot == SnapshotView::empty(),
    {
        let snapshot = Snapshot {
            data: Vec::new(),
            metadata: SnapshotMetadata {
                conf_state: ConfState::with_voters(Vec::new()),
                index: 0,
                term: 0,
            },
        };
        assert(snapshot@.metadata.conf_state.voters =~= Seq::<u64>::empty());
        assert(snapshot@.data =~= Seq::<u8>::empty());
        MemStorage { core: core_new(), snapshot }
    }

    /// Appends `entries` to the log, replacing the stored entries from the index of the
    /// first new one on.
    pub fn append(&mut self, entries: &[Entry]) -> (r: RaftResult<()>)
        requires
            old(self)@.wf(),
            old(self)@.core.append_allowed(entry_views(entries@)),
        ensures
            r is Ok,
            final(self)@.wf(),
            final(self)@.core == old(self)@.core.appended(entry_views(entries@)),
            final(self)@.snapshot == old(self)@.snapshot,
            old(self)@.core.log_in_order() && entries_in_order(entry_views(entries@)) ==> final(self)@.core.log_in_order(),
    {
        proof {
            if old(self)@.core.log_in_order() && entries_in_order(entry_views(entries@)) {
                append_keeps_order(old(self)@.core, entry_views(entries@));
            }
        }
        match core_append(&mut self.core, entries) {
            Ok(()) => Ok(()),
            Err(e) => Err(RaftError::RaftError(e)),
        }
    }

    /// Replaces the hard state.
    pub fn set_hard_state(&mut self, hard_state: &HardState) -> (r: RaftResult<()>)
        requires
            old(self)@.wf(),
        ensures
            r is Ok,
            final(self)@.wf(),
            final(self)@.core == old(self)@.core.with_hard_state(*hard_state),
            final(self)@.snapshot == old(self)@.snapshot,
            old(self)@.core.log_in_order() ==> final(self)@.core.log_in_order(),
    {
        core_set_hard_state(&mut self.core, hard_state);
        Ok(())
    }

    /// Sets the commit index of the hard state, keeping its term and vote.
    pub fn set_hard_state_comit(&mut self, comit: u64) -> (r: RaftResult<()>)
        requires
            old(self)@.wf(),
        ensures
            r is Ok,
            final(self)@.wf(),
            final(self)@.core == old(self)@.core.with_hard_state(
                HardState { commit: comit, ..old(self)@.core.hard_state },
            ),
            final(self)@.snapshot == old(self)@.snapshot,
            old(self)@.core.log_in_order() ==> final(self)@.core.log_in_order(),
    {
        let mut hard_state = core_hard_state(&self.core);
        hard_state.commit = comit;
        core_set_hard_state(&mut self.core, &hard_state);
        Ok(())
    }

    /// Replaces the membership.
    pub fn set_conf_state(&mut self, conf_state: &ConfState) -> (r: RaftResult<()>)
        requires
            old(self)@.wf(),
        ensures
            r is Ok,
            final(self)@.wf(),
            final(self)@.core == old(self)@.core.with_conf_state(conf_state@),
            final(self)@.snapshot == old(self)@.snapshot,
            old(self)@.core.log_in_order() ==> final(self)@.core.log_in_order(),
    {
        core_set_conf_state(&mut self.core, conf_state);
        Ok(())
    }

    /// Makes a snapshot of the applied state `data` at the commit index, with the
    /// term of that entry and the current membership, and keeps it as the node's snapshot.
    pub fn create_snapshot(&mut self, data: Vec<u8>) -> (r: RaftResult<()>)
        requires
            old(self)@.wf(),
            old(self)@.core.snapshot_allowed(),
        ensures
            r is Ok,
            final(self)@.wf(),
            final(self)@.core == old(self)@.core,
            final(self)@.snapshot == (SnapshotView { data: data@, ..old(self)@.core.snapshot_at(0) }),
    {
        match core_snapshot(&self.core, 0) {
            Ok(snapshot) => {
                let mut snapshot = snapshot;
                snapshot.data = data;
                self.snapshot = snapshot;
                Ok(())
            },
            Err(e) => Err(RaftError::RaftError(e)),
        }
    }

    /// Overwrites the log with `snapshot`: refused with `SnapshotOutOfDate`, changing
    /// nothing, when the snapshot lies before the first stored index.
    pub fn apply_snapshot(&mut self, snapshot: Snapshot) -> (r: RaftResult<()>)
        requires
            old(self)@.wf(),
            snapshot.metadata.index < u64::MAX,
        ensures
            final(self)@.wf(),
            final(self)@.snapshot == old(self)@.snapshot,
            old(self)@.core.snapshot_out_of_date(snapshot.metadata@) ==> {
                &&& r == Err::<(), RaftError>(RaftError::RaftError(crate::error::StorageError::SnapshotOutOfDate))
                &&& final(self)@.core == old(self)@.core
            },
            !old(self)@.core.snapshot_out_of_date(snapshot.metadata@) ==> {
                &&& r is Ok
                &&& final(self)@.core == old(self)@.core.with_snapshot(snapshot.metadata@)
            },
            old(self)@.core.log_in_order() ==> final(self)@.core.log_in_order(),
    {
        match core_apply_snapshot(&mut self.core, &snapshot) {
            Ok(()) => Ok(()),
            Err(e) => Err(RaftError::RaftError(e)),
        }
    }

    /// Discards the entries before `index`; nothing happens when `index` is not past
    /// the first stored index.
    pub fn compact(&mut self, index: u64) -> (r: RaftResult<()>)
        requires
            old(self)@.wf(),
            old(self)@.core.compact_allowed(index),
        ensures
            r is Ok,
            final(self)@.wf(),
            final(self)@.core == old(self)@.core.compacted(index),
            final(self)@.snapshot == old(self)@.snapshot,
            old(self)@.core.log_in_order() ==> final(self)@.core.log_in_order(),
    {
        proof { if old(self)@.core.log_in_order() { compact_keeps_order(old(self)@.core, index); } }
        match core_compact(&mut self.core, index) {
            Ok(()) => Ok(()),
            Err(e) => Err(RaftError::RaftError(e)),
        }
    }

    /// The hard state and membership the node starts from.
    pub fn initial_state(&self) -> (r: RaftResult<RaftState>)
        requires
            self@.wf(),
        ensures
            r is Ok,
            r->Ok_0@ == (RaftStateView { hard_state: self@.core.hard_state, conf_state: self@.core.conf_state }),
    {
        match core_initial_state(&self.core) {
            Ok(state) => Ok(state),
            Err(e) => Err(RaftError::RaftError(e)),
        }
    }

    /// The entries of `[low, high)`, cut to the size limit `max_size` if there is one;
    /// `Compacted` when `low` lies before the first stored index.
    pub fn entries(&self, low: u64, high: u64, max_size: Option<u64>) -> (r: RaftResult<Vec<Entry>>)
        requires
            self@.wf(),
            self@.core.entries_allowed(low, high),
        ensures
            r is Ok <==> self@.core.entries_of(low, high, max_size) is Ok,
            r is Ok ==> entry_views(r->Ok_0@) == self@.core.entries_of(low, high, max_size)->Ok_0,
            r is Err ==> r->Err_0 == RaftError::RaftError(self@.core.entries_of(low, high, max_size)->Err_0),
            r is Ok ==> entry_views(r->Ok_0@) == self@.core.range(low, high).take(r->Ok_0.len() as int),
            r is Ok ==> r->Ok_0.len() <= self@.core.range(low, high).len(),
            r is Ok && max_size is None ==> r->Ok_0.len() == self@.core.range(low, high).len(),
            r is Ok ==> r->Ok_0.len() == kept_len(self@.core.range(low, high), max_size),
            r is Ok && max_size is Some && max_size->Some_0 < u64::MAX && r->Ok_0.len() > 1
                && r->Ok_0@[0].index > 0 && r->Ok_0@[0].data.len() + r->Ok_0@[0].context.len() < 0xffff_0000
                ==> total_size(entry_views(r->Ok_0@)) <= max_size->Some_0,
            r is Ok && self@.core.range(low, high).len() > 0 ==> r->Ok_0.len() > 0,
    {
        match core_entries(&self.core, low, high, max_size) {
            Ok(entries) => {
                proof {
                    let range = self@.core.range(low, high);
                    match max_size {
                        Some(m) => size_limit_respected(range, m),
                        None => size_limit_respected(range, 0),
                    }
                    assert(entry_views(entries@).len() == entries@.len());
                    if entries@.len() > 0 {
                        assert(entry_views(entries@)[0] == entries@[0]@);
                        assert(range[0] == entries@[0]@);
                    }
                }
                Ok(entries)
            },
            Err(e) => Err(RaftError::RaftError(e)),
        }
    }

    /// The term of the entry at `idx`: the snapshot's term at its index, `Compacted`
    /// before the first stored index, `Unavailable` after the last.
    pub fn term(&self, idx: u64) -> (r: RaftResult<u64>)
        requires
            self@.wf(),
            self@.core.term_allowed(idx),
        ensures
            self@.core.term_of(idx) is Ok ==> r == Ok::<u64, RaftError>(self@.core.term_of(idx)->Ok_0),
            self@.core.term_of(idx) is Err ==> r == Err::<u64, RaftError>(RaftError::RaftError(self@.core.term_of(idx)->Err_0)),
    {
        match core_term(&self.core, idx) {
            Ok(t) => Ok(t),
            Err(e) => Err(RaftError::RaftError(e)),
        }
    }

    /// The index of the first entry that can be read.
    pub fn first_index(&self) -> (r: RaftResult<u64>)
        requires
            self@.wf(),
        ensures
            r == Ok::<u64, RaftError>(self@.core.first_index() as u64),
    {
        match core_first_index(&self.core) {
            Ok(i) => Ok(i),
            Err(e) => Err(RaftError::RaftError(e)),
        }
    }

    /// The index of the last entry of the log.
    pub fn last_index(&self) -> (r: RaftResult<u64>)
        requires
            self@.wf(),
        ensures
            r == Ok::<u64, RaftError>(self@.core.last_index() as u64),
    {
        match core_last_index(&self.core) {
            Ok(i) => Ok(i),
            Err(e) => Err(RaftError::RaftError(e)),
        }
    }

    /// The last snapshot the node made, whatever index is requested and whoever asks.
    pub fn snapshot(&self, _request_index: u64, _to: u64) -> (r: RaftResult<Snapshot>)
        requires
            self@.wf(),
        ensures
            r is Ok,
            r->Ok_0@ == self@.snapshot,
    {
        Ok(self.snapshot.duplicate())
    }
}

} // verus!
