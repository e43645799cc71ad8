//! The mathematical model of an in-memory Raft log store: what it holds and
//! what each of its operations makes of it.
use vstd::prelude::*;
use crate::error::StorageError;
use crate::types::{ConfStateView, EntryView, HardState, SnapshotMetadataView, SnapshotView};

verus! {

/// What the Raft engine's in-memory store holds.
pub struct CoreState {
    /// The stored entries, in the order in which they stand in the log.
    pub log: Seq<EntryView>,
    pub hard_state: HardState,
    pub conf_state: ConfStateView,
    /// Index and term of the last snapshot applied to the store.
    pub snapshot_index: u64,
    pub snapshot_term: u64,
    /// Whether the next request for a snapshot is armed to fail.
    pub snapshot_unavailable_armed: bool,
}

/// The number of bytes of an entry in the engine's wire encoding.
pub uninterp spec fn encoded_size(e: EntryView) -> nat;

/// The total encoded size of `ents`.
pub open spec fn total_size(ents: Seq<EntryView>) -> nat
    decreases ents.len(),
{
    if ents.len() == 0 { 0 } else { encoded_size(ents[0]) + total_size(ents.drop_first()) }
}

/// How many of the entries of `range` the engine's size rule keeps, with `size` bytes
/// counted so far: an entry is kept while nothing has been counted yet, or while the
/// running total including it stays within `max_size`; the first entry refused ends it.
pub open spec fn size_limited_count(range: Seq<EntryView>, max_size: u64, size: nat) -> nat
    decreases range.len(),
{
    if range.len() == 0 {
        0
    } else {
        let next = size + encoded_size(range[0]);
        if size == 0 || next <= max_size {
            1 + size_limited_count(range.drop_first(), max_size, next)
        } else {
            0
        }
    }
}

/// How many of the entries of `range` a size limit of `max_size` bytes lets through.
pub open spec fn size_limited_len(range: Seq<EntryView>, max_size: u64) -> nat {
    size_limited_count(range, max_size, 0)
}

/// How many entries of `range` a read with the size limit `max_size` returns.
pub open spec fn kept_len(range: Seq<EntryView>, max_size: Option<u64>) -> nat {
    match max_size {
        Some(m) if range.len() > 1 && m != u64::MAX => size_limited_len(range, m),
        _ => range.len(),
    }
}

impl CoreState {
    /// The store as the engine creates it.
    pub open spec fn initial() -> CoreState {
        CoreState {
            log: Seq::empty(),
            hard_state: HardState::spec_empty(),
            conf_state: ConfStateView::empty(),
            snapshot_index: 0,
            snapshot_term: 0,
            snapshot_unavailable_armed: false,
        }
    }

    /// The index of the first entry that can be read.
    pub open spec fn first_index(self) -> int {
        if self.log.len() == 0 { self.snapshot_index + 1 } else { self.log[0].index as int }
    }

    /// The index of the last entry of the log.
    pub open spec fn last_index(self) -> int {
        if self.log.len() == 0 { self.snapshot_index as int } else { self.log.last().index as int }
    }

    /// What every store of this library satisfies.
    pub open spec fn wf(self) -> bool {
        &&& self.snapshot_index < u64::MAX
        &&& self.log.len() > 0 ==> self.log.last().index < u64::MAX
        &&& !self.snapshot_unavailable_armed
    }

    /// The stored entries follow the last applied snapshot, and their indexes follow
    /// one another: the entry at index `i` stands at position `i - first_index()`.
    pub open spec fn log_in_order(self) -> bool {
        &&& self.log.len() > 0 ==> self.snapshot_index < self.log[0].index
        &&& forall|i: int| 0 <= i < self.log.len() ==> #[trigger] self.log[i].index == self.log[0].index + i
    }

    /// `ents` can be appended: it overlaps or follows the log, without a gap and
    /// without reaching into what was compacted.
    pub open spec fn append_allowed(self, ents: Seq<EntryView>) -> bool {
        ents.len() > 0 ==> {
            &&& self.first_index() <= ents[0].index <= self.last_index() + 1
            &&& ents[0].index - self.first_index() <= self.log.len()
            &&& ents.last().index < u64::MAX
        }
    }

    /// The store after appending `ents`: what `ents` overlaps is replaced.
    pub open spec fn appended(self, ents: Seq<EntryView>) -> CoreState {
        if ents.len() == 0 {
            self
        } else {
            CoreState { log: self.log.subrange(0, ents[0].index - self.first_index()) + ents, ..self }
        }
    }

    /// The store after replacing its hard state.
    pub open spec fn with_hard_state(self, hs: HardState) -> CoreState {
        CoreState { hard_state: hs, ..self }
    }

    /// The store after replacing its membership.
    pub open spec fn with_conf_state(self, cs: ConfStateView) -> CoreState {
        CoreState { conf_state: cs, ..self }
    }

    /// `compact_index` lies within what the log received.
    pub open spec fn compact_allowed(self, compact_index: u64) -> bool {
        compact_index > self.first_index() ==> {
            &&& compact_index <= self.last_index() + 1
            &&& self.log.len() > 0 ==> compact_index - self.log[0].index <= self.log.len()
        }
    }

    /// The store after discarding the entries before `compact_index`.
    pub open spec fn compacted(self, compact_index: u64) -> CoreState {
        if compact_index <= self.first_index() || self.log.len() == 0 {
            self
        } else {
            CoreState {
                log: self.log.subrange(compact_index - self.log[0].index, self.log.len() as int),
                ..self
            }
        }
    }

    /// A snapshot at `meta` is older than what the store holds.
    pub open spec fn snapshot_out_of_date(self, meta: SnapshotMetadataView) -> bool {
        self.first_index() > meta.index
    }

    /// The store after applying a snapshot at `meta`: the log is emptied and the
    /// snapshot's place and membership are taken over.
    pub open spec fn with_snapshot(self, meta: SnapshotMetadataView) -> CoreState {
        CoreState {
            log: Seq::empty(),
            hard_state: HardState {
                term: if self.hard_state.term < meta.term { meta.term } else { self.hard_state.term },
                vote: self.hard_state.vote,
                commit: meta.index,
            },
            conf_state: meta.conf_state,
            snapshot_index: meta.index,
            snapshot_term: meta.term,
            snapshot_unavailable_armed: self.snapshot_unavailable_armed,
        }
    }

    /// The term of the entry at `idx` can be looked up without leaving the log.
    pub open spec fn term_allowed(self, idx: u64) -> bool {
        idx == self.snapshot_index || idx < self.first_index() || idx > self.last_index()
            || idx - self.first_index() < self.log.len()
    }

    /// The term of the entry at `idx`, or why it cannot be given.
    pub open spec fn term_of(self, idx: u64) -> Result<u64, StorageError> {
        if idx == self.snapshot_index {
            Ok(self.snapshot_term)
        } else if idx < self.first_index() {
            Err(StorageError::Compacted)
        } else if idx > self.last_index() {
            Err(StorageError::Unavailable)
        } else {
            Ok(self.log[idx - self.first_index()].term)
        }
    }

    /// The entries in `[low, high)` can be read without leaving the log.
    pub open spec fn entries_allowed(self, low: u64, high: u64) -> bool {
        low < self.first_index() || {
            &&& self.log.len() > 0
            &&& low <= high
            &&& high <= self.last_index() + 1
            &&& high - self.first_index() <= self.log.len()
        }
    }

    /// The stored entries in `[low, high)`.
    pub open spec fn range(self, low: u64, high: u64) -> Seq<EntryView> {
        self.log.subrange(low - self.first_index(), high - self.first_index())
    }

    /// The entries that a read of `[low, high)` with the size limit `max_size` returns.
    pub open spec fn entries_of(self, low: u64, high: u64, max_size: Option<u64>) -> Result<Seq<EntryView>, StorageError> {
        if low < self.first_index() {
            Err(StorageError::Compacted)
        } else {
            let range = self.range(low, high);
            Ok(range.take(kept_len(range, max_size) as int))
        }
    }

    /// A snapshot can be taken at the commit index.
    pub open spec fn snapshot_allowed(self) -> bool {
        &&& self.snapshot_index <= self.hard_state.commit
        &&& self.hard_state.commit > self.snapshot_index ==> {
            &&& self.log.len() > 0
            &&& self.log[0].index <= self.hard_state.commit
            &&& self.hard_state.commit - self.log[0].index < self.log.len()
        }
    }

    /// The snapshot that the store describes, requested at `request_index`: it stands
    /// at the commit index (or the requested one, if that is later), without data.
    pub open spec fn snapshot_at(self, request_index: u64) -> SnapshotView {
        let commit = self.hard_state.commit;
        SnapshotView {
            data: Seq::empty(),
            metadata: SnapshotMetadataView {
                conf_state: self.conf_state,
                index: if commit < request_index { request_index } else { commit },
                term: if commit == self.snapshot_index {
                    self.snapshot_term
                } else {
                    self.log[commit - self.log[0].index].term
                },
            },
        }
    }
}

} // verus!
