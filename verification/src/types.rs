//! Plain-value forms of the Raft records that the log store keeps and hands out.
use vstd::prelude::*;

verus! {

/// The kind of a log entry.
#[derive(Clone, Copy, Debug, PartialEq, Eq)]
pub enum EntryType {
    EntryNormal,
    EntryConfChange,
    EntryConfChangeV2,
}

/// One entry of the replicated log.
#[derive(Clone, Debug, PartialEq, Eq)]
pub struct Entry {
    pub entry_type: EntryType,
    pub term: u64,
    pub index: u64,
    pub data: Vec<u8>,
    pub context: Vec<u8>,
    /// Kept for compatibility only; the engine does not read it.
    pub sync_log: bool,
}

/// The mathematical value of an [`Entry`].
pub struct EntryView {
    pub entry_type: EntryType,
    pub term: u64,
    pub index: u64,
    pub data: Seq<u8>,
    pub context: Seq<u8>,
    pub sync_log: bool,
}

impl View for Entry {
    type V = EntryView;

    open spec fn view(&self) -> EntryView {
        EntryView {
            entry_type: self.entry_type,
            term: self.term,
            index: self.index,
            data: self.data@,
            context: self.context@,
            sync_log: self.sync_log,
        }
    }
}

/// The views of a sequence of entries.
pub open spec fn entry_views(entries: Seq<Entry>) -> Seq<EntryView> {
    entries.map_values(|e: Entry| e@)
}

/// Term, vote and commit index, as persisted by a node.
#[derive(Clone, Copy, Debug, PartialEq, Eq)]
pub struct HardState {
    pub term: u64,
    pub vote: u64,
    pub commit: u64,
}

impl HardState {
    /// The hard state of a node that has never voted nor committed.
    pub open spec fn spec_empty() -> HardState {
        HardState { term: 0, vote: 0, commit: 0 }
    }
}

/// The membership of the cluster.
#[derive(Clone, Debug, PartialEq, Eq)]
pub struct ConfState {
    pub voters: Vec<u64>,
    pub learners: Vec<u64>,
    pub voters_outgoing: Vec<u64>,
    pub learners_next: Vec<u64>,
    pub auto_leave: bool,
}

/// The mathematical value of a [`ConfState`].
pub struct ConfStateView {
    pub voters: Seq<u64>,
    pub learners: Seq<u64>,
    pub voters_outgoing: Seq<u64>,
    pub learners_next: Seq<u64>,
    pub auto_leave: bool,
}

impl ConfStateView {
    /// The membership with nobody in it.
    pub open spec fn empty() -> ConfStateView {
        ConfStateView {
            voters: Seq::empty(),
            learners: Seq::empty(),
            voters_outgoing: Seq::empty(),
            learners_next: Seq::empty(),
            auto_leave: false,
        }
    }
}

impl View for ConfState {
    type V = ConfStateView;

    open spec fn view(&self) -> ConfStateView {
        ConfStateView {
            voters: self.voters@,
            learners: self.learners@,
            voters_outgoing: self.voters_outgoing@,
            learners_next: self.learners_next@,
            auto_leave: self.auto_leave,
        }
    }
}

/// Where a snapshot stands in the log, and the membership at that point.
#[derive(Clone, Debug, PartialEq, Eq)]
pub struct SnapshotMetadata {
    pub conf_state: ConfState,
    pub index: u64,
    pub term: u64,
}

pub struct SnapshotMetadataView {
    pub conf_state: ConfStateView,
    pub index: u64,
    pub term: u64,
}

impl View for SnapshotMetadata {
    type V = SnapshotMetadataView;

    open spec fn view(&self) -> SnapshotMetadataView {
        SnapshotMetadataView { conf_state: self.conf_state@, index: self.index, term: self.term }
    }
}

/// A snapshot of the applied state, with its place in the log.
#[derive(Clone, Debug, PartialEq, Eq)]
pub struct Snapshot {
    pub data: Vec<u8>,
    pub metadata: SnapshotMetadata,
}

pub struct SnapshotView {
    pub data: Seq<u8>,
    pub metadata: SnapshotMetadataView,
}

impl SnapshotView {
    /// The snapshot with no data, at index 0 and term 0, with an empty membership.
    pub open spec fn empty() -> SnapshotView {
        SnapshotView {
            data: Seq::empty(),
            metadata: SnapshotMetadataView { conf_state: ConfStateView::empty(), index: 0, term: 0 },
        }
    }
}

impl View for Snapshot {
    type V = SnapshotView;

    open spec fn view(&self) -> SnapshotView {
        SnapshotView { data: self.data@, metadata: self.metadata@ }
    }
}

/// The hard state and the membership, as a node starts with them.
#[derive(Clone, Debug, PartialEq, Eq)]
pub struct RaftState {
    pub hard_state: HardState,
    pub conf_state: ConfState,
}

pub struct RaftStateView {
    pub hard_state: HardState,
    pub conf_state: ConfStateView,
}

impl View for RaftState {
    type V = RaftStateView;

    open spec fn view(&self) -> RaftStateView {
        RaftStateView { hard_state: self.hard_state, conf_state: self.conf_state@ }
    }
}

impl ConfState {
    /// A membership of the given voters alone.
    pub fn with_voters(voters: Vec<u64>) -> (cs: ConfState)
        ensures
            cs@ == (ConfStateView { voters: voters@, ..ConfStateView::empty() }),
    {
        ConfState {
            voters,
            learners: Vec::new(),
            voters_outgoing: Vec::new(),
            learners_next: Vec::new(),
            auto_leave: false,
        }
    }
}

impl Snapshot {
    /// A copy of the snapshot.
    pub fn duplicate(&self) -> (s: Snapshot)
        ensures
            s@ == self@,
    {
        let cs = &self.metadata.conf_state;
        let conf_state = ConfState {
            voters: cs.voters.clone(),
            learners: cs.learners.clone(),
            voters_outgoing: cs.voters_outgoing.clone(),
            learners_next: cs.learners_next.clone(),
            auto_leave: cs.auto_leave,
        };
        let s = Snapshot {
            data: self.data.clone(),
            metadata: SnapshotMetadata { conf_state, index: self.metadata.index, term: self.metadata.term },
        };
        assert(s.data@ =~= self.data@);
        assert(s.metadata.conf_state.voters@ =~= cs.voters@);
        assert(s.metadata.conf_state.learners@ =~= cs.learners@);
        assert(s.metadata.conf_state.voters_outgoing@ =~= cs.voters_outgoing@);
        assert(s.metadata.conf_state.learners_next@ =~= cs.learners_next@);
        s
    }
}

} // verus!

verus! {

/// What a membership change does to a node.
#[derive(Clone, Copy, Debug, PartialEq, Eq)]
pub enum ConfChangeType {
    AddNode,
    RemoveNode,
    AddLearnerNode,
}

/// A request to change the membership of the cluster.
#[derive(Clone, Debug, PartialEq, Eq)]
pub struct ConfChange {
    pub id: u64,
    pub change_type: ConfChangeType,
    pub node_id: u64,
    pub context: Vec<u8>,
}

} // verus!
