//! What holds of the log store across its operations.
use vstd::prelude::*;
use crate::error::StorageError;
use crate::log_model::{encoded_size, kept_len, size_limited_count, total_size, CoreState};
use crate::types::{EntryView, HardState, SnapshotMetadataView};

verus! {

/// Entries whose indexes follow one another.
pub open spec fn entries_in_order(ents: Seq<EntryView>) -> bool {
    forall|i: int| 0 <= i < ents.len() ==> #[trigger] ents[i].index == ents[0].index + i
}

/// In a log in order, the readable range is never inverted: the first index is at most one
/// past the last, and the log holds exactly the entries between them. (A store that was
/// given entries out of order can break this, as the engine's store does.)
pub proof fn ordered_log_bounds(v: CoreState)
    requires
        v.log_in_order(),
    ensures
        v.first_index() <= v.last_index() + 1,
        v.log.len() == v.last_index() + 1 - v.first_index(),
{
    if v.log.len() > 0 {
        assert(v.log[v.log.len() - 1].index == v.log[0].index + v.log.len() - 1);
    }
}

/// Appending entries that follow one another keeps the log in order.
pub proof fn append_keeps_order(v: CoreState, ents: Seq<EntryView>)
    requires
        v.log_in_order(),
        v.append_allowed(ents),
        entries_in_order(ents),
    ensures
        v.appended(ents).log_in_order(),
{
    if ents.len() > 0 {
        let w = v.appended(ents);
        let d = ents[0].index - v.first_index();
        assert forall|i: int| 0 <= i < w.log.len() implies #[trigger] w.log[i].index == w.log[0].index + i by {
            if d > 0 {
                if i >= d {
                    assert(w.log[i] == ents[i - d]);
                }
            } else {
                assert(w.log[i] == ents[i]);
            }
        }
    }
}

/// Discarding a prefix of the log keeps it in order.
pub proof fn compact_keeps_order(v: CoreState, compact_index: u64)
    requires
        v.log_in_order(),
        v.compact_allowed(compact_index),
    ensures
        v.compacted(compact_index).log_in_order(),
{
    let w = v.compacted(compact_index);
    if compact_index > v.first_index() && v.log.len() > 0 {
        let k = compact_index - v.log[0].index;
        assert forall|i: int| 0 <= i < w.log.len() implies #[trigger] w.log[i].index == w.log[0].index + i by {
            assert(w.log[i] == v.log[k + i]);
            assert(w.log[0] == v.log[k]);
        }
        if w.log.len() > 0 {
            assert(w.log[0] == v.log[k]);
        }
    }
}

/// Applying a snapshot, or replacing the hard state or the membership, keeps the log in order.
pub proof fn state_changes_keep_order(v: CoreState, meta: SnapshotMetadataView, hs: HardState, cs: crate::types::ConfStateView)
    requires
        v.log_in_order(),
    ensures
        v.with_snapshot(meta).log_in_order(),
        v.with_hard_state(hs).log_in_order(),
        v.with_conf_state(cs).log_in_order(),
{
}

/// What was appended is read back: after appending entries that follow one another,
/// reading their range gives them back, each index gives the term of the entry appended
/// there, the last index is that of the last appended entry, and the entries stored
/// before the first appended one keep their terms.
pub proof fn append_then_read(v: CoreState, ents: Seq<EntryView>)
    requires
        v.wf(),
        v.log_in_order(),
        v.append_allowed(ents),
        ents.len() > 0,
        entries_in_order(ents),
    ensures
        ({
            let w = v.appended(ents);
            let low = ents[0].index;
            let high = (ents.last().index + 1) as u64;
            &&& w.wf()
            &&& w.last_index() == ents.last().index
            &&& w.entries_allowed(low, high)
            &&& w.entries_of(low, high, None) == Ok::<Seq<EntryView>, StorageError>(ents)
            &&& forall|j: int| 0 <= j < ents.len() ==> w.term_allowed(#[trigger] ents[j].index)
                && w.term_of(ents[j].index) == Ok::<u64, StorageError>(ents[j].term)
            &&& forall|idx: u64| v.first_index() <= idx < low ==> w.term_of(idx) == v.term_of(idx)
        }),
{
    append_keeps_order(v, ents);
    let w = v.appended(ents);
    let low = ents[0].index;
    let d = low - v.first_index();
    assert(ents[ents.len() - 1].index == low + ents.len() - 1);
    assert(w.log.len() == d + ents.len());
    assert(w.log.last() == ents.last());
    if d > 0 {
        assert(w.log[0] == v.log[0]);
        assert(w.first_index() == v.first_index());
    } else {
        assert(w.log[0] == ents[0]);
    }
    assert(w.first_index() == v.first_index() || (d == 0 && w.first_index() == low));
    let high = (ents.last().index + 1) as u64;
    assert(w.range(low, high) =~= ents);
    assert(w.range(low, high).take(ents.len() as int) =~= ents);
    assert forall|j: int| 0 <= j < ents.len() implies w.term_allowed(#[trigger] ents[j].index)
        && w.term_of(ents[j].index) == Ok::<u64, StorageError>(ents[j].term) by {
        assert(w.log[d + j] == ents[j]);
    }
    assert forall|idx: u64| v.first_index() <= idx < low implies w.term_of(idx) == v.term_of(idx) by {
        assert(w.log[idx - w.first_index()] == v.log[idx - v.first_index()]);
    }
}

/// After a snapshot is applied, the log is empty and starts right after it: the first
/// index follows the snapshot's, the last index is the snapshot's, the snapshot's index
/// has the snapshot's term, everything before it is compacted, and the commit index and
/// membership are the snapshot's. A snapshot is refused exactly when it lies before the
/// first stored index.
pub proof fn snapshot_then_read(v: CoreState, meta: SnapshotMetadataView)
    requires
        v.wf(),
        meta.index < u64::MAX,
        !v.snapshot_out_of_date(meta),
    ensures
        ({
            let w = v.with_snapshot(meta);
            &&& w.wf()
            &&& w.first_index() == meta.index + 1
            &&& w.last_index() == meta.index
            &&& w.term_of(meta.index) == Ok::<u64, StorageError>(meta.term)
            &&& forall|idx: u64| idx < meta.index ==> w.term_of(idx) == Err::<u64, StorageError>(StorageError::Compacted)
            &&& w.hard_state.commit == meta.index
            &&& w.hard_state.term >= meta.term
            &&& w.hard_state.vote == v.hard_state.vote
            &&& w.conf_state == meta.conf_state
        }),
        v.snapshot_out_of_date(meta) <==> meta.index < v.first_index(),
{
}

/// After discarding the entries before `compact_index`, reading starts there (or right
/// after the snapshot, when everything was discarded), the last index stays, and every
/// entry from `compact_index` on keeps its term.
pub proof fn compact_then_read(v: CoreState, compact_index: u64)
    requires
        v.wf(),
        v.log_in_order(),
        v.compact_allowed(compact_index),
        v.first_index() < compact_index,
    ensures
        ({
            let w = v.compacted(compact_index);
            &&& w.wf()
            &&& compact_index <= v.last_index() ==> w.first_index() == compact_index
            &&& compact_index <= v.last_index() ==> w.last_index() == v.last_index()
            &&& compact_index == v.last_index() + 1 ==> w.log.len() == 0
            &&& forall|idx: u64| compact_index <= idx <= v.last_index() ==> w.term_of(idx) == v.term_of(idx)
        }),
{
    compact_keeps_order(v, compact_index);
    let w = v.compacted(compact_index);
    let k = compact_index - v.log[0].index;
    if compact_index <= v.last_index() {
        assert(w.log[0] == v.log[k]);
        assert(w.log.last() == v.log.last());
    }
    assert forall|idx: u64| compact_index <= idx <= v.last_index() implies w.term_of(idx) == v.term_of(idx) by {
        assert(w.log[0] == v.log[k]);
        assert(w.log[idx - compact_index] == v.log[k + (idx - compact_index)]);
    }
}

/// The two ways of reading the log agree: the entries read from `[low, high)` stand at
/// the indexes `low`, `low + 1`, ..., and each carries the term that `term` gives for its
/// index.
pub proof fn entries_agree_with_terms(v: CoreState, low: u64, high: u64)
    requires
        v.wf(),
        v.log_in_order(),
        v.entries_allowed(low, high),
        v.first_index() <= low,
    ensures
        v.entries_of(low, high, None) is Ok,
        v.entries_of(low, high, None)->Ok_0.len() == high - low,
        forall|i: int| 0 <= i < high - low ==> {
            &&& (#[trigger] v.entries_of(low, high, None)->Ok_0[i]).index == low + i
            &&& v.term_allowed((low + i) as u64)
            &&& v.term_of((low + i) as u64) == Ok::<u64, StorageError>(v.entries_of(low, high, None)->Ok_0[i].term)
        },
{
    let ents = v.entries_of(low, high, None)->Ok_0;
    assert(ents =~= v.range(low, high));
    assert forall|i: int| 0 <= i < high - low implies {
        &&& (#[trigger] ents[i]).index == low + i
        &&& v.term_allowed((low + i) as u64)
        &&& v.term_of((low + i) as u64) == Ok::<u64, StorageError>(ents[i].term)
    } by {
        assert(ents[i] == v.log[low - v.first_index() + i]);
        assert(v.log[v.log.len() - 1].index == v.log[0].index + v.log.len() - 1);
    }
}

/// The total size of a non-empty prefix is the first entry's size plus that of the rest.
proof fn total_of_prefix_unfolds(r: Seq<EntryView>, k: int)
    requires
        0 <= k < r.len(),
    ensures
        total_size(r.take(k + 1)) == encoded_size(r[0]) + total_size(r.drop_first().take(k)),
{
    assert(r.take(k + 1).drop_first() =~= r.drop_first().take(k));
    assert(r.take(k + 1)[0] == r[0]);
}

/// Lengthening a prefix by one entry adds that entry's size.
pub proof fn total_of_longer_prefix(r: Seq<EntryView>, k: int)
    requires
        0 <= k < r.len(),
    ensures
        total_size(r.take(k + 1)) == total_size(r.take(k)) + encoded_size(r[k]),
    decreases k,
{
    total_of_prefix_unfolds(r, k);
    if k == 0 {
        assert(r.drop_first().take(0) =~= Seq::<EntryView>::empty());
        assert(r.take(0) =~= Seq::<EntryView>::empty());
    } else {
        total_of_longer_prefix(r.drop_first(), k - 1);
        total_of_prefix_unfolds(r, k - 1);
    }
}

/// The size rule, counted from `size` bytes: it keeps no more than there is, keeps the
/// first entry when nothing was counted yet, keeps within the limit once something was
/// counted, and stops only where the next entry would pass the limit.
proof fn size_count_facts(r: Seq<EntryView>, m: u64, size: nat)
    ensures
        size_limited_count(r, m, size) <= r.len(),
        size == 0 && r.len() > 0 ==> size_limited_count(r, m, size) >= 1,
        size > 0 && size_limited_count(r, m, size) >= 1 ==>
            size + total_size(r.take(size_limited_count(r, m, size) as int)) <= m,
        size_limited_count(r, m, size) < r.len() ==>
            size + total_size(r.take((size_limited_count(r, m, size) + 1) as int)) > m,
    decreases r.len(),
{
    if r.len() > 0 {
        let next = size + encoded_size(r[0]);
        let c = size_limited_count(r, m, size);
        if size == 0 || next <= m {
            let d = r.drop_first();
            size_count_facts(d, m, next);
            let cd = size_limited_count(d, m, next);
            assert(c == cd + 1);
            total_of_prefix_unfolds(r, cd as int);
            if c < r.len() {
                total_of_prefix_unfolds(r, (cd + 1) as int);
            }
            if cd == 0 {
                assert(d.take(0) =~= Seq::<EntryView>::empty());
            }
        } else {
            total_of_prefix_unfolds(r, 0);
            assert(r.drop_first().take(0) =~= Seq::<EntryView>::empty());
        }
    }
}

/// The size limit of a read: at least one entry comes back, never more than the range;
/// when several come back under a limit below `u64::MAX` and the first has a size,
/// together they stay within the limit;
/// and the read stops short of the range only where one more entry would pass the limit.
/// (Without a limit, or with `u64::MAX`, the whole range comes back.)
pub proof fn size_limit_respected(range: Seq<EntryView>, max_size: u64)
    ensures
        kept_len(range, None) == range.len(),
        kept_len(range, Some(u64::MAX)) == range.len(),
        range.len() > 0 ==> 1 <= kept_len(range, Some(max_size)),
        kept_len(range, Some(max_size)) <= range.len(),
        max_size < u64::MAX && kept_len(range, Some(max_size)) >= 2 && encoded_size(range[0]) > 0 ==>
            total_size(range.take(kept_len(range, Some(max_size)) as int)) <= max_size,
        kept_len(range, Some(max_size)) < range.len() ==>
            total_size(range.take(kept_len(range, Some(max_size)) as int)) + encoded_size(range[kept_len(range, Some(max_size)) as int]) > max_size,
{
    size_count_facts(range, max_size, 0);
    let c = kept_len(range, Some(max_size));
    if c < range.len() {
        total_of_longer_prefix(range, c as int);
    }
    if c >= 2 && encoded_size(range[0]) > 0 && range.len() > 1 && max_size != u64::MAX {
        let d = range.drop_first();
        assert(size_limited_count(range, max_size, 0) == 1 + size_limited_count(d, max_size, encoded_size(range[0])));
        size_count_facts(d, max_size, encoded_size(range[0]));
        total_of_prefix_unfolds(range, (c - 1) as int);
    }
}

/// Replacing the hard state or the membership changes nothing else, and they are read
/// back as written.
pub proof fn state_read_back(v: CoreState, hs: HardState, cs: crate::types::ConfStateView)
    ensures
        v.with_hard_state(hs).hard_state == hs,
        v.with_hard_state(hs).log == v.log,
        v.with_hard_state(hs).conf_state == v.conf_state,
        v.with_conf_state(cs).conf_state == cs,
        v.with_conf_state(cs).log == v.log,
        v.with_conf_state(cs).hard_state == v.hard_state,
{
}

/// A snapshot taken of the store stands at the commit index, with the term of the entry
/// there and the current membership.
pub proof fn snapshot_matches_log(v: CoreState)
    requires
        v.wf(),
        v.log_in_order(),
        v.snapshot_allowed(),
    ensures
        v.snapshot_at(0).metadata.index == v.hard_state.commit,
        v.term_allowed(v.hard_state.commit),
        v.term_of(v.hard_state.commit) == Ok::<u64, StorageError>(v.snapshot_at(0).metadata.term),
        v.snapshot_at(0).metadata.conf_state == v.conf_state,
{
    if v.hard_state.commit > v.snapshot_index {
        assert(v.log[v.log.len() - 1].index == v.log[0].index + v.log.len() - 1);
    }
}

} // verus!
