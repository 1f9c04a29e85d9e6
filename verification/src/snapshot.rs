//! The stake snapshot: a point-in-time partition of the total staked weight
//! into contiguous worker ranges, used as the sampling domain for worker
//! selection.

use vstd::prelude::*;

use crate::address::Address;

verus! {

/// Lifecycle status of a snapshot. At most one snapshot is `Current`;
/// a superseded snapshot becomes `Archived` and is drained through
/// `Closing` before its account is destroyed.
#[derive(Clone, Copy, PartialEq, Eq, Structural, Debug)]
pub enum SnapshotStatus {
    Current,
    Archived,
    Closing,
}

/// Summary record of one stake snapshot.
#[derive(Clone, Copy, PartialEq, Eq, Structural, Debug)]
pub struct Snapshot {
    pub id: u64,
    pub node_count: u64,
    pub stake_total: u64,
    pub status: SnapshotStatus,
}

/// One entry of a snapshot: the worker staking the range
/// `[stake_offset, stake_offset + stake_amount)` of the cumulative
/// stake distribution.
#[derive(Clone, Copy, PartialEq, Eq, Structural, Debug)]
pub struct StakeEntry {
    pub id: u64,
    pub stake_offset: u64,
    pub stake_amount: u64,
    pub worker: Address,
}

/// The range of `e` contains the sample point `sample`.
pub open spec fn entry_covers(e: StakeEntry, sample: int) -> bool {
    e.stake_offset <= sample < e.stake_offset + e.stake_amount
}

/// The entries partition `[0, stake_total)` into contiguous, non-overlapping
/// ranges: the first range starts at zero, each range ends where the next
/// begins, the last range ends at `stake_total`, and entry ids ascend.
pub open spec fn valid_partition(entries: Seq<StakeEntry>, stake_total: u64) -> bool {
    &&& entries.len() == 0 ==> stake_total == 0
    &&& entries.len() > 0 ==> entries[0].stake_offset == 0
    &&& forall|i: int|
        0 <= i < entries.len() - 1 ==> #[trigger] entries[i].stake_offset + entries[i].stake_amount
            == entries[i + 1].stake_offset
    &&& entries.len() > 0 ==> entries[entries.len() - 1].stake_offset + entries[entries.len()
        - 1].stake_amount == stake_total
    &&& forall|i: int| 0 <= i < entries.len() - 1 ==> #[trigger] entries[i].id < entries[i + 1].id
}

/// In a valid partition, ranges appear in order: an earlier entry's range
/// lies entirely at or below a later entry's range.
pub proof fn lemma_ranges_ordered(entries: Seq<StakeEntry>, stake_total: u64, i: int, j: int)
    requires
        valid_partition(entries, stake_total),
        0 <= i <= j < entries.len(),
    ensures
        entries[i].stake_offset <= entries[j].stake_offset,
        i < j ==> entries[i].stake_offset + entries[i].stake_amount <= entries[j].stake_offset,
    decreases j - i,
{
    if i < j {
        lemma_ranges_ordered(entries, stake_total, i, j - 1);
        assert(entries[j - 1].stake_offset + entries[j - 1].stake_amount
            == entries[j].stake_offset);
    }
}

/// Every sample point below `stake_total` lies in the range of some entry.
pub proof fn lemma_sample_covered(entries: Seq<StakeEntry>, stake_total: u64, sample: int)
    requires
        valid_partition(entries, stake_total),
        0 <= sample < stake_total,
    ensures
        exists|i: int| 0 <= i < entries.len() && entry_covers(entries[i], sample),
    decreases entries.len(),
{
    let last = entries.len() - 1;
    if entries[last].stake_offset <= sample {
        assert(entry_covers(entries[last], sample));
    } else {
        let head = entries.subrange(0, last);
        let head_total = entries[last].stake_offset;
        assert forall|i: int| 0 <= i < head.len() - 1 implies #[trigger] head[i].stake_offset
            + head[i].stake_amount == head[i + 1].stake_offset by {
            assert(head[i] == entries[i]);
            assert(head[i + 1] == entries[i + 1]);
        }
        assert forall|i: int| 0 <= i < head.len() - 1 implies #[trigger] head[i].id < head[i
            + 1].id by {
            assert(head[i] == entries[i]);
            assert(head[i + 1] == entries[i + 1]);
        }
        if head.len() > 0 {
            assert(head[head.len() - 1] == entries[last - 1]);
            assert(head[0] == entries[0]);
        }
        assert(valid_partition(head, head_total));
        lemma_sample_covered(head, head_total, sample);
        let w = choose|i: int| 0 <= i < head.len() && entry_covers(head[i], sample);
        assert(head[w] == entries[w]);
        assert(entry_covers(entries[w], sample));
    }
}

/// A sample point lies in the range of at most one entry: the ranges of a
/// valid partition do not overlap.
pub proof fn lemma_cover_unique(
    entries: Seq<StakeEntry>,
    stake_total: u64,
    sample: int,
    i: int,
    j: int,
)
    requires
        valid_partition(entries, stake_total),
        0 <= i < entries.len(),
        0 <= j < entries.len(),
        entry_covers(entries[i], sample),
        entry_covers(entries[j], sample),
    ensures
        i == j,
{
    if i < j {
        lemma_ranges_ordered(entries, stake_total, i, j);
    }
    if j < i {
        lemma_ranges_ordered(entries, stake_total, j, i);
    }
}

/// Checks at run time that `entries` is a valid partition of
/// `[0, stake_total)`, as a caller that received the entries from an
/// untrusted observation must do before sampling them.
pub fn is_valid_partition(entries: &Vec<StakeEntry>, stake_total: u64) -> (r: bool)
    ensures
        r == valid_partition(entries@, stake_total),
{
    let n: usize = entries.len();
    if n == 0 {
        return stake_total == 0;
    }
    if entries[0].stake_offset != 0 {
        return false;
    }
    let mut i: usize = 0;
    while i < n - 1
        invariant
            n == entries@.len(),
            n > 0,
            i <= n - 1,
            forall|k: int|
                0 <= k < i ==> #[trigger] entries@[k].stake_offset + entries@[k].stake_amount
                    == entries@[k + 1].stake_offset,
            forall|k: int| 0 <= k < i ==> #[trigger] entries@[k].id < entries@[k + 1].id,
        decreases n - 1 - i,
    {
        let end: u128 = (entries[i].stake_offset as u128) + (entries[i].stake_amount as u128);
        if end != (entries[i + 1].stake_offset as u128) {
            return false;
        }
        if entries[i].id >= entries[i + 1].id {
            return false;
        }
        i += 1;
    }
    let last_end: u128 = (entries[n - 1].stake_offset as u128) + (entries[n - 1].stake_amount as u128);
    last_end == stake_total as u128
}

} // verus!
