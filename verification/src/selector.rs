//! Deterministic, stake-weighted worker selection: the rotation nonce is
//! reduced modulo the total stake and the snapshot entry whose range contains
//! the sample point names the worker whose turn it is.

use vstd::prelude::*;

use crate::address::Address;
use crate::snapshot::{
    StakeEntry, entry_covers, is_valid_partition, lemma_cover_unique, lemma_ranges_ordered,
    lemma_sample_covered, valid_partition,
};

verus! {

/// Why a selection could not be made.
#[derive(Clone, Copy, PartialEq, Eq, Structural, Debug)]
pub enum SelectionError {
    /// The snapshot records no stake, so the sampling domain is empty.
    EmptyStakePool,
    /// The observed entries do not partition `[0, stake_total)`.
    MalformedPartition,
}

/// The sample point drawn from the nonce: its remainder modulo the total
/// stake.
pub open spec fn sample_of(nonce: u64, stake_total: u64) -> int
    recommends
        stake_total > 0,
{
    nonce as int % stake_total as int
}

/// The index of the entry whose range contains `sample`. By
/// `lemma_cover_unique` there is at most one such entry, so this picks the
/// entry, not an arbitrary one.
pub open spec fn covering_index(entries: Seq<StakeEntry>, sample: int) -> int {
    choose|i: int| 0 <= i < entries.len() && entry_covers(entries[i], sample)
}

/// The worker selected by `nonce` over a valid partition: the worker of the
/// entry whose range contains `nonce % stake_total`.
pub open spec fn selected_worker(entries: Seq<StakeEntry>, nonce: u64, stake_total: u64) -> Address
    recommends
        stake_total > 0,
        valid_partition(entries, stake_total),
{
    entries[covering_index(entries, sample_of(nonce, stake_total))].worker
}

/// Finds the index of the entry whose range contains `nonce % stake_total`,
/// by binary search over the ordered ranges.
pub fn select_entry(nonce: u64, stake_total: u64, entries: &Vec<StakeEntry>) -> (r: Result<
    usize,
    SelectionError,
>)
    requires
        valid_partition(entries@, stake_total),
    ensures
        match r {
            Ok(i) => {
                &&& stake_total > 0
                &&& i < entries@.len()
                &&& entry_covers(entries@[i as int], sample_of(nonce, stake_total))
                &&& i == covering_index(entries@, sample_of(nonce, stake_total))
            },
            Err(e) => e == SelectionError::EmptyStakePool && stake_total == 0,
        },
{
    if stake_total == 0 {
        return Err(SelectionError::EmptyStakePool);
    }
    let sample: u64 = nonce % stake_total;
    proof {
        lemma_sample_covered(entries@, stake_total, sample as int);
    }
    let mut lo: usize = 0;
    let mut hi: usize = entries.len();
    while lo < hi
        invariant
            valid_partition(entries@, stake_total),
            stake_total > 0,
            sample == sample_of(nonce, stake_total),
            hi <= entries@.len(),
            exists|i: int| lo <= i < hi && entry_covers(entries@[i], sample as int),
        decreases hi - lo,
    {
        let mid: usize = lo + (hi - lo) / 2;
        let e = entries[mid];
        if sample < e.stake_offset {
            // No entry at or above mid can contain the sample: their ranges
            // start at or above this one's.
            assert forall|i: int| mid <= i < hi implies !entry_covers(entries@[i], sample as int) by {
                lemma_ranges_ordered(entries@, stake_total, mid as int, i);
            }
            hi = mid;
        } else if sample - e.stake_offset < e.stake_amount {
            proof {
                let w = covering_index(entries@, sample as int);
                assert(entry_covers(entries@[mid as int], sample as int));
                lemma_cover_unique(entries@, stake_total, sample as int, w, mid as int);
            }
            return Ok(mid);
        } else {
            // No entry at or below mid can contain the sample: their ranges
            // end at or below this one's end.
            assert forall|i: int| lo <= i <= mid implies !entry_covers(entries@[i], sample as int) by {
                lemma_ranges_ordered(entries@, stake_total, i, mid as int);
            }
            lo = mid + 1;
        }
    }
    // The invariant keeps the covering entry inside [lo, hi), so the search
    // cannot run out of candidates; the defensive fallback of stepping back
    // one position is unreachable under the partition invariant.
    proof {
        assert(false);
    }
    Err(SelectionError::EmptyStakePool)
}

/// Picks the worker whose turn the nonce selects. Deterministic: the result
/// is a function of `nonce % stake_total` and the entries alone, so every
/// independent observer of the same snapshot reaches the same answer.
pub fn select(nonce: u64, stake_total: u64, entries: &Vec<StakeEntry>) -> (r: Result<
    Address,
    SelectionError,
>)
    requires
        valid_partition(entries@, stake_total),
    ensures
        match r {
            Ok(w) => stake_total > 0 && w == selected_worker(entries@, nonce, stake_total),
            Err(e) => e == SelectionError::EmptyStakePool && stake_total == 0,
        },
{
    match select_entry(nonce, stake_total, entries) {
        Ok(i) => Ok(entries[i].worker),
        Err(e) => Err(e),
    }
}

/// Checks the partition before sampling it, for callers holding entries from
/// an untrusted observation: selection proceeds only over a valid partition.
pub fn select_checked(nonce: u64, stake_total: u64, entries: &Vec<StakeEntry>) -> (r: Result<
    Address,
    SelectionError,
>)
    ensures
        match r {
            Ok(w) => {
                &&& valid_partition(entries@, stake_total)
                &&& stake_total > 0
                &&& w == selected_worker(entries@, nonce, stake_total)
            },
            Err(SelectionError::EmptyStakePool) => valid_partition(entries@, stake_total)
                && stake_total == 0,
            Err(SelectionError::MalformedPartition) => !valid_partition(entries@, stake_total),
        },
{
    if !is_valid_partition(entries, stake_total) {
        return Err(SelectionError::MalformedPartition);
    }
    select(nonce, stake_total, entries)
}

/// Selection is periodic in the nonce: nonces that agree modulo the total
/// stake select the same worker.
pub proof fn lemma_select_deterministic(
    entries: Seq<StakeEntry>,
    stake_total: u64,
    nonce1: u64,
    nonce2: u64,
)
    requires
        valid_partition(entries, stake_total),
        stake_total > 0,
        nonce1 as int % stake_total as int == nonce2 as int % stake_total as int,
    ensures
        selected_worker(entries, nonce1, stake_total) == selected_worker(
            entries,
            nonce2,
            stake_total,
        ),
{
    assert(sample_of(nonce1, stake_total) == sample_of(nonce2, stake_total));
}

} // verus!
