//! The pool observer: this node's locally owned, read-through mirror of the
//! ledger state that rotation decisions consume, and the decision itself.
//! The ledger stays the single source of truth; each cache is refreshed from
//! freshly observed account state before a decision with financial
//! consequences is taken.

use vstd::prelude::*;

use crate::address::Address;
use crate::gate::{GateError, gate_outcome, may_rotate};
use crate::rotator::{PoolPosition, PoolPositions, Rotator, is_position_of, pool_position};
use crate::selector::{
    SelectionError, covering_index, sample_of, select_entry, selected_worker,
};
use crate::snapshot::{Snapshot, SnapshotStatus, StakeEntry, is_valid_partition, valid_partition};

verus! {

/// The most recently observed rotation state.
#[derive(Clone, PartialEq, Debug)]
pub struct RotationStateCache {
    pub rotator: Rotator,
}

impl RotationStateCache {
    /// An uninitialized rotator: nonce zero, no rotation seen, no pools.
    pub fn new() -> (r: RotationStateCache)
        ensures
            r.rotator.last_rotation_at == 0,
            r.rotator.nonce == 0,
            r.rotator.pool_addresses@.len() == 0,
    {
        RotationStateCache {
            rotator: Rotator { last_rotation_at: 0, nonce: 0, pool_addresses: Vec::new() },
        }
    }

    /// Replaces the cached rotation state with a fresh observation.
    pub fn update(&mut self, rotator: Rotator)
        ensures
            final(self).rotator == rotator,
    {
        self.rotator = rotator;
    }
}

/// The most recently observed snapshot summary and its entries: the current
/// partition of total staked weight into worker ranges.
#[derive(Clone, PartialEq, Debug)]
pub struct StakeSnapshotCache {
    pub snapshot: Snapshot,
    pub entries: Vec<StakeEntry>,
}

impl StakeSnapshotCache {
    /// An empty snapshot with no stake and no entries.
    pub fn new() -> (r: StakeSnapshotCache)
        ensures
            r.snapshot == (Snapshot {
                id: 0,
                node_count: 0,
                stake_total: 0,
                status: SnapshotStatus::Current,
            }),
            r.entries@.len() == 0,
    {
        StakeSnapshotCache {
            snapshot: Snapshot {
                id: 0,
                node_count: 0,
                stake_total: 0,
                status: SnapshotStatus::Current,
            },
            entries: Vec::new(),
        }
    }

    /// Takes a freshly observed snapshot summary, keeping only the one that
    /// is `Current`: archived and closing snapshots no longer describe the
    /// sampling domain.
    pub fn apply_snapshot(&mut self, snapshot: Snapshot)
        ensures
            snapshot.status == SnapshotStatus::Current ==> *final(self) == (StakeSnapshotCache {
                snapshot,
                entries: old(self).entries,
            }),
            snapshot.status != SnapshotStatus::Current ==> *final(self) == *old(self),
    {
        if snapshot.status == SnapshotStatus::Current {
            self.snapshot = snapshot;
        }
    }

    /// Replaces the cached entries with a freshly observed partition.
    pub fn apply_entries(&mut self, entries: Vec<StakeEntry>)
        ensures
            final(self).snapshot == old(self).snapshot,
            final(self).entries == entries,
    {
        self.entries = entries;
    }
}

/// Everything a rotation plan names: which snapshot entry won the sample,
/// and the worker recorded there.
#[derive(Clone, Copy, PartialEq, Eq, Structural, Debug)]
pub struct RotationPlan {
    /// Position of the selected entry among the observed entries.
    pub entry_index: usize,
    /// The selected entry's own id.
    pub entry_id: u64,
    /// The worker whose turn it is.
    pub worker: Address,
}

/// Why no rotation plan was produced.
#[derive(Clone, Copy, PartialEq, Eq, Structural, Debug)]
pub enum RotationError {
    /// The eligibility gate rejected the attempt.
    Gate(GateError),
    /// The attempt was authorized but the observed entries could not be
    /// sampled.
    Selection(SelectionError),
}

/// This node's observer state: its own address, the injected rotation
/// timing configuration, and the cached mirrors of pool membership,
/// rotation state, and the stake snapshot.
#[derive(Clone, PartialEq, Debug)]
pub struct PoolObserver {
    pub self_address: Address,
    pub rotation_interval: u64,
    pub grace_period: u64,
    pub pool_positions: PoolPositions,
    pub rotation_cache: RotationStateCache,
    pub snapshot_cache: StakeSnapshotCache,
}

/// An observer's identity and timing configuration never change after
/// construction; cache updates leave them alone.
pub open spec fn same_identity(a: PoolObserver, b: PoolObserver) -> bool {
    &&& a.self_address == b.self_address
    &&& a.rotation_interval == b.rotation_interval
    &&& a.grace_period == b.grace_period
}

impl PoolObserver {
    /// A fresh observer that has seen nothing yet: uninitialized rotator,
    /// empty snapshot, membership in no pool.
    pub fn new(self_address: Address, rotation_interval: u64, grace_period: u64) -> (r:
        PoolObserver)
        ensures
            r.self_address == self_address,
            r.rotation_interval == rotation_interval,
            r.grace_period == grace_period,
            r.pool_positions.crank_pool.current_position is None,
            r.pool_positions.crank_pool.workers@.len() == 0,
            r.pool_positions.http_pool.current_position is None,
            r.pool_positions.http_pool.workers@.len() == 0,
            r.rotation_cache.rotator.last_rotation_at == 0,
            r.rotation_cache.rotator.nonce == 0,
            r.rotation_cache.rotator.pool_addresses@.len() == 0,
            r.snapshot_cache.snapshot == (Snapshot {
                id: 0,
                node_count: 0,
                stake_total: 0,
                status: SnapshotStatus::Current,
            }),
            r.snapshot_cache.entries@.len() == 0,
    {
        PoolObserver {
            self_address,
            rotation_interval,
            grace_period,
            pool_positions: PoolPositions::default(),
            rotation_cache: RotationStateCache::new(),
            snapshot_cache: StakeSnapshotCache::new(),
        }
    }

    /// Takes a freshly observed rotation state.
    pub fn handle_updated_rotator(&mut self, rotator: Rotator)
        ensures
            same_identity(*old(self), *final(self)),
            final(self).rotation_cache.rotator == rotator,
            final(self).pool_positions == old(self).pool_positions,
            final(self).snapshot_cache == old(self).snapshot_cache,
    {
        self.rotation_cache.update(rotator);
    }

    /// Takes a freshly observed member list of the named pool and
    /// recomputes this node's position in it. Only the two watched pools,
    /// `"crank"` and `"http"`, are tracked; an update to any other pool
    /// changes nothing.
    pub fn handle_updated_pool(&mut self, name: &String, workers: Vec<Address>)
        ensures
            same_identity(*old(self), *final(self)),
            final(self).rotation_cache == old(self).rotation_cache,
            final(self).snapshot_cache == old(self).snapshot_cache,
            name@ == "crank"@ ==> {
                &&& is_position_of(
                    final(self).pool_positions.crank_pool,
                    workers@,
                    old(self).self_address,
                )
                &&& final(self).pool_positions.http_pool == old(self).pool_positions.http_pool
            },
            name@ == "http"@ ==> {
                &&& is_position_of(
                    final(self).pool_positions.http_pool,
                    workers@,
                    old(self).self_address,
                )
                &&& final(self).pool_positions.crank_pool == old(self).pool_positions.crank_pool
            },
            name@ != "crank"@ && name@ != "http"@ ==> final(self).pool_positions == old(
                self,
            ).pool_positions,
    {
        proof {
            // The literals' lengths make the two watched pool names
            // provably distinct.
            reveal_strlit("crank");
            reveal_strlit("http");
            assert("crank"@.len() == 5);
            assert("http"@.len() == 4);
        }
        let crank_name: String = "crank".to_owned();
        let http_name: String = "http".to_owned();
        if *name == crank_name {
            self.pool_positions.crank_pool = pool_position(workers, self.self_address);
        } else if *name == http_name {
            self.pool_positions.http_pool = pool_position(workers, self.self_address);
        }
    }

    /// Takes a freshly observed snapshot summary; only a `Current` snapshot
    /// replaces the cached one.
    pub fn handle_updated_snapshot(&mut self, snapshot: Snapshot)
        ensures
            same_identity(*old(self), *final(self)),
            final(self).pool_positions == old(self).pool_positions,
            final(self).rotation_cache == old(self).rotation_cache,
            snapshot.status == SnapshotStatus::Current ==> final(self).snapshot_cache == (
            StakeSnapshotCache { snapshot, entries: old(self).snapshot_cache.entries }),
            snapshot.status != SnapshotStatus::Current ==> final(self).snapshot_cache == old(
                self,
            ).snapshot_cache,
    {
        self.snapshot_cache.apply_snapshot(snapshot);
    }

    /// Takes the freshly fetched entries of the cached snapshot.
    pub fn handle_updated_entries(&mut self, entries: Vec<StakeEntry>)
        ensures
            same_identity(*old(self), *final(self)),
            final(self).pool_positions == old(self).pool_positions,
            final(self).rotation_cache == old(self).rotation_cache,
            final(self).snapshot_cache.snapshot == old(self).snapshot_cache.snapshot,
            final(self).snapshot_cache.entries == entries,
    {
        self.snapshot_cache.apply_entries(entries);
    }

    /// Whether this node may attempt a rotation at `now`, judged from the
    /// cached rotation state, snapshot, and this node's position in the
    /// crank pool.
    pub fn may_rotate(&self, now: u64) -> (r: Result<(), GateError>)
        ensures
            r == gate_outcome(
                now,
                self.rotation_cache.rotator,
                self.snapshot_cache.snapshot,
                self.pool_positions.crank_pool,
                self.rotation_interval,
                self.grace_period,
            ),
    {
        may_rotate(
            now,
            &self.rotation_cache.rotator,
            &self.snapshot_cache.snapshot,
            &self.pool_positions.crank_pool,
            self.rotation_interval,
            self.grace_period,
        )
    }

    /// Decides, from the refreshed caches alone, whether and how this node
    /// should attempt the rotation at `now`: the eligibility gate first,
    /// then stake-weighted selection over the observed partition. A plan
    /// comes back exactly when the attempt is authorized and the observed
    /// entries validly partition the cached total stake.
    pub fn plan_rotation(&self, now: u64) -> (r: Result<RotationPlan, RotationError>)
        ensures
            match r {
                Ok(plan) => {
                    &&& gate_outcome(
                        now,
                        self.rotation_cache.rotator,
                        self.snapshot_cache.snapshot,
                        self.pool_positions.crank_pool,
                        self.rotation_interval,
                        self.grace_period,
                    ) == Ok::<(), GateError>(())
                    &&& valid_partition(
                        self.snapshot_cache.entries@,
                        self.snapshot_cache.snapshot.stake_total,
                    )
                    &&& plan.entry_index < self.snapshot_cache.entries@.len()
                    &&& plan.entry_index as int == covering_index(
                        self.snapshot_cache.entries@,
                        sample_of(
                            self.rotation_cache.rotator.nonce,
                            self.snapshot_cache.snapshot.stake_total,
                        ),
                    )
                    &&& plan.entry_id == self.snapshot_cache.entries@[plan.entry_index as int].id
                    &&& plan.worker == selected_worker(
                        self.snapshot_cache.entries@,
                        self.rotation_cache.rotator.nonce,
                        self.snapshot_cache.snapshot.stake_total,
                    )
                },
                Err(RotationError::Gate(g)) => gate_outcome(
                    now,
                    self.rotation_cache.rotator,
                    self.snapshot_cache.snapshot,
                    self.pool_positions.crank_pool,
                    self.rotation_interval,
                    self.grace_period,
                ) == Err::<(), GateError>(g),
                Err(RotationError::Selection(s)) => {
                    &&& gate_outcome(
                        now,
                        self.rotation_cache.rotator,
                        self.snapshot_cache.snapshot,
                        self.pool_positions.crank_pool,
                        self.rotation_interval,
                        self.grace_period,
                    ) == Ok::<(), GateError>(())
                    &&& s == SelectionError::MalformedPartition
                    &&& !valid_partition(
                        self.snapshot_cache.entries@,
                        self.snapshot_cache.snapshot.stake_total,
                    )
                },
            },
    {
        match self.may_rotate(now) {
            Err(g) => {
                return Err(RotationError::Gate(g));
            },
            Ok(()) => {},
        }
        let stake_total = self.snapshot_cache.snapshot.stake_total;
        if !is_valid_partition(&self.snapshot_cache.entries, stake_total) {
            return Err(RotationError::Selection(SelectionError::MalformedPartition));
        }
        match select_entry(self.rotation_cache.rotator.nonce, stake_total, &self.snapshot_cache.entries) {
            Ok(i) => {
                let entry = self.snapshot_cache.entries[i];
                Ok(RotationPlan { entry_index: i, entry_id: entry.id, worker: entry.worker })
            },
            Err(e) => {
                // Attempts are only authorized over a non-empty stake
                // total, and a valid partition of a non-empty total cannot
                // leave the sample uncovered.
                proof {
                    assert(false);
                }
                Err(RotationError::Selection(e))
            },
        }
    }
}

} // verus!
