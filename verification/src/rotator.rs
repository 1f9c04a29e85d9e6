//! Rotation state and pool membership: the observed rotation counter, the
//! pool accounts a rotation must touch, and this node's position in each
//! worker pool.

use vstd::prelude::*;

use crate::address::Address;

verus! {

/// Observed state of the rotation authority. `nonce` seeds the weighted
/// sample and advances exactly once per successful rotation; a nonce of
/// zero means the rotator was never initialized.
#[derive(Clone, PartialEq, Debug)]
pub struct Rotator {
    pub last_rotation_at: u64,
    pub nonce: u64,
    pub pool_addresses: Vec<Address>,
}

/// This node's view of one named worker pool: the members in order, and
/// this node's index among them if it is a member.
#[derive(Clone, PartialEq, Debug)]
pub struct PoolPosition {
    pub current_position: Option<u64>,
    pub workers: Vec<Address>,
}

impl Default for PoolPosition {
    /// An empty pool in which this node is not a member.
    fn default() -> (r: PoolPosition)
        ensures
            r.current_position is None,
            r.workers@.len() == 0,
    {
        PoolPosition { current_position: None, workers: Vec::new() }
    }
}

/// Positions in the two pools this node watches: the pool of workers that
/// crank queued tasks, and the pool of workers that deliver webhooks.
#[derive(Clone, PartialEq, Debug)]
pub struct PoolPositions {
    pub crank_pool: PoolPosition,
    pub http_pool: PoolPosition,
}

impl Default for PoolPositions {
    /// Both pools empty, this node a member of neither.
    fn default() -> (r: PoolPositions)
        ensures
            r.crank_pool.current_position is None,
            r.crank_pool.workers@.len() == 0,
            r.http_pool.current_position is None,
            r.http_pool.workers@.len() == 0,
    {
        PoolPositions { crank_pool: PoolPosition::default(), http_pool: PoolPosition::default() }
    }
}

/// `p` records exactly this node's membership in `workers`: the worker list
/// itself, and the first index holding `member`, or nothing when `member`
/// is absent.
pub open spec fn is_position_of(p: PoolPosition, workers: Seq<Address>, member: Address) -> bool {
    &&& p.workers@ == workers
    &&& match p.current_position {
        Some(i) => {
            &&& i < workers.len()
            &&& workers[i as int] == member
            &&& forall|j: int| 0 <= j < i ==> workers[j] != member
        },
        None => forall|j: int| 0 <= j < workers.len() ==> workers[j] != member,
    }
}

/// Recomputes this node's position in a pool from a freshly observed member
/// list, as the first index at which `member` appears.
pub fn pool_position(workers: Vec<Address>, member: Address) -> (r: PoolPosition)
    ensures
        is_position_of(r, workers@, member),
{
    let n: usize = workers.len();
    let mut i: usize = 0;
    while i < n
        invariant
            n == workers@.len(),
            i <= n,
            forall|j: int| 0 <= j < i ==> workers@[j] != member,
        decreases n - i,
    {
        if workers[i] == member {
            let position: u64 = i as u64;
            return PoolPosition { current_position: Some(position), workers };
        }
        i += 1;
    }
    PoolPosition { current_position: None, workers }
}

} // verus!
