//! The eligibility gate: whether this node may submit a rotation transition
//! this round. Incumbent pool members get a priority window; after the grace
//! period elapses the rotation becomes permissionless, so the pool stays
//! live even if every incumbent is offline.

use vstd::prelude::*;

use crate::rotator::{PoolPosition, Rotator};
use crate::snapshot::Snapshot;

verus! {

/// Why a rotation attempt is not authorized, in the order the rules are
/// checked; the first failing rule wins.
#[derive(Clone, Copy, PartialEq, Eq, Structural, Debug)]
pub enum GateError {
    /// The rotator was never initialized: its nonce is still zero.
    Uninitialized,
    /// The snapshot records no stake, so no worker can be sampled.
    NoStake,
    /// The rotation interval since the last rotation has not elapsed.
    TooEarly,
    /// This node is not a pool member and the grace period reserved for
    /// incumbent members has not elapsed.
    NotYetPermissionless,
}

/// The point in ledger time at which the next rotation falls due.
pub open spec fn rotation_target(rotator: Rotator, rotation_interval: u64) -> int {
    rotator.last_rotation_at + rotation_interval
}

/// The eligibility decision, rules applied in order, first failure winning:
/// an uninitialized rotator, then an empty stake pool, then a rotation not
/// yet due, then the grace period in which only incumbent members may act.
pub open spec fn gate_outcome(
    now: u64,
    rotator: Rotator,
    snapshot: Snapshot,
    membership: PoolPosition,
    rotation_interval: u64,
    grace_period: u64,
) -> Result<(), GateError> {
    if rotator.nonce == 0 {
        Err(GateError::Uninitialized)
    } else if snapshot.stake_total == 0 {
        Err(GateError::NoStake)
    } else if now < rotation_target(rotator, rotation_interval) {
        Err(GateError::TooEarly)
    } else if membership.current_position is None && now < rotation_target(
        rotator,
        rotation_interval,
    ) + grace_period {
        Err(GateError::NotYetPermissionless)
    } else {
        Ok(())
    }
}

/// Decides whether this node may attempt the rotation transition at `now`.
/// Success authorizes one attempt; it does not promise the transaction will
/// land, since another node may win the race.
pub fn may_rotate(
    now: u64,
    rotator: &Rotator,
    snapshot: &Snapshot,
    membership: &PoolPosition,
    rotation_interval: u64,
    grace_period: u64,
) -> (r: Result<(), GateError>)
    ensures
        r == gate_outcome(now, *rotator, *snapshot, *membership, rotation_interval, grace_period),
{
    if rotator.nonce == 0 {
        return Err(GateError::Uninitialized);
    }
    if snapshot.stake_total == 0 {
        return Err(GateError::NoStake);
    }
    let target: u128 = (rotator.last_rotation_at as u128) + (rotation_interval as u128);
    if (now as u128) < target {
        return Err(GateError::TooEarly);
    }
    if membership.current_position.is_none() && (now as u128) < target + (grace_period as u128) {
        return Err(GateError::NotYetPermissionless);
    }
    Ok(())
}

/// An uninitialized rotator is rejected regardless of every other input.
pub proof fn lemma_gate_rejects_uninitialized(
    now: u64,
    rotator: Rotator,
    snapshot: Snapshot,
    membership: PoolPosition,
    rotation_interval: u64,
    grace_period: u64,
)
    requires
        rotator.nonce == 0,
    ensures
        gate_outcome(now, rotator, snapshot, membership, rotation_interval, grace_period)
            == Err::<(), GateError>(GateError::Uninitialized),
{
}

/// Before the rotation falls due, every initialized, staked rotation attempt
/// is rejected as too early, member or not.
pub proof fn lemma_gate_rejects_early(
    now: u64,
    rotator: Rotator,
    snapshot: Snapshot,
    membership: PoolPosition,
    rotation_interval: u64,
    grace_period: u64,
)
    requires
        rotator.nonce != 0,
        snapshot.stake_total != 0,
        now < rotation_target(rotator, rotation_interval),
    ensures
        gate_outcome(now, rotator, snapshot, membership, rotation_interval, grace_period)
            == Err::<(), GateError>(GateError::TooEarly),
{
}

/// Before the rotation falls due, no attempt is authorized, whatever the
/// other inputs: some rule ahead of the timing rule may reject first, but
/// none lets the attempt through.
pub proof fn lemma_gate_rejects_before_target(
    now: u64,
    rotator: Rotator,
    snapshot: Snapshot,
    membership: PoolPosition,
    rotation_interval: u64,
    grace_period: u64,
)
    requires
        now < rotation_target(rotator, rotation_interval),
    ensures
        gate_outcome(now, rotator, snapshot, membership, rotation_interval, grace_period) is Err,
{
}

/// For a node that is not a pool member, a due rotation stays reserved to
/// incumbents strictly before the grace period elapses, and becomes
/// permitted at and after that boundary.
pub proof fn lemma_gate_grace_boundary(
    now: u64,
    rotator: Rotator,
    snapshot: Snapshot,
    membership: PoolPosition,
    rotation_interval: u64,
    grace_period: u64,
)
    requires
        rotator.nonce != 0,
        snapshot.stake_total != 0,
        membership.current_position is None,
        now >= rotation_target(rotator, rotation_interval),
    ensures
        now < rotation_target(rotator, rotation_interval) + grace_period ==> gate_outcome(
            now,
            rotator,
            snapshot,
            membership,
            rotation_interval,
            grace_period,
        ) == Err::<(), GateError>(GateError::NotYetPermissionless),
        now >= rotation_target(rotator, rotation_interval) + grace_period ==> gate_outcome(
            now,
            rotator,
            snapshot,
            membership,
            rotation_interval,
            grace_period,
        ) == Ok::<(), GateError>(()),
{
}

/// A node that is a pool member may rotate as soon as the rotation is due,
/// without waiting out the grace period.
pub proof fn lemma_gate_member_at_target(
    now: u64,
    rotator: Rotator,
    snapshot: Snapshot,
    membership: PoolPosition,
    rotation_interval: u64,
    grace_period: u64,
)
    requires
        rotator.nonce != 0,
        snapshot.stake_total != 0,
        membership.current_position is Some,
        now >= rotation_target(rotator, rotation_interval),
    ensures
        gate_outcome(now, rotator, snapshot, membership, rotation_interval, grace_period)
            == Ok::<(), GateError>(()),
{
}

} // verus!
