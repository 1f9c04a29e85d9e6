use clockwork_scheduler::{
    Address, GateError, PoolObserver, RotationError, Rotator, SelectionError, Snapshot,
    SnapshotStatus, StakeEntry, pool_position,
};

fn addr(n: u64) -> Address {
    Address::new(n, 0, 0, 0)
}

fn entry(id: u64, stake_offset: u64, stake_amount: u64, worker: Address) -> StakeEntry {
    StakeEntry { id, stake_offset, stake_amount, worker }
}

fn observed(me: Address) -> PoolObserver {
    let mut observer = PoolObserver::new(me, 10, 10);
    observer.handle_updated_rotator(Rotator {
        last_rotation_at: 100,
        nonce: 149,
        pool_addresses: vec![addr(0x51), addr(0x52)],
    });
    observer.handle_updated_snapshot(Snapshot {
        id: 7,
        node_count: 3,
        stake_total: 100,
        status: SnapshotStatus::Current,
    });
    observer.handle_updated_entries(vec![
        entry(0, 0, 50, addr(0xA)),
        entry(1, 50, 30, addr(0xB)),
        entry(2, 80, 20, addr(0xC)),
    ]);
    observer
}

#[test]
fn fresh_observer_is_uninitialized() {
    let observer = PoolObserver::new(addr(1), 10, 10);
    assert_eq!(observer.may_rotate(1_000_000), Err(GateError::Uninitialized));
}

#[test]
fn non_member_waits_out_the_grace_period() {
    let observer = observed(addr(0xEE));
    assert_eq!(observer.may_rotate(109), Err(GateError::TooEarly));
    assert_eq!(
        observer.plan_rotation(115),
        Err(RotationError::Gate(GateError::NotYetPermissionless))
    );
    let plan = observer.plan_rotation(120).unwrap();
    assert_eq!(plan.entry_index, 0);
    assert_eq!(plan.entry_id, 0);
    assert_eq!(plan.worker, addr(0xA));
}

#[test]
fn member_of_the_crank_pool_plans_at_target() {
    let me = addr(0xEE);
    let mut observer = observed(me);
    observer.handle_updated_pool(&String::from("crank"), vec![addr(9), me, addr(5)]);
    assert_eq!(observer.pool_positions.crank_pool.current_position, Some(1));
    let plan = observer.plan_rotation(110).unwrap();
    assert_eq!(plan.worker, addr(0xA));
}

#[test]
fn http_pool_membership_does_not_authorize_cranking() {
    let me = addr(0xEE);
    let mut observer = observed(me);
    observer.handle_updated_pool(&String::from("http"), vec![me]);
    assert_eq!(observer.pool_positions.http_pool.current_position, Some(0));
    assert_eq!(observer.pool_positions.crank_pool.current_position, None);
    assert_eq!(
        observer.plan_rotation(115),
        Err(RotationError::Gate(GateError::NotYetPermissionless))
    );
}

#[test]
fn unknown_pool_updates_change_nothing() {
    let me = addr(0xEE);
    let mut observer = observed(me);
    observer.handle_updated_pool(&String::from("webhook"), vec![me]);
    assert_eq!(observer.pool_positions.crank_pool.current_position, None);
    assert_eq!(observer.pool_positions.http_pool.current_position, None);
    assert!(observer.pool_positions.crank_pool.workers.is_empty());
}

#[test]
fn non_current_snapshots_are_ignored() {
    let mut observer = observed(addr(0xEE));
    observer.handle_updated_snapshot(Snapshot {
        id: 8,
        node_count: 0,
        stake_total: 0,
        status: SnapshotStatus::Archived,
    });
    assert_eq!(observer.snapshot_cache.snapshot.id, 7);
    assert_eq!(observer.snapshot_cache.snapshot.stake_total, 100);
}

#[test]
fn nonce_sampling_follows_the_cached_rotator() {
    let mut observer = observed(addr(0xEE));
    observer.handle_updated_rotator(Rotator {
        last_rotation_at: 100,
        nonce: 199,
        pool_addresses: vec![],
    });
    let plan = observer.plan_rotation(120).unwrap();
    assert_eq!(plan.entry_index, 2);
    assert_eq!(plan.worker, addr(0xC));
}

#[test]
fn malformed_observed_entries_are_rejected() {
    let mut observer = observed(addr(0xEE));
    observer.handle_updated_entries(vec![
        entry(0, 0, 50, addr(0xA)),
        entry(1, 60, 40, addr(0xB)),
    ]);
    assert_eq!(
        observer.plan_rotation(120),
        Err(RotationError::Selection(SelectionError::MalformedPartition))
    );
}

#[test]
fn pool_position_reports_the_first_match() {
    let a = addr(1);
    let b = addr(2);
    let p = pool_position(vec![b, a, b, a], a);
    assert_eq!(p.current_position, Some(1));
    assert_eq!(p.workers.len(), 4);
    let absent = pool_position(vec![b, b], a);
    assert_eq!(absent.current_position, None);
}
