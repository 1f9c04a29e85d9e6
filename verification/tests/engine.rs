use clockwork_scheduler::{
    Address, EngineError, NextStep, QueuedTask, StepResult, TaskStatus, crank_step, run_chain,
};

fn task(remaining_entries: u64, rate_limit: u64, balance: u64) -> QueuedTask {
    QueuedTask {
        id: String::from("snapshot"),
        owner: Address::new(1, 2, 3, 4),
        rate_limit,
        status: TaskStatus::Active,
        remaining_entries,
        next_entry: 0,
        balance,
    }
}

#[test]
fn empty_task_closes_in_one_step() {
    let mut t = task(0, 1, 77);
    let mut recipient: u64 = 3;
    assert_eq!(run_chain(&mut t, &mut recipient), Ok(1));
    assert_eq!(t.balance, 0);
    assert_eq!(recipient, 80);
    assert_eq!(t.status, TaskStatus::Active);
    assert_eq!(t.remaining_entries, 0);
}

#[test]
fn single_step_results_chain_to_the_close() {
    let mut t = task(2, 10, 50);
    let mut recipient: u64 = 0;
    assert_eq!(
        crank_step(&mut t, &mut recipient),
        StepResult::Continue { next: NextStep::CloseEntry { entry: 1 } }
    );
    assert_eq!(t.status, TaskStatus::Closing);
    assert_eq!(t.remaining_entries, 1);
    assert_eq!(
        crank_step(&mut t, &mut recipient),
        StepResult::Continue { next: NextStep::CloseTask }
    );
    assert_eq!(t.remaining_entries, 0);
    assert_eq!(t.balance, 50);
    assert_eq!(crank_step(&mut t, &mut recipient), StepResult::Done);
    assert_eq!(t.balance, 0);
    assert_eq!(recipient, 50);
}

#[test]
fn n_entries_close_in_n_plus_one_steps() {
    let mut t = task(3, 10, 25);
    let mut recipient: u64 = 5;
    assert_eq!(run_chain(&mut t, &mut recipient), Ok(4));
    assert_eq!(t.remaining_entries, 0);
    assert_eq!(t.next_entry, 3);
    assert_eq!(t.status, TaskStatus::Closing);
    assert_eq!(t.balance, 0);
    assert_eq!(recipient, 30);
}

#[test]
fn rate_limit_bounds_steps_per_call() {
    let mut t = task(5, 2, 40);
    let mut recipient: u64 = 0;
    // Two steps advance, the third attempt fails, and the state stays as it
    // was after the second step.
    assert_eq!(run_chain(&mut t, &mut recipient), Err(EngineError::RateLimitExceeded));
    assert_eq!(t.remaining_entries, 3);
    assert_eq!(t.next_entry, 2);
    assert_eq!(t.status, TaskStatus::Closing);
    assert_eq!(t.balance, 40);
    assert_eq!(recipient, 0);
    // The next external call resumes from there.
    assert_eq!(run_chain(&mut t, &mut recipient), Err(EngineError::RateLimitExceeded));
    assert_eq!(t.remaining_entries, 1);
    assert_eq!(t.next_entry, 4);
    // One entry plus the close fit the limit exactly.
    assert_eq!(run_chain(&mut t, &mut recipient), Ok(2));
    assert_eq!(t.remaining_entries, 0);
    assert_eq!(t.next_entry, 5);
    assert_eq!(t.balance, 0);
    assert_eq!(recipient, 40);
}

#[test]
fn zero_rate_limit_advances_nothing() {
    let mut t = task(2, 0, 9);
    let mut recipient: u64 = 1;
    assert_eq!(run_chain(&mut t, &mut recipient), Err(EngineError::RateLimitExceeded));
    assert_eq!(t.remaining_entries, 2);
    assert_eq!(t.next_entry, 0);
    assert_eq!(t.status, TaskStatus::Active);
    assert_eq!(t.balance, 9);
    assert_eq!(recipient, 1);
}

#[test]
fn identity_survives_the_chain() {
    let mut t = task(1, 5, 0);
    let mut recipient: u64 = 0;
    assert_eq!(run_chain(&mut t, &mut recipient), Ok(2));
    assert_eq!(t.id, "snapshot");
    assert_eq!(t.owner, Address::new(1, 2, 3, 4));
    assert_eq!(t.rate_limit, 5);
}
