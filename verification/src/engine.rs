//! The chained task engine: a queued task executes as a self-chaining
//! sequence of steps, each step draining one internal entry and naming the
//! next step to run, bounded per triggering call by the task's rate limit.

use vstd::prelude::*;

use crate::address::Address;

verus! {

/// Lifecycle of a queued task. A task finishes when a step returns
/// `StepResult::Done`, after which its account ceases to exist.
#[derive(Clone, Copy, PartialEq, Eq, Structural, Debug)]
pub enum TaskStatus {
    /// Steps may run.
    Active,
    /// The task is draining its remaining internal entries before teardown.
    Closing,
}

/// The step a finishing step names as the one to run next.
#[derive(Clone, Copy, PartialEq, Eq, Structural, Debug)]
pub enum NextStep {
    /// Drain the internal entry with this index.
    CloseEntry { entry: u64 },
    /// No entries remain: the next step closes the task itself.
    CloseTask,
}

/// The contract every step execution returns: either the task is finished,
/// or the host must immediately invoke the named next step within the same
/// confirmed step.
#[derive(Clone, Copy, PartialEq, Eq, Structural, Debug)]
pub enum StepResult {
    Done,
    Continue { next: NextStep },
}

/// One queued automation and its chain-execution state: how many internal
/// entries remain to drain, the index of the next entry to process, and the
/// residual balance backing the task's account.
#[derive(Clone, PartialEq, Debug)]
pub struct QueuedTask {
    pub id: String,
    pub owner: Address,
    /// Bound on chained steps per triggering call.
    pub rate_limit: u64,
    pub status: TaskStatus,
    pub remaining_entries: u64,
    pub next_entry: u64,
    pub balance: u64,
}

/// A step failure: the step's state change is aborted and the task resumes,
/// unadvanced, on the next external call.
#[derive(Clone, Copy, PartialEq, Eq, Structural, Debug)]
pub enum EngineError {
    /// The chain asked for more steps in one triggering call than the
    /// task's rate limit allows.
    RateLimitExceeded,
}

/// The identity of a task: everything a step never changes.
pub open spec fn same_task(a: QueuedTask, b: QueuedTask) -> bool {
    &&& a.id == b.id
    &&& a.owner == b.owner
    &&& a.rate_limit == b.rate_limit
}

/// Executes one step of a task's close chain.
///
/// With no internal entries left the task closes immediately: its residual
/// balance moves to the invoking account and the step reports `Done`.
/// Otherwise the task is marked `Closing`, the next internal entry is
/// drained, and the step names what to run next.
pub fn crank_step(task: &mut QueuedTask, recipient_balance: &mut u64) -> (r: StepResult)
    requires
        old(task).balance + *old(recipient_balance) <= u64::MAX,
        old(task).next_entry + old(task).remaining_entries <= u64::MAX,
    ensures
        same_task(*old(task), *final(task)),
        old(task).remaining_entries == 0 ==> {
            &&& r == StepResult::Done
            &&& final(task).status == old(task).status
            &&& final(task).remaining_entries == 0
            &&& final(task).next_entry == old(task).next_entry
            &&& final(task).balance == 0
            &&& *final(recipient_balance) == *old(recipient_balance) + old(task).balance
        },
        old(task).remaining_entries > 0 ==> {
            &&& r == (StepResult::Continue {
                next: if old(task).remaining_entries > 1 {
                    NextStep::CloseEntry { entry: (old(task).next_entry + 1) as u64 }
                } else {
                    NextStep::CloseTask
                },
            })
            &&& final(task).status == TaskStatus::Closing
            &&& final(task).remaining_entries == old(task).remaining_entries - 1
            &&& final(task).next_entry == old(task).next_entry + 1
            &&& final(task).balance == old(task).balance
            &&& *final(recipient_balance) == *old(recipient_balance)
        },
{
    if task.remaining_entries == 0 {
        *recipient_balance = *recipient_balance + task.balance;
        task.balance = 0;
        return StepResult::Done;
    }
    task.status = TaskStatus::Closing;
    task.remaining_entries = task.remaining_entries - 1;
    task.next_entry = task.next_entry + 1;
    if task.remaining_entries > 0 {
        StepResult::Continue { next: NextStep::CloseEntry { entry: task.next_entry } }
    } else {
        StepResult::Continue { next: NextStep::CloseTask }
    }
}

/// Runs a task's close chain for one triggering call, step by step, up to
/// the task's rate limit.
///
/// A task with `n` remaining entries needs exactly `n + 1` steps: one per
/// entry, then the immediate close. When the rate limit covers that, the
/// chain runs to completion and the call returns the number of steps taken.
/// Otherwise exactly `rate_limit` steps run, the next step fails with
/// `RateLimitExceeded`, and the task keeps the state it reached after the
/// last permitted step, to resume on the next external call.
pub fn run_chain(task: &mut QueuedTask, recipient_balance: &mut u64) -> (r: Result<
    u64,
    EngineError,
>)
    requires
        old(task).balance + *old(recipient_balance) <= u64::MAX,
        old(task).next_entry + old(task).remaining_entries <= u64::MAX,
    ensures
        same_task(*old(task), *final(task)),
        old(task).remaining_entries + 1 <= old(task).rate_limit ==> {
            &&& r == Ok::<u64, EngineError>((old(task).remaining_entries + 1) as u64)
            &&& final(task).remaining_entries == 0
            &&& final(task).next_entry == old(task).next_entry + old(task).remaining_entries
            &&& final(task).balance == 0
            &&& *final(recipient_balance) == *old(recipient_balance) + old(task).balance
            &&& final(task).status == if old(task).remaining_entries > 0 {
                TaskStatus::Closing
            } else {
                old(task).status
            }
        },
        old(task).remaining_entries + 1 > old(task).rate_limit ==> {
            &&& r == Err::<u64, EngineError>(EngineError::RateLimitExceeded)
            &&& final(task).remaining_entries == old(task).remaining_entries - old(
                task,
            ).rate_limit
            &&& final(task).next_entry == old(task).next_entry + old(task).rate_limit
            &&& final(task).balance == old(task).balance
            &&& *final(recipient_balance) == *old(recipient_balance)
            &&& final(task).status == if old(task).rate_limit > 0 {
                TaskStatus::Closing
            } else {
                old(task).status
            }
        },
{
    let ghost task0 = *task;
    let ghost recipient0 = *recipient_balance;
    let mut steps: u64 = 0;
    loop
        invariant
            task0 == *old(task),
            recipient0 == *old(recipient_balance),
            task.balance + *recipient_balance <= u64::MAX,
            task.next_entry + task.remaining_entries <= u64::MAX,
            same_task(task0, *task),
            steps <= task0.rate_limit,
            steps <= task0.remaining_entries,
            task.remaining_entries == task0.remaining_entries - steps,
            task.next_entry == task0.next_entry + steps,
            task.balance == task0.balance,
            *recipient_balance == recipient0,
            task.status == if steps > 0 {
                TaskStatus::Closing
            } else {
                task0.status
            },
        decreases task0.rate_limit - steps,
    {
        if steps == task.rate_limit {
            return Err(EngineError::RateLimitExceeded);
        }
        let r = crank_step(task, recipient_balance);
        steps = steps + 1;
        match r {
            StepResult::Done => {
                return Ok(steps);
            },
            StepResult::Continue { next: _ } => {},
        }
    }
}

} // verus!
