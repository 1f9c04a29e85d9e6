//! Deterministic scheduling core for a rotating pool of worker nodes on a
//! shared ledger: stake-weighted worker selection, the eligibility gate for
//! rotation transitions, the chained-step task engine, rotation instruction
//! assembly, and the locally owned caches of observed ledger state that feed
//! those decisions.

mod address;
mod clock;
mod engine;
mod gate;
mod instruction;
mod observer;
mod rotator;
mod selector;
mod sighash;
mod snapshot;

pub use address::Address;
pub use clock::{ClockData, DeserializationError, clock_data_of, le_i64_at, le_u64_at};
pub use engine::{
    EngineError, NextStep, QueuedTask, StepResult, TaskStatus, crank_step, run_chain, same_task,
};
pub use gate::{
    GateError, gate_outcome, lemma_gate_grace_boundary, lemma_gate_member_at_target,
    lemma_gate_rejects_before_target, lemma_gate_rejects_early, lemma_gate_rejects_uninitialized,
    may_rotate, rotation_target,
};
pub use instruction::{
    AccountRef, InstructionPlan, entry_close_instruction, entry_close_name, pools_rotate_name,
    rotation_instruction,
};
pub use observer::{
    PoolObserver, RotationError, RotationPlan, RotationStateCache, StakeSnapshotCache,
    same_identity,
};
pub use rotator::{PoolPosition, PoolPositions, Rotator, is_position_of, pool_position};
pub use selector::{
    SelectionError, covering_index, lemma_select_deterministic, sample_of, select, select_checked,
    select_entry, selected_worker,
};
pub use sighash::{anchor_sighash, namespace_prefix, sha256_of, sighash_of, sighash_preimage};
pub use snapshot::{
    Snapshot, SnapshotStatus, StakeEntry, entry_covers, is_valid_partition, lemma_cover_unique,
    lemma_sample_covered, valid_partition,
};
