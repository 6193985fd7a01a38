//! The tracked syscall kinds, their counter slots, and the diagnostic record.

use crate::task::{TaskStatus, TRACKED_SYSCALL_NUM};
use vstd::prelude::*;

verus! {

/// Size of the full syscall-kind space reported by a task-info query.
pub const MAX_SYSCALL_NUM: usize = 500;

/// Syscall kind: write to a file descriptor.
pub const SYSCALL_WRITE: usize = 64;

/// Syscall kind: exit the current task.
pub const SYSCALL_EXIT: usize = 93;

/// Syscall kind: yield the processor.
pub const SYSCALL_YIELD: usize = 124;

/// Syscall kind: read the current time.
pub const SYSCALL_GET_TIME: usize = 169;

/// Syscall kind: query information about the current task.
pub const SYSCALL_TASK_INFO: usize = 410;

/// The fixed set of syscall kinds whose invocations are counted per task.
pub open spec fn is_tracked_syscall(id: usize) -> bool {
    ||| id == SYSCALL_WRITE
    ||| id == SYSCALL_YIELD
    ||| id == SYSCALL_EXIT
    ||| id == SYSCALL_GET_TIME
    ||| id == SYSCALL_TASK_INFO
}

/// Counter slot of a tracked syscall kind in the per-task counter table.
pub open spec fn spec_syscall_slot(id: usize) -> int {
    if id == SYSCALL_WRITE {
        0
    } else if id == SYSCALL_YIELD {
        1
    } else if id == SYSCALL_EXIT {
        2
    } else if id == SYSCALL_GET_TIME {
        3
    } else {
        4
    }
}

/// Tracked syscall kind whose counter lives at slot `slot`.
pub open spec fn spec_slot_syscall(slot: int) -> usize {
    if slot == 0 {
        SYSCALL_WRITE
    } else if slot == 1 {
        SYSCALL_YIELD
    } else if slot == 2 {
        SYSCALL_EXIT
    } else if slot == 3 {
        SYSCALL_GET_TIME
    } else {
        SYSCALL_TASK_INFO
    }
}

/// Map a tracked syscall kind to its counter slot.  An untracked kind is a
/// programming-contract violation, excluded by the precondition.
pub fn map_syscall_to_small_range(syscall_id: usize) -> (slot: usize)
    requires
        is_tracked_syscall(syscall_id),
    ensures
        slot == spec_syscall_slot(syscall_id),
        slot < TRACKED_SYSCALL_NUM,
{
    if syscall_id == SYSCALL_WRITE {
        0
    } else if syscall_id == SYSCALL_YIELD {
        1
    } else if syscall_id == SYSCALL_EXIT {
        2
    } else if syscall_id == SYSCALL_GET_TIME {
        3
    } else {
        4
    }
}

/// Map a counter slot back to the tracked syscall kind counted there.
pub fn map_small_range_to_syscall(id: usize) -> (syscall_id: usize)
    requires
        id < TRACKED_SYSCALL_NUM,
    ensures
        syscall_id == spec_slot_syscall(id as int),
        is_tracked_syscall(syscall_id),
        spec_syscall_slot(syscall_id) == id as int,
        syscall_id < MAX_SYSCALL_NUM,
{
    if id == 0 {
        SYSCALL_WRITE
    } else if id == 1 {
        SYSCALL_YIELD
    } else if id == 2 {
        SYSCALL_EXIT
    } else if id == 3 {
        SYSCALL_GET_TIME
    } else {
        SYSCALL_TASK_INFO
    }
}

/// Projection of a task's tracked counter table back into the full
/// syscall-kind space: a tracked kind reports its counter, every other kind
/// reports 0.
pub open spec fn full_syscall_counts(counts: Seq<u32>) -> Seq<u32> {
    Seq::new(
        MAX_SYSCALL_NUM as nat,
        |id: int|
            if is_tracked_syscall(id as usize) {
                counts[spec_syscall_slot(id as usize)]
            } else {
                0u32
            },
    )
}

/// A task that has recorded no syscall at all reports 0 for every kind of
/// the full syscall-kind space.
pub proof fn lemma_zero_counts_project_to_zero(counts: Seq<u32>)
    requires
        counts.len() == TRACKED_SYSCALL_NUM,
        forall|k: int| 0 <= k < counts.len() ==> counts[k] == 0,
    ensures
        forall|id: int| 0 <= id < MAX_SYSCALL_NUM ==> full_syscall_counts(counts)[id] == 0,
{
    assert forall|id: int| 0 <= id < MAX_SYSCALL_NUM implies full_syscall_counts(counts)[id]
        == 0 by {
        if is_tracked_syscall(id as usize) {
            assert(0 <= spec_syscall_slot(id as usize) < counts.len());
        }
    }
}

/// Diagnostic record filled by a task-info query.
pub struct TaskInfo {
    /// Lifecycle status of the queried task.
    pub status: TaskStatus,
    /// Invocation counts over the full syscall-kind space; untracked kinds
    /// report 0.
    pub syscall_times: [u32; MAX_SYSCALL_NUM],
    /// Milliseconds elapsed since the task's first scheduling.
    pub time: usize,
}

} // verus!
