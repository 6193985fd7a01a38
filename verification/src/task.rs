//! Per-task records: lifecycle status and control block.

use crate::context::TaskContext;
use vstd::prelude::*;

verus! {

/// Number of syscall kinds whose invocations are counted per task.
pub const TRACKED_SYSCALL_NUM: usize = 5;

/// Lifecycle status of a task.
///
/// Legal transitions: `UnInit -> Ready` (when the task's initial context is
/// built at manager construction), `Ready -> Running` (chosen by the
/// scheduler), `Running -> Ready` (voluntary yield), `Running -> Exited`
/// (voluntary exit).  `Exited` is terminal.
#[derive(Copy, Clone, Debug, PartialEq, Eq, Structural)]
pub enum TaskStatus {
    /// Slot allocated, never scheduled.
    UnInit,
    /// Eligible to run.
    Ready,
    /// Currently executing; at most one task system-wide.
    Running,
    /// Terminated; never re-enters `Ready`.
    Exited,
}

/// One task slot: lifecycle status, saved context, and accounting metadata.
#[derive(Copy, Clone, Debug)]
pub struct TaskControlBlock {
    /// Where the task stands in its lifecycle.
    pub task_status: TaskStatus,
    /// The task's saved execution context.
    pub task_cx: TaskContext,
    /// How many times the task has invoked each tracked syscall kind,
    /// indexed by counter slot.
    pub syscall_times: [u32; TRACKED_SYSCALL_NUM],
    /// Milliseconds at the task's first scheduling; 0 while never scheduled.
    pub start_time: usize,
}

} // verus!
