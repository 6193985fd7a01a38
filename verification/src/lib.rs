//! Task-scheduling core of a minimal single-core cooperative kernel.
//!
//! The library maintains a fixed population of tasks, arbitrates their
//! lifecycle transitions, picks the next task to run by plain round robin,
//! and keeps per-task accounting (syscall counts, first-run timestamp).
//! The low-level control transfer itself is left to the surrounding kernel:
//! every scheduling entry point returns a [`manager::ScheduleDecision`]
//! naming the contexts to save and restore, and the caller performs the
//! switch.

pub mod context;
pub mod manager;
pub mod syscall;
pub mod task;
