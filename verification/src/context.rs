//! Saved execution context of a task.

use vstd::prelude::*;

verus! {

broadcast use vstd::array::group_array_axioms;

/// The minimal CPU state needed to suspend a task's control flow and later
/// resume it: a resume address, a stack pointer, and the callee-saved
/// registers.  The surrounding kernel's switch routine writes and reads
/// values of this type; the scheduler only constructs and stores them.
#[derive(Copy, Clone, Debug)]
pub struct TaskContext {
    /// Address at which execution resumes when this context is restored.
    pub ra: usize,
    /// Stack pointer active after this context is restored.
    pub sp: usize,
    /// Callee-saved registers, preserved across a switch.
    pub s: [usize; 12],
}

impl TaskContext {
    /// An all-zero context: the disposable placeholder used as a save
    /// destination when the caller of a switch is not itself a task.
    pub open spec fn is_zeroed(self) -> bool {
        &&& self.ra == 0
        &&& self.sp == 0
        &&& forall|i: int| 0 <= i < 12 ==> self.s[i] == 0
    }

    /// The initial context of a task: restoring it enters the trap-return
    /// trampoline at `restore_entry` on the kernel stack `kstack_ptr`,
    /// which establishes the task's user-mode entry for the first time.
    pub open spec fn is_initial(self, restore_entry: usize, kstack_ptr: usize) -> bool {
        &&& self.ra == restore_entry
        &&& self.sp == kstack_ptr
        &&& forall|i: int| 0 <= i < 12 ==> self.s[i] == 0
    }

    /// Build the zeroed placeholder context.
    pub fn zero_init() -> (cx: TaskContext)
        ensures
            cx.is_zeroed(),
    {
        TaskContext { ra: 0, sp: 0, s: [0; 12] }
    }

    /// Build the context for a task's very first resumption: it lands in the
    /// trap-return trampoline at `restore_entry` with stack `kstack_ptr`.
    pub fn goto_restore(restore_entry: usize, kstack_ptr: usize) -> (cx: TaskContext)
        ensures
            cx.is_initial(restore_entry, kstack_ptr),
    {
        TaskContext { ra: restore_entry, sp: kstack_ptr, s: [0; 12] }
    }
}

} // verus!
