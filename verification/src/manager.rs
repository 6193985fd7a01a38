//! The task manager: registry of all tasks, round-robin scheduling policy,
//! and per-task accounting.

use crate::context::TaskContext;
use crate::syscall::{
    full_syscall_counts, is_tracked_syscall, map_small_range_to_syscall,
    map_syscall_to_small_range, spec_syscall_slot, TaskInfo, MAX_SYSCALL_NUM,
};
use crate::task::{TaskControlBlock, TaskStatus, TRACKED_SYSCALL_NUM};
use vstd::prelude::*;

verus! {

broadcast use vstd::array::group_array_axioms;

/// What a scheduling entry point decided.  The caller owns the actual
/// control transfer: the switch routine is a non-returning, target-specific
/// primitive that lives outside this library.
#[derive(Copy, Clone, Debug, PartialEq, Eq, Structural)]
pub enum ScheduleDecision {
    /// Save the context of task `prev`, restore the context of task `next`,
    /// and cede control.
    SwitchTo { prev: usize, next: usize },
    /// No task is ready any more: terminal halt, all applications completed.
    AllCompleted,
}

/// Cyclic successor of slot `i` among `n` slots.
pub open spec fn next_slot(i: int, n: int) -> int {
    if i + 1 < n {
        i + 1
    } else {
        0
    }
}

/// First `Ready` slot among the `cnt` slots that follow `cur` in cyclic
/// order (`next_slot(cur)`, then its successor, and so on), or `None` if
/// none of those `cnt` slots is `Ready`.
pub open spec fn first_ready_after(s: Seq<TaskStatus>, cur: int, cnt: nat) -> Option<int>
    decreases cnt,
{
    if cnt == 0 {
        None
    } else {
        let id = next_slot(cur, s.len() as int);
        if s[id] == TaskStatus::Ready {
            Some(id)
        } else {
            first_ready_after(s, id, (cnt - 1) as nat)
        }
    }
}

/// Round-robin selection: the first `Ready` slot strictly after `cur` in
/// cyclic order, scanning one full cycle, so that `cur` itself is
/// considered last.
pub open spec fn spec_find_next(s: Seq<TaskStatus>, cur: int) -> Option<int> {
    first_ready_after(s, cur, s.len())
}

/// The cyclic successor of `cur` taken `k` times.
pub open spec fn slot_after(cur: int, k: nat, n: int) -> int
    decreases k,
{
    if k == 0 {
        cur
    } else {
        next_slot(slot_after(cur, (k - 1) as nat, n), n)
    }
}

/// Within one cycle, `slot_after` wraps around at most once.
pub proof fn lemma_slot_after_closed(cur: int, k: nat, n: int)
    requires
        0 <= cur < n,
        k <= n,
    ensures
        slot_after(cur, k, n) == (if cur + k < n {
            cur + k
        } else {
            cur + k - n
        }),
    decreases k,
{
    if k > 0 {
        lemma_slot_after_closed(cur, (k - 1) as nat, n);
    }
}

/// Stepping once and then `k` times is stepping `k + 1` times.
pub proof fn lemma_slot_after_shift(cur: int, k: nat, n: int)
    requires
        0 <= cur < n,
    ensures
        slot_after(next_slot(cur, n), k, n) == slot_after(cur, (k + 1) as nat, n),
    decreases k,
{
    assert(slot_after(cur, 0, n) == cur);
    if k == 0 {
        assert(slot_after(cur, 1, n) == next_slot(slot_after(cur, 0, n), n));
    } else {
        lemma_slot_after_shift(cur, (k - 1) as nat, n);
        assert(slot_after(next_slot(cur, n), k, n) == next_slot(
            slot_after(next_slot(cur, n), (k - 1) as nat, n),
            n,
        ));
        assert(slot_after(cur, (k + 1) as nat, n) == next_slot(slot_after(cur, k, n), n));
    }
}

/// The scan comes back empty exactly when none of the `cnt` slots it
/// visits is `Ready`.
pub proof fn lemma_scan_none(s: Seq<TaskStatus>, cur: int, cnt: nat)
    requires
        0 <= cur < s.len(),
    ensures
        first_ready_after(s, cur, cnt) is None <==> (forall|k: nat|
            1 <= k <= cnt ==> s[#[trigger] slot_after(cur, k, s.len() as int)] != TaskStatus::Ready),
    decreases cnt,
{
    let n = s.len() as int;
    if cnt > 0 {
        let id = next_slot(cur, n);
        assert(slot_after(cur, 0, n) == cur);
        assert(id == slot_after(cur, 1, n));
        lemma_scan_none(s, id, (cnt - 1) as nat);
        assert forall|k: nat| true implies #[trigger] slot_after(id, k, n) == slot_after(
            cur,
            (k + 1) as nat,
            n,
        ) by {
            lemma_slot_after_shift(cur, k, n);
        }
        if s[id] != TaskStatus::Ready {
            if first_ready_after(s, id, (cnt - 1) as nat) is None {
                assert forall|k: nat|
                    1 <= k <= cnt implies s[#[trigger] slot_after(cur, k, n)]
                    != TaskStatus::Ready by {
                    if k > 1 {
                        assert(slot_after(cur, k, n) == slot_after(id, (k - 1) as nat, n));
                    }
                }
            } else {
                assert(first_ready_after(s, cur, cnt) is Some);
            }
        }
    }
}

/// Whatever slot the scan selects is in range and `Ready`.
pub proof fn lemma_selected_is_ready(s: Seq<TaskStatus>, cur: int, cnt: nat)
    requires
        0 <= cur < s.len(),
    ensures
        (match first_ready_after(s, cur, cnt) {
            Some(id) => 0 <= id < s.len() && s[id] == TaskStatus::Ready,
            None => true,
        }),
    decreases cnt,
{
    if cnt > 0 {
        let id = next_slot(cur, s.len() as int);
        if s[id] != TaskStatus::Ready {
            lemma_selected_is_ready(s, id, (cnt - 1) as nat);
        }
    }
}

/// Over a full cycle the scan misses nothing: it returns `None` exactly
/// when no slot at all is `Ready`.
pub proof fn lemma_none_iff_no_ready(s: Seq<TaskStatus>, cur: int)
    requires
        0 <= cur < s.len(),
    ensures
        spec_find_next(s, cur) is None <==> (forall|i: int|
            0 <= i < s.len() ==> s[i] != TaskStatus::Ready),
{
    let n = s.len() as int;
    lemma_scan_none(s, cur, s.len());
    if spec_find_next(s, cur) is None {
        assert forall|i: int| 0 <= i < n implies s[i] != TaskStatus::Ready by {
            let k: int = if i > cur {
                i - cur
            } else {
                n + i - cur
            };
            lemma_slot_after_closed(cur, k as nat, n);
            assert(slot_after(cur, k as nat, n) == i);
        }
    } else {
        // the selected slot is a Ready witness, so the right-hand side fails too
        lemma_selected_is_ready(s, cur, s.len());
    }
}

/// Round-robin fairness, one step at a time: when the running task at
/// `cur` yields while every other task is `Ready`, the scan selects
/// exactly the cyclic successor of `cur`, and the resulting status table
/// again has one running task (the successor) with every other task
/// `Ready`.  Iterating this step therefore visits the slots in cyclic
/// order `cur + 1, cur + 2, ..., 0, 1, ...`, each slot once before any
/// slot repeats.
pub proof fn lemma_round_robin_cycle(s: Seq<TaskStatus>, cur: int)
    requires
        0 <= cur < s.len(),
        s[cur] == TaskStatus::Running,
        forall|i: int| 0 <= i < s.len() && i != cur ==> s[i] == TaskStatus::Ready,
    ensures
        ({
            let s1 = s.update(cur, TaskStatus::Ready);
            let nxt = next_slot(cur, s.len() as int);
            let s2 = s1.update(nxt, TaskStatus::Running);
            &&& spec_find_next(s1, cur) == Some(nxt)
            &&& s2[nxt] == TaskStatus::Running
            &&& forall|i: int| 0 <= i < s.len() && i != nxt ==> s2[i] == TaskStatus::Ready
        }),
{
}

/// A slot whose task has `Exited` is never the one the round-robin scan
/// selects.
pub proof fn lemma_exited_never_selected(s: Seq<TaskStatus>, cur: int, i: int)
    requires
        0 <= cur < s.len(),
        0 <= i < s.len(),
        s[i] == TaskStatus::Exited,
    ensures
        spec_find_next(s, cur) != Some(i),
{
    lemma_selected_is_ready(s, cur, s.len());
}

/// At most one task is ever `Running`.  A scheduling step first overwrites
/// the running slot's status with `mark` (`Ready` on a yield, `Exited` on
/// an exit) and then sets the selected slot `Running`: starting from a
/// table whose only `Running` slot is `cur`, the new table again has the
/// selected slot as its only `Running` one -- or none at all when nothing
/// was selected and the system halts.
pub proof fn lemma_one_running_preserved(s: Seq<TaskStatus>, cur: int, mark: TaskStatus)
    requires
        0 <= cur < s.len(),
        s[cur] == TaskStatus::Running,
        forall|j: int| 0 <= j < s.len() && j != cur ==> s[j] != TaskStatus::Running,
        mark == TaskStatus::Ready || mark == TaskStatus::Exited,
    ensures
        ({
            let s1 = s.update(cur, mark);
            match spec_find_next(s1, cur) {
                Some(next) => {
                    let s2 = s1.update(next, TaskStatus::Running);
                    &&& s2[next] == TaskStatus::Running
                    &&& forall|j: int|
                        0 <= j < s.len() && j != next ==> s2[j] != TaskStatus::Running
                },
                None => forall|j: int| 0 <= j < s.len() ==> s1[j] != TaskStatus::Running,
            }
        }),
{
    let s1 = s.update(cur, mark);
    lemma_selected_is_ready(s1, cur, s1.len());
}

/// `Exited` is terminal across a scheduling step.  A step first overwrites
/// the current slot's status with `mark` (`Ready` on a yield, `Exited` on
/// an exit) and then sets the selected slot `Running`; an `Exited` slot
/// elsewhere is still `Exited` afterwards and is not the one selected, so
/// iterating steps never shows an exited task as `Running` again.
pub proof fn lemma_exited_stays_exited(s: Seq<TaskStatus>, cur: int, i: int, mark: TaskStatus)
    requires
        0 <= cur < s.len(),
        0 <= i < s.len(),
        s[i] == TaskStatus::Exited,
        i != cur,
        mark == TaskStatus::Ready || mark == TaskStatus::Exited,
    ensures
        ({
            let s1 = s.update(cur, mark);
            &&& s1[i] == TaskStatus::Exited
            &&& (match spec_find_next(s1, cur) {
                Some(next) => next != i && s1.update(next, TaskStatus::Running)[i]
                    == TaskStatus::Exited,
                None => true,
            })
        }),
{
    let s1 = s.update(cur, mark);
    lemma_exited_never_selected(s1, cur, i);
    lemma_selected_is_ready(s1, cur, s1.len());
}

/// Once every task has `Exited`, a scheduling attempt selects nothing, so
/// the next decision is the terminal halt rather than a silent no-op.
pub proof fn lemma_all_exited_halts(s: Seq<TaskStatus>, cur: int)
    requires
        0 <= cur < s.len(),
        forall|i: int| 0 <= i < s.len() ==> s[i] == TaskStatus::Exited,
    ensures
        spec_find_next(s, cur) is None,
{
    lemma_none_iff_no_ready(s, cur);
}

/// One bump of one counter in a tracked-counter table.
pub open spec fn spec_bump(counts: Seq<u32>, slot: int) -> Seq<u32> {
    counts.update(slot, (counts[slot] + 1) as u32)
}

/// The tracked-counter table after `m` bumps of the counter at `slot`.
pub open spec fn spec_bump_n(counts: Seq<u32>, slot: int, m: nat) -> Seq<u32>
    decreases m,
{
    if m == 0 {
        counts
    } else {
        spec_bump(spec_bump_n(counts, slot, (m - 1) as nat), slot)
    }
}

/// Recording one syscall kind `m` times raises exactly that kind's counter
/// by `m` and leaves every other counter untouched.
pub proof fn lemma_bump_n_accumulates(counts: Seq<u32>, slot: int, m: nat)
    requires
        0 <= slot < counts.len(),
        counts[slot] + m <= u32::MAX,
    ensures
        spec_bump_n(counts, slot, m).len() == counts.len(),
        spec_bump_n(counts, slot, m)[slot] == counts[slot] + m,
        forall|j: int|
            0 <= j < counts.len() && j != slot ==> spec_bump_n(counts, slot, m)[j] == counts[j],
    decreases m,
{
    if m > 0 {
        lemma_bump_n_accumulates(counts, slot, (m - 1) as nat);
    }
}

/// Elapsed milliseconds reported for a task: current time minus the task's
/// first-run timestamp, and 0 for a task that has never been scheduled.
pub open spec fn spec_elapsed(start_time: usize, now_ms: usize) -> usize {
    if start_time == 0 {
        0
    } else {
        (now_ms - start_time) as usize
    }
}

/// The statuses of a task table, in slot order.
pub open spec fn statuses_of(t: Seq<TaskControlBlock>) -> Seq<TaskStatus> {
    t.map_values(|tcb: TaskControlBlock| tcb.task_status)
}

/// Updating one control block updates one status.
proof fn lemma_statuses_update(t: Seq<TaskControlBlock>, i: int, tcb: TaskControlBlock)
    requires
        0 <= i < t.len(),
    ensures
        statuses_of(t.update(i, tcb)) == statuses_of(t).update(i, tcb.task_status),
{
    assert(statuses_of(t.update(i, tcb)) =~= statuses_of(t).update(i, tcb.task_status));
}

/// The registry of all tasks.  It owns every task control block, the
/// scheduling policy, and the index of the currently running task.  A
/// caller holds it behind whatever exclusive-access discipline the
/// surrounding kernel uses; `&mut` access here is that exclusivity.
pub struct TaskManager {
    /// Total number of tasks; fixed at construction.
    pub num_app: usize,
    /// One control block per task, `num_app` of them.
    pub tasks: Vec<TaskControlBlock>,
    /// Index of the slot currently considered running.
    pub current_task: usize,
}

impl TaskManager {
    /// Structural well-formedness: one control block per task and a
    /// current-task index in range.
    pub open spec fn wf(self) -> bool {
        &&& self.tasks@.len() == self.num_app
        &&& 1 <= self.num_app
        &&& self.current_task < self.num_app
    }

    /// The lifecycle statuses of all tasks, in slot order.
    pub open spec fn statuses(self) -> Seq<TaskStatus> {
        statuses_of(self.tasks@)
    }

    /// Build the manager: one slot per entry of `init_stack_ptrs`, each
    /// seeded `Ready` with the initial context that enters the trap-return
    /// trampoline at `restore_entry` on that slot's kernel stack, with all
    /// accounting zeroed, and slot 0 current.
    pub fn new(restore_entry: usize, init_stack_ptrs: Vec<usize>) -> (tm: TaskManager)
        requires
            1 <= init_stack_ptrs@.len(),
        ensures
            tm.wf(),
            tm.num_app == init_stack_ptrs@.len(),
            tm.current_task == 0,
            forall|i: int|
                0 <= i < init_stack_ptrs@.len() ==> tm.tasks@[i].task_status == TaskStatus::Ready,
            forall|i: int|
                0 <= i < init_stack_ptrs@.len() ==> tm.tasks@[i].task_cx.is_initial(
                    restore_entry,
                    init_stack_ptrs@[i],
                ),
            forall|i: int| 0 <= i < init_stack_ptrs@.len() ==> tm.tasks@[i].start_time == 0,
            forall|i: int, k: int|
                0 <= i < init_stack_ptrs@.len() && 0 <= k < TRACKED_SYSCALL_NUM
                    ==> tm.tasks@[i].syscall_times[k] == 0,
    {
        let num_app = init_stack_ptrs.len();
        let mut tasks: Vec<TaskControlBlock> = Vec::new();
        let mut i: usize = 0;
        while i < num_app
            invariant
                i <= num_app,
                num_app == init_stack_ptrs@.len(),
                tasks@.len() == i,
                forall|j: int|
                    0 <= j < i ==> {
                        &&& tasks@[j].task_status == TaskStatus::Ready
                        &&& tasks@[j].task_cx.is_initial(restore_entry, init_stack_ptrs@[j])
                        &&& tasks@[j].start_time == 0
                        &&& forall|k: int|
                            0 <= k < TRACKED_SYSCALL_NUM ==> tasks@[j].syscall_times[k] == 0
                    },
            decreases num_app - i,
        {
            tasks.push(
                TaskControlBlock {
                    task_status: TaskStatus::Ready,
                    task_cx: TaskContext::goto_restore(restore_entry, init_stack_ptrs[i]),
                    syscall_times: [0; TRACKED_SYSCALL_NUM],
                    start_time: 0,
                },
            );
            i = i + 1;
        }
        TaskManager { num_app, tasks, current_task: 0 }
    }

    /// Change the status of the current `Running` task into `Ready`
    /// (voluntary yield).  A pure status write: no context switch here.
    pub fn mark_current_suspended(&mut self)
        requires
            old(self).wf(),
            old(self).tasks@[old(self).current_task as int].task_status == TaskStatus::Running,
        ensures
            final(self).wf(),
            final(self).num_app == old(self).num_app,
            final(self).current_task == old(self).current_task,
            final(self).tasks@ == old(self).tasks@.update(
                old(self).current_task as int,
                (TaskControlBlock {
                    task_status: TaskStatus::Ready,
                    ..old(self).tasks@[old(self).current_task as int]
                }),
            ),
    {
        let current = self.current_task;
        self.tasks[current].task_status = TaskStatus::Ready;
    }

    /// Change the status of the current `Running` task into `Exited`
    /// (voluntary exit).  `Exited` is terminal: no entry point of this
    /// manager ever writes another status over it.
    pub fn mark_current_exited(&mut self)
        requires
            old(self).wf(),
            old(self).tasks@[old(self).current_task as int].task_status == TaskStatus::Running,
        ensures
            final(self).wf(),
            final(self).num_app == old(self).num_app,
            final(self).current_task == old(self).current_task,
            final(self).tasks@ == old(self).tasks@.update(
                old(self).current_task as int,
                (TaskControlBlock {
                    task_status: TaskStatus::Exited,
                    ..old(self).tasks@[old(self).current_task as int]
                }),
            ),
    {
        let current = self.current_task;
        self.tasks[current].task_status = TaskStatus::Exited;
    }

    /// Find the next task to run: the first `Ready` slot after the current
    /// one in the fixed cyclic order, or `None` if no slot is `Ready` after
    /// a full cycle.
    pub fn find_next_task(&self) -> (r: Option<usize>)
        requires
            self.wf(),
        ensures
            (match r {
                Some(id) => {
                    &&& id < self.num_app
                    &&& spec_find_next(self.statuses(), self.current_task as int) == Some(id as int)
                },
                None => spec_find_next(self.statuses(), self.current_task as int) is None,
            }),
    {
        let n = self.num_app;
        let mut id: usize = self.current_task;
        let mut k: usize = 0;
        while k < n
            invariant
                self.wf(),
                n == self.num_app,
                k <= n,
                id < n,
                first_ready_after(self.statuses(), self.current_task as int, n as nat)
                    == first_ready_after(self.statuses(), id as int, (n - k) as nat),
            decreases n - k,
        {
            let next = if id + 1 < n {
                id + 1
            } else {
                0
            };
            assert(next as int == next_slot(id as int, n as int));
            if self.tasks[next].task_status == TaskStatus::Ready {
                assert(self.statuses()[next as int] == TaskStatus::Ready);
                return Some(next);
            }
            assert(self.statuses()[next as int] != TaskStatus::Ready);
            id = next;
            k = k + 1;
        }
        None
    }

    /// Start execution: mark slot 0 `Running`, record its first-run
    /// timestamp, and hand back its context for the caller to restore
    /// (from a disposable zeroed save slot).  To be called exactly once,
    /// before any other entry point, with every task `Ready` and slot 0
    /// current.  The caller's switch never returns here; control comes back
    /// only through later scheduling decisions.
    pub fn run_first_task(&mut self, now_ms: usize) -> (cx: TaskContext)
        requires
            old(self).wf(),
            old(self).current_task == 0,
            forall|i: int|
                0 <= i < old(self).num_app ==> old(self).statuses()[i] == TaskStatus::Ready,
        ensures
            final(self).wf(),
            final(self).num_app == old(self).num_app,
            final(self).current_task == 0,
            final(self).tasks@ == old(self).tasks@.update(
                0,
                (TaskControlBlock {
                    task_status: TaskStatus::Running,
                    start_time: now_ms,
                    ..old(self).tasks@[0]
                }),
            ),
            cx == final(self).tasks@[0].task_cx,
    {
        self.tasks[0].task_status = TaskStatus::Running;
        self.tasks[0].start_time = now_ms;
        self.tasks[0].task_cx
    }

    /// Dispatch to the task the round-robin scan selects: mark it
    /// `Running`, record its first-run timestamp if unset, make it current,
    /// and tell the caller which contexts to save and restore.  If no task
    /// is `Ready`, nothing changes and the decision is the terminal
    /// `AllCompleted` halt.
    pub fn run_next_task(&mut self, now_ms: usize) -> (d: ScheduleDecision)
        requires
            old(self).wf(),
        ensures
            final(self).wf(),
            final(self).num_app == old(self).num_app,
            (match spec_find_next(old(self).statuses(), old(self).current_task as int) {
                Some(next) => {
                    &&& d == (ScheduleDecision::SwitchTo {
                        prev: old(self).current_task,
                        next: next as usize,
                    })
                    &&& final(self).current_task == next as usize
                    &&& final(self).tasks@ == old(self).tasks@.update(
                        next,
                        (TaskControlBlock {
                            task_status: TaskStatus::Running,
                            start_time: if old(self).tasks@[next].start_time == 0 {
                                now_ms
                            } else {
                                old(self).tasks@[next].start_time
                            },
                            ..old(self).tasks@[next]
                        }),
                    )
                },
                None => {
                    &&& d == ScheduleDecision::AllCompleted
                    &&& *final(self) == *old(self)
                },
            }),
    {
        match self.find_next_task() {
            Some(next) => {
                let current = self.current_task;
                self.tasks[next].task_status = TaskStatus::Running;
                if self.tasks[next].start_time == 0 {
                    self.tasks[next].start_time = now_ms;
                }
                self.current_task = next;
                ScheduleDecision::SwitchTo { prev: current, next }
            },
            None => ScheduleDecision::AllCompleted,
        }
    }

    /// Voluntary yield: the current `Running` task becomes `Ready`, the
    /// round-robin scan picks the next task, and the caller is told which
    /// contexts to swap.  Because the yielding task itself is `Ready`
    /// again, the scan always succeeds: a yield never halts the system,
    /// at worst the task is rescheduled onto itself.
    pub fn suspend_current_and_run_next(&mut self, now_ms: usize) -> (d: ScheduleDecision)
        requires
            old(self).wf(),
            old(self).tasks@[old(self).current_task as int].task_status == TaskStatus::Running,
        ensures
            final(self).wf(),
            final(self).num_app == old(self).num_app,
            ({
                let cur = old(self).current_task as int;
                let t1 = old(self).tasks@.update(
                    cur,
                    (TaskControlBlock { task_status: TaskStatus::Ready, ..old(self).tasks@[cur] }),
                );
                match spec_find_next(statuses_of(t1), cur) {
                    Some(next) => {
                        &&& d == (ScheduleDecision::SwitchTo {
                            prev: old(self).current_task,
                            next: next as usize,
                        })
                        &&& final(self).current_task == next as usize
                        &&& final(self).tasks@ == t1.update(
                            next,
                            (TaskControlBlock {
                                task_status: TaskStatus::Running,
                                start_time: if t1[next].start_time == 0 {
                                    now_ms
                                } else {
                                    t1[next].start_time
                                },
                                ..t1[next]
                            }),
                        )
                    },
                    None => false,
                }
            }),
    {
        let ghost t0 = self.tasks@;
        let ghost cur = self.current_task as int;
        self.mark_current_suspended();
        proof {
            lemma_statuses_update(
                t0,
                cur,
                TaskControlBlock { task_status: TaskStatus::Ready, ..t0[cur] },
            );
            lemma_none_iff_no_ready(self.statuses(), cur);
            assert(self.statuses()[cur] == TaskStatus::Ready);
        }
        self.run_next_task(now_ms)
    }

    /// Voluntary exit: the current `Running` task becomes `Exited` for
    /// good, and the round-robin scan picks the next task.  If no `Ready`
    /// task remains anywhere, the decision is the terminal `AllCompleted`
    /// halt -- exactly then.
    pub fn exit_current_and_run_next(&mut self, now_ms: usize) -> (d: ScheduleDecision)
        requires
            old(self).wf(),
            old(self).tasks@[old(self).current_task as int].task_status == TaskStatus::Running,
        ensures
            final(self).wf(),
            final(self).num_app == old(self).num_app,
            ({
                let cur = old(self).current_task as int;
                let t1 = old(self).tasks@.update(
                    cur,
                    (TaskControlBlock { task_status: TaskStatus::Exited, ..old(self).tasks@[cur] }),
                );
                &&& (match spec_find_next(statuses_of(t1), cur) {
                    Some(next) => {
                        &&& d == (ScheduleDecision::SwitchTo {
                            prev: old(self).current_task,
                            next: next as usize,
                        })
                        &&& final(self).current_task == next as usize
                        &&& final(self).tasks@ == t1.update(
                            next,
                            (TaskControlBlock {
                                task_status: TaskStatus::Running,
                                start_time: if t1[next].start_time == 0 {
                                    now_ms
                                } else {
                                    t1[next].start_time
                                },
                                ..t1[next]
                            }),
                        )
                    },
                    None => {
                        &&& d == ScheduleDecision::AllCompleted
                        &&& final(self).current_task == old(self).current_task
                        &&& final(self).tasks@ == t1
                    },
                })
                &&& (d == ScheduleDecision::AllCompleted <==> (forall|i: int|
                    0 <= i < statuses_of(t1).len() ==> statuses_of(t1)[i] != TaskStatus::Ready))
            }),
    {
        let ghost t0 = self.tasks@;
        let ghost cur = self.current_task as int;
        self.mark_current_exited();
        proof {
            lemma_statuses_update(
                t0,
                cur,
                TaskControlBlock { task_status: TaskStatus::Exited, ..t0[cur] },
            );
            lemma_none_iff_no_ready(self.statuses(), cur);
        }
        self.run_next_task(now_ms)
    }

    /// Count one invocation of the tracked syscall kind `syscall_id`
    /// against the current task.  Nothing else changes: not the task's
    /// status, context or timestamp, not its other counters, and no other
    /// task's slot.
    pub fn update_syscall_num(&mut self, syscall_id: usize)
        requires
            old(self).wf(),
            is_tracked_syscall(syscall_id),
            old(self).tasks@[old(self).current_task as int].syscall_times[spec_syscall_slot(
                syscall_id,
            )] < u32::MAX,
        ensures
            final(self).wf(),
            final(self).num_app == old(self).num_app,
            final(self).current_task == old(self).current_task,
            forall|j: int|
                0 <= j < old(self).tasks@.len() && j != old(self).current_task as int
                    ==> final(self).tasks@[j] == old(self).tasks@[j],
            ({
                let cur = old(self).current_task as int;
                &&& final(self).tasks@[cur].task_status == old(self).tasks@[cur].task_status
                &&& final(self).tasks@[cur].task_cx == old(self).tasks@[cur].task_cx
                &&& final(self).tasks@[cur].start_time == old(self).tasks@[cur].start_time
                &&& final(self).tasks@[cur].syscall_times@ == spec_bump(
                    old(self).tasks@[cur].syscall_times@,
                    spec_syscall_slot(syscall_id),
                )
            }),
    {
        let current = self.current_task;
        let slot = map_syscall_to_small_range(syscall_id);
        let count = self.tasks[current].syscall_times[slot];
        self.tasks[current].syscall_times[slot] = count + 1;
    }

    /// Count one invocation of the tracked syscall kind `syscall_id`
    /// against the current task.
    pub fn update_current_syscall_times(&mut self, syscall_id: usize)
        requires
            old(self).wf(),
            is_tracked_syscall(syscall_id),
            old(self).tasks@[old(self).current_task as int].syscall_times[spec_syscall_slot(
                syscall_id,
            )] < u32::MAX,
        ensures
            final(self).wf(),
            final(self).num_app == old(self).num_app,
            final(self).current_task == old(self).current_task,
            forall|j: int|
                0 <= j < old(self).tasks@.len() && j != old(self).current_task as int
                    ==> final(self).tasks@[j] == old(self).tasks@[j],
            ({
                let cur = old(self).current_task as int;
                &&& final(self).tasks@[cur].task_status == old(self).tasks@[cur].task_status
                &&& final(self).tasks@[cur].task_cx == old(self).tasks@[cur].task_cx
                &&& final(self).tasks@[cur].start_time == old(self).tasks@[cur].start_time
                &&& final(self).tasks@[cur].syscall_times@ == spec_bump(
                    old(self).tasks@[cur].syscall_times@,
                    spec_syscall_slot(syscall_id),
                )
            }),
    {
        self.update_syscall_num(syscall_id);
    }

    /// Fill the diagnostic record for the current task: its status, its
    /// counters projected back into the full syscall-kind space (untracked
    /// kinds report 0), and the milliseconds elapsed since its first
    /// scheduling.  Always succeeds with return code 0.
    pub fn get_current_task_info(&self, ti: &mut TaskInfo, now_ms: usize) -> (r: isize)
        requires
            self.wf(),
            now_ms >= self.tasks@[self.current_task as int].start_time,
        ensures
            r == 0,
            final(ti).status == self.tasks@[self.current_task as int].task_status,
            final(ti).syscall_times@ == full_syscall_counts(
                self.tasks@[self.current_task as int].syscall_times@,
            ),
            final(ti).time == spec_elapsed(
                self.tasks@[self.current_task as int].start_time,
                now_ms,
            ),
    {
        let current = self.current_task;
        let cur_task = self.tasks[current];
        let mut full: [u32; MAX_SYSCALL_NUM] = [0; MAX_SYSCALL_NUM];
        let mut i: usize = 0;
        while i < TRACKED_SYSCALL_NUM
            invariant
                i <= TRACKED_SYSCALL_NUM,
                forall|j: int|
                    0 <= j < MAX_SYSCALL_NUM ==> full[j] == (if is_tracked_syscall(j as usize)
                        && spec_syscall_slot(j as usize) < i {
                        cur_task.syscall_times@[spec_syscall_slot(j as usize)]
                    } else {
                        0u32
                    }),
            decreases TRACKED_SYSCALL_NUM - i,
        {
            let id = map_small_range_to_syscall(i);
            full[id] = cur_task.syscall_times[i];
            i = i + 1;
        }
        assert(full@ =~= full_syscall_counts(cur_task.syscall_times@));
        ti.status = cur_task.task_status;
        ti.syscall_times = full;
        ti.time = if cur_task.start_time == 0 {
            0
        } else {
            now_ms - cur_task.start_time
        };
        0
    }
}

} // verus!
