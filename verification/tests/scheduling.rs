//! Lifecycle and round-robin scheduling behaviour of the task manager.

use os3::manager::{ScheduleDecision, TaskManager};
use os3::task::TaskStatus;

const RESTORE: usize = 0x80200000;

fn three_tasks() -> TaskManager {
    TaskManager::new(RESTORE, vec![0x9000, 0x9100, 0x9200])
}

#[test]
fn construction_seeds_every_slot_ready() {
    let tm = three_tasks();
    assert_eq!(tm.num_app, 3);
    assert_eq!(tm.current_task, 0);
    for i in 0..3 {
        assert_eq!(tm.tasks[i].task_status, TaskStatus::Ready);
        assert_eq!(tm.tasks[i].task_cx.ra, RESTORE);
        assert_eq!(tm.tasks[i].task_cx.sp, 0x9000 + i * 0x100);
        assert_eq!(tm.tasks[i].task_cx.s, [0usize; 12]);
        assert_eq!(tm.tasks[i].start_time, 0);
        assert_eq!(tm.tasks[i].syscall_times, [0u32; 5]);
    }
}

#[test]
fn launch_marks_task_zero_running() {
    let mut tm = three_tasks();
    let cx = tm.run_first_task(100);
    assert_eq!(tm.tasks[0].task_status, TaskStatus::Running);
    assert_eq!(tm.tasks[0].start_time, 100);
    assert_eq!(tm.tasks[1].task_status, TaskStatus::Ready);
    assert_eq!(tm.tasks[2].task_status, TaskStatus::Ready);
    assert_eq!(tm.current_task, 0);
    assert_eq!(cx.ra, RESTORE);
    assert_eq!(cx.sp, 0x9000);
}

#[test]
fn yields_visit_slots_in_cyclic_order() {
    let mut tm = three_tasks();
    tm.run_first_task(10);
    // Two full cycles of voluntary yields: 0 -> 1 -> 2 -> 0 -> 1 -> 2 -> 0,
    // every slot visited once before any slot repeats.
    for step in 0..6 {
        let prev = tm.current_task;
        let expected_next = (prev + 1) % 3;
        let d = tm.suspend_current_and_run_next(20 + step);
        assert_eq!(d, ScheduleDecision::SwitchTo { prev, next: expected_next });
        assert_eq!(tm.current_task, expected_next);
        assert_eq!(tm.tasks[expected_next].task_status, TaskStatus::Running);
        assert_eq!(tm.tasks[prev].task_status, TaskStatus::Ready);
    }
    assert_eq!(tm.current_task, 0);
}

#[test]
fn single_task_yield_reschedules_itself() {
    let mut tm = TaskManager::new(RESTORE, vec![0x9000]);
    tm.run_first_task(5);
    let d = tm.suspend_current_and_run_next(6);
    assert_eq!(d, ScheduleDecision::SwitchTo { prev: 0, next: 0 });
    assert_eq!(tm.tasks[0].task_status, TaskStatus::Running);
}

#[test]
fn exited_task_is_never_selected_again() {
    let mut tm = three_tasks();
    tm.run_first_task(10);
    let d = tm.suspend_current_and_run_next(11);
    assert_eq!(d, ScheduleDecision::SwitchTo { prev: 0, next: 1 });
    let d = tm.exit_current_and_run_next(12);
    assert_eq!(d, ScheduleDecision::SwitchTo { prev: 1, next: 2 });
    assert_eq!(tm.tasks[1].task_status, TaskStatus::Exited);
    // From now on the schedule alternates between 0 and 2 only.
    for step in 0..8 {
        let prev = tm.current_task;
        let d = tm.suspend_current_and_run_next(13 + step);
        let next = if prev == 2 { 0 } else { 2 };
        assert_eq!(d, ScheduleDecision::SwitchTo { prev, next });
        assert_eq!(tm.tasks[1].task_status, TaskStatus::Exited);
        assert_ne!(tm.current_task, 1);
    }
}

#[test]
fn exit_scenario_three_tasks() {
    // 3 tasks, all Ready.  Launch: task 0 Running.  Task 0 yields: task 1
    // Running.  Task 1 exits: the cyclic scan after slot 1 reaches task 2
    // before wrapping to the still-ready task 0.  Task 2 exits: task 0
    // resumes.  Task 0 exits: nothing is ready, terminal halt.
    let mut tm = three_tasks();
    tm.run_first_task(100);
    assert_eq!(tm.tasks[0].task_status, TaskStatus::Running);

    let d = tm.suspend_current_and_run_next(110);
    assert_eq!(d, ScheduleDecision::SwitchTo { prev: 0, next: 1 });
    assert_eq!(tm.tasks[0].task_status, TaskStatus::Ready);
    assert_eq!(tm.tasks[1].task_status, TaskStatus::Running);

    let d = tm.exit_current_and_run_next(120);
    assert_eq!(d, ScheduleDecision::SwitchTo { prev: 1, next: 2 });
    assert_eq!(tm.tasks[1].task_status, TaskStatus::Exited);
    assert_eq!(tm.tasks[2].task_status, TaskStatus::Running);

    let d = tm.exit_current_and_run_next(130);
    assert_eq!(d, ScheduleDecision::SwitchTo { prev: 2, next: 0 });
    assert_eq!(tm.tasks[2].task_status, TaskStatus::Exited);
    assert_eq!(tm.tasks[0].task_status, TaskStatus::Running);

    let d = tm.exit_current_and_run_next(140);
    assert_eq!(d, ScheduleDecision::AllCompleted);
    assert_eq!(tm.tasks[0].task_status, TaskStatus::Exited);
    assert_eq!(tm.tasks[1].task_status, TaskStatus::Exited);
    assert_eq!(tm.tasks[2].task_status, TaskStatus::Exited);
}

#[test]
fn first_run_timestamp_is_recorded_once() {
    let mut tm = three_tasks();
    tm.run_first_task(100);
    tm.suspend_current_and_run_next(250); // task 1 first runs at 250
    assert_eq!(tm.tasks[1].start_time, 250);
    tm.suspend_current_and_run_next(300); // task 2 first runs at 300
    assert_eq!(tm.tasks[2].start_time, 300);
    tm.suspend_current_and_run_next(400); // back to task 0
    assert_eq!(tm.current_task, 0);
    // Re-dispatch does not overwrite the first-run timestamp.
    assert_eq!(tm.tasks[0].start_time, 100);
    tm.suspend_current_and_run_next(500);
    assert_eq!(tm.tasks[1].start_time, 250);
}

#[test]
fn find_next_task_scans_cyclically() {
    let mut tm = three_tasks();
    tm.run_first_task(10);
    assert_eq!(tm.find_next_task(), Some(1));
    tm.suspend_current_and_run_next(20);
    // current is 1; the scan starts after it
    assert_eq!(tm.find_next_task(), Some(2));
    tm.exit_current_and_run_next(30);
    // current is 2, task 1 exited: next ready after 2 is 0
    assert_eq!(tm.find_next_task(), Some(0));
    tm.exit_current_and_run_next(40);
    // current is 0 and running; no other ready task, but 0 itself is not
    // ready either, so a plain scan (without first suspending) finds nothing
    tm.mark_current_exited();
    assert_eq!(tm.find_next_task(), None);
}
