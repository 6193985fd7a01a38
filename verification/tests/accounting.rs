//! Syscall accounting and the task-info diagnostic record.

use os3::manager::TaskManager;
use os3::syscall::{
    map_small_range_to_syscall, map_syscall_to_small_range, TaskInfo, MAX_SYSCALL_NUM,
    SYSCALL_EXIT, SYSCALL_GET_TIME, SYSCALL_TASK_INFO, SYSCALL_WRITE, SYSCALL_YIELD,
};
use os3::task::TaskStatus;

const RESTORE: usize = 0x80200000;

fn fresh_info() -> TaskInfo {
    TaskInfo {
        status: TaskStatus::UnInit,
        syscall_times: [0; MAX_SYSCALL_NUM],
        time: 0,
    }
}

#[test]
fn tracked_kinds_map_to_distinct_slots_and_back() {
    let kinds = [
        SYSCALL_WRITE,
        SYSCALL_YIELD,
        SYSCALL_EXIT,
        SYSCALL_GET_TIME,
        SYSCALL_TASK_INFO,
    ];
    assert_eq!(kinds, [64, 124, 93, 169, 410]);
    for (slot, kind) in kinds.iter().enumerate() {
        assert_eq!(map_syscall_to_small_range(*kind), slot);
        assert_eq!(map_small_range_to_syscall(slot), *kind);
    }
}

#[test]
fn record_syscall_increments_exactly_one_counter() {
    let mut tm = TaskManager::new(RESTORE, vec![0x9000, 0x9100]);
    tm.run_first_task(50);
    for _ in 0..7 {
        tm.update_current_syscall_times(SYSCALL_WRITE);
    }
    tm.update_current_syscall_times(SYSCALL_YIELD);
    // task 0: seven writes, one yield, nothing else
    assert_eq!(tm.tasks[0].syscall_times, [7, 1, 0, 0, 0]);
    // task 1 is untouched
    assert_eq!(tm.tasks[1].syscall_times, [0, 0, 0, 0, 0]);

    // recording against the other task leaves task 0 alone
    tm.suspend_current_and_run_next(60);
    tm.update_current_syscall_times(SYSCALL_TASK_INFO);
    assert_eq!(tm.tasks[0].syscall_times, [7, 1, 0, 0, 0]);
    assert_eq!(tm.tasks[1].syscall_times, [0, 0, 0, 0, 1]);
}

#[test]
fn report_right_after_launch_is_all_zero() {
    let mut tm = TaskManager::new(RESTORE, vec![0x9000, 0x9100, 0x9200]);
    tm.run_first_task(77);
    let mut ti = fresh_info();
    let rc = tm.get_current_task_info(&mut ti, 77);
    assert_eq!(rc, 0);
    assert_eq!(ti.status, TaskStatus::Running);
    assert_eq!(ti.time, 0);
    assert!(ti.syscall_times.iter().all(|&c| c == 0));
}

#[test]
fn report_projects_counters_into_full_kind_space() {
    let mut tm = TaskManager::new(RESTORE, vec![0x9000]);
    tm.run_first_task(100);
    tm.update_current_syscall_times(SYSCALL_WRITE);
    tm.update_current_syscall_times(SYSCALL_WRITE);
    tm.update_current_syscall_times(SYSCALL_GET_TIME);
    let mut ti = fresh_info();
    tm.get_current_task_info(&mut ti, 400);
    assert_eq!(ti.status, TaskStatus::Running);
    assert_eq!(ti.time, 300);
    for kind in 0..MAX_SYSCALL_NUM {
        let expected = match kind {
            SYSCALL_WRITE => 2,
            SYSCALL_GET_TIME => 1,
            _ => 0,
        };
        assert_eq!(ti.syscall_times[kind], expected);
    }
}

#[test]
fn report_for_a_never_scheduled_task_shows_zero_elapsed() {
    // A task constructed but never dispatched keeps start_time == 0 and
    // reports 0 elapsed milliseconds rather than the raw clock value.
    let tm = TaskManager::new(RESTORE, vec![0x9000, 0x9100]);
    let mut ti = fresh_info();
    tm.get_current_task_info(&mut ti, 12345);
    assert_eq!(ti.status, TaskStatus::Ready);
    assert_eq!(ti.time, 0);
}
