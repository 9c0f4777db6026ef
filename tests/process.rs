use process_syscalls::{
    MAX_SYSCALL_NUM, TaskControlBlock, TaskInfo, TaskStatus, TimeVal, sys_exit, sys_get_time,
    sys_task_info, sys_yield,
};

fn reconstruct(t: &TimeVal) -> usize {
    t.sec * 1_000_000 + t.usec
}

#[test]
fn from_us_splits_seconds_and_micros() {
    let t = TimeVal::from_us(3_250_017);
    assert_eq!(t, TimeVal { sec: 3, usec: 250_017 });
}

#[test]
fn from_us_round_trip_on_samples() {
    for us in [0usize, 1, 999_999, 1_000_000, 1_000_001, 123_456_789, usize::MAX] {
        let t = TimeVal::from_us(us);
        assert!(t.usec < 1_000_000);
        assert_eq!(reconstruct(&t), us);
    }
}

#[test]
fn get_time_round_trip_at_zero() {
    let mut ts = TimeVal { sec: 9, usec: 9 };
    assert_eq!(sys_get_time(&mut ts, 0, 0), 0);
    assert_eq!(ts, TimeVal { sec: 0, usec: 0 });
    assert_eq!(reconstruct(&ts), 0);
}

#[test]
fn get_time_round_trip_below_one_second() {
    let mut ts = TimeVal { sec: 9, usec: 9 };
    assert_eq!(sys_get_time(&mut ts, 0, 999_999), 0);
    assert_eq!(ts, TimeVal { sec: 0, usec: 999_999 });
    assert_eq!(reconstruct(&ts), 999_999);
}

#[test]
fn get_time_ignores_time_zone() {
    let mut a = TimeVal { sec: 0, usec: 0 };
    let mut b = TimeVal { sec: 0, usec: 0 };
    assert_eq!(sys_get_time(&mut a, 0, 5_000_001), 0);
    assert_eq!(sys_get_time(&mut b, 77, 5_000_001), 0);
    assert_eq!(a, b);
    assert_eq!(a, TimeVal { sec: 5, usec: 1 });
}

#[test]
fn task_info_without_record_fails() {
    let task = TaskControlBlock::new(10);
    assert_eq!(sys_task_info(None, &task, 20), -1);
}

#[test]
fn task_info_fills_record() {
    let mut task = TaskControlBlock::new(1_000);
    task.record_syscall(64);
    task.record_syscall(64);
    task.record_syscall(169);
    let mut info = TaskInfo::new();
    assert_eq!(sys_task_info(Some(&mut info), &task, 1_250), 0);
    assert_eq!(info.status(), TaskStatus::Running);
    assert_eq!(info.time(), 250);
    let times = info.syscall_times();
    assert_eq!(times[64], 2);
    assert_eq!(times[169], 1);
    assert_eq!(times.iter().map(|&c| c as u64).sum::<u64>(), 3);
}

#[test]
fn task_info_time_zero_at_start() {
    let task = TaskControlBlock::new(500);
    let mut info = TaskInfo::new();
    info.set_time(42);
    assert_eq!(sys_task_info(Some(&mut info), &task, 500), 0);
    assert_eq!(info.time(), 0);
}

#[test]
fn counters_follow_calls() {
    let mut task = TaskControlBlock::new(0);
    for _ in 0..7 {
        task.record_syscall(93);
    }
    for _ in 0..3 {
        task.record_syscall(124);
    }
    task.record_syscall(MAX_SYSCALL_NUM - 1);
    let times = task.syscall_times();
    assert_eq!(times.len(), MAX_SYSCALL_NUM);
    assert_eq!(times[93], 7);
    assert_eq!(times[124], 3);
    assert_eq!(times[MAX_SYSCALL_NUM - 1], 1);
    assert_eq!(times[0], 0);
}

#[test]
fn yield_reports_success_and_resumes() {
    let mut task = TaskControlBlock::new(3);
    task.record_syscall(124);
    assert_eq!(sys_yield(&mut task), 0);
    assert_eq!(task.status(), TaskStatus::Ready);
    task.resume();
    assert_eq!(task.status(), TaskStatus::Running);
    assert_eq!(task.start_time(), 3);
    assert_eq!(task.syscall_times()[124], 1);
    assert_eq!(task.exit_code(), None);
}

#[test]
fn exit_records_status_and_code() {
    let mut task = TaskControlBlock::new(3);
    sys_exit(&mut task, -7);
    assert_eq!(task.status(), TaskStatus::Exited);
    assert_eq!(task.exit_code(), Some(-7));
    assert_eq!(task.start_time(), 3);
}

#[test]
fn builder_sets_each_field() {
    let mut info = TaskInfo::new();
    assert_eq!(info.status(), TaskStatus::UnInit);
    assert_eq!(info.time(), 0);
    let mut times = [0u32; MAX_SYSCALL_NUM];
    times[1] = 4;
    info.set_status(TaskStatus::Ready).set_time(17).set_syscall_times(times);
    assert_eq!(info.status(), TaskStatus::Ready);
    assert_eq!(info.time(), 17);
    assert_eq!(info.syscall_times()[1], 4);
}

#[test]
fn task_info_without_record_ignores_clock() {
    let task = TaskControlBlock::new(1_000);
    assert_eq!(sys_task_info(None, &task, 0), -1);
    assert_eq!(task.status(), TaskStatus::Running);
}

#[test]
fn task_info_counts_never_decrease() {
    let mut task = TaskControlBlock::new(0);
    task.record_syscall(64);
    let mut first = TaskInfo::new();
    assert_eq!(sys_task_info(Some(&mut first), &task, 10), 0);
    task.record_syscall(64);
    task.record_syscall(93);
    let mut second = TaskInfo::new();
    assert_eq!(sys_task_info(Some(&mut second), &task, 20), 0);
    let (a, b) = (first.syscall_times(), second.syscall_times());
    for i in 0..MAX_SYSCALL_NUM {
        assert!(b[i] >= a[i]);
    }
    assert_eq!(a[64], 1);
    assert_eq!(b[64], 2);
    assert_eq!(b[93], 1);
}

#[test]
fn task_info_counts_are_per_task() {
    let mut mine = TaskControlBlock::new(0);
    let mut other = TaskControlBlock::new(0);
    mine.record_syscall(64);
    for _ in 0..5 {
        other.record_syscall(64);
    }
    let mut info = TaskInfo::new();
    assert_eq!(sys_task_info(Some(&mut info), &mine, 1), 0);
    assert_eq!(info.syscall_times()[64], 1);
}
