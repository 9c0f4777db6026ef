//! Process management system calls.
use vstd::prelude::*;
use crate::config::MAX_SYSCALL_NUM;
use crate::task::{
    TaskControlBlock, TaskControlBlockView, TaskStatus, lemma_counts_match_calls,
    lemma_counts_never_decrease, occurrences,
};
use crate::time::{TimeVal, time_val_of};

verus! {

/// What a task learns of itself: its state, how often it made each system
/// call, and how long it has been running.
pub struct TaskInfo {
    /// Task status in its life cycle
    status: TaskStatus,
    /// The numbers of syscall called by task
    syscall_times: [u32; MAX_SYSCALL_NUM],
    /// Total running time of task, in milliseconds
    time: usize,
}

/// What a `TaskInfo` holds, as mathematical values.
pub ghost struct TaskInfoView {
    pub status: TaskStatus,
    pub syscall_times: Seq<u32>,
    pub time: usize,
}

impl View for TaskInfo {
    type V = TaskInfoView;

    closed spec fn view(&self) -> TaskInfoView {
        TaskInfoView { status: self.status, syscall_times: self.syscall_times@, time: self.time }
    }
}

/// The record that a task with control block `task` reads at `now`
/// milliseconds.
pub open spec fn snapshot(task: TaskControlBlockView, now: usize) -> TaskInfoView {
    TaskInfoView {
        status: task.status,
        syscall_times: task.syscall_times,
        time: (now - task.start_time) as usize,
    }
}

/// A task that starts with no calls counted and makes the system calls of
/// `calls` reads, in the record that `sys_task_info` fills, as many calls of
/// `id` as `calls` holds.
pub proof fn lemma_task_info_counts(
    t: TaskControlBlockView,
    calls: Seq<usize>,
    id: usize,
    now: usize,
)
    requires
        t.syscall_times.len() == MAX_SYSCALL_NUM,
        forall|i: int| 0 <= i < t.syscall_times.len() ==> t.syscall_times[i] == 0,
        forall|k: int| 0 <= k < calls.len() ==> calls[k] < MAX_SYSCALL_NUM,
        calls.len() <= u32::MAX,
        id < MAX_SYSCALL_NUM,
    ensures
        snapshot(t.record_all(calls), now).syscall_times[id as int] == occurrences(calls, id),
{
    lemma_counts_match_calls(t, calls, id);
}

/// Two records that one task reads, with further system calls between them,
/// show no counter lower in the later record than in the earlier one.
pub proof fn lemma_task_info_counts_never_decrease(
    t: TaskControlBlockView,
    calls: Seq<usize>,
    earlier: usize,
    later: usize,
)
    requires
        t.syscall_times.len() == MAX_SYSCALL_NUM,
        forall|i: int| 0 <= i < t.syscall_times.len() ==> t.syscall_times[i] + calls.len() <= u32::MAX,
        forall|k: int| 0 <= k < calls.len() ==> calls[k] < MAX_SYSCALL_NUM,
    ensures
        forall|i: int|
            0 <= i < MAX_SYSCALL_NUM ==> #[trigger] snapshot(t.record_all(calls), later).syscall_times[i]
                >= snapshot(t, earlier).syscall_times[i],
{
    lemma_counts_never_decrease(t, calls);
}

/// The counter table of a `TaskInfo` has one counter for each system call
/// number.
pub proof fn lemma_task_info_syscall_times_len(ti: &TaskInfo)
    ensures
        ti@.syscall_times.len() == MAX_SYSCALL_NUM,
{
}

impl TaskInfo {
    /// A record with every field zero, for the kernel to fill in.
    pub fn new() -> (r: TaskInfo)
        ensures
            r@.status == TaskStatus::UnInit,
            r@.syscall_times == Seq::new(MAX_SYSCALL_NUM as nat, |i: int| 0u32),
            r@.time == 0,
    {
        let r = TaskInfo {
            status: TaskStatus::UnInit,
            syscall_times: [0u32; MAX_SYSCALL_NUM],
            time: 0,
        };
        assert(r@.syscall_times =~= Seq::new(MAX_SYSCALL_NUM as nat, |i: int| 0u32));
        r
    }

    /// Sets the task's state, and hands the record back for more settings.
    pub fn set_status(&mut self, status: TaskStatus) -> (r: &mut Self)
        ensures
            (*r)@ == (TaskInfoView { status, ..old(self)@ }),
            *final(self) == *final(r),
    {
        self.status = status;
        self
    }

    /// Sets the per-system-call counters, and hands the record back for more
    /// settings.
    pub fn set_syscall_times(&mut self, syscall_times: [u32; MAX_SYSCALL_NUM]) -> (r: &mut Self)
        ensures
            (*r)@ == (TaskInfoView { syscall_times: syscall_times@, ..old(self)@ }),
            *final(self) == *final(r),
    {
        self.syscall_times = syscall_times;
        self
    }

    /// Sets the running time, and hands the record back for more settings.
    pub fn set_time(&mut self, time: usize) -> (r: &mut Self)
        ensures
            (*r)@ == (TaskInfoView { time, ..old(self)@ }),
            *final(self) == *final(r),
    {
        self.time = time;
        self
    }

    /// The task's state.
    pub fn status(&self) -> (r: TaskStatus)
        ensures
            r == self@.status,
    {
        self.status
    }

    /// How often the task made each system call.
    pub fn syscall_times(&self) -> (r: [u32; MAX_SYSCALL_NUM])
        ensures
            r@ == self@.syscall_times,
    {
        self.syscall_times
    }

    /// How long the task has been running, in milliseconds.
    pub fn time(&self) -> (r: usize)
        ensures
            r == self@.time,
    {
        self.time
    }
}

/// The calling task exits with `exit_code`: its control block records that
/// it has exited and with which code. The scheduler then runs another task
/// and never comes back to this one.
pub fn sys_exit(task: &mut TaskControlBlock, exit_code: i32)
    requires
        old(task)@.status == TaskStatus::Running,
    ensures
        final(task)@ == old(task)@.exited(exit_code),
{
    task.exit(exit_code);
}

/// The calling task gives up the processor: it becomes ready, to be run
/// again later, and the call reports success.
pub fn sys_yield(task: &mut TaskControlBlock) -> (r: isize)
    requires
        old(task)@.status == TaskStatus::Running,
    ensures
        r == 0,
        final(task)@ == old(task)@.suspended(),
{
    task.suspend();
    0
}

/// Writes the clock reading `us`, in microseconds, into `ts` as seconds and
/// microseconds. The time zone argument is accepted and not used. The call
/// always reports success.
pub fn sys_get_time(ts: &mut TimeVal, _tz: usize, us: usize) -> (r: isize)
    ensures
        r == 0,
        *final(ts) == time_val_of(us),
{
    *ts = TimeVal::from_us(us);
    0
}

/// Fills the caller's record, if there is one, with the state, the running
/// time at `now` milliseconds, and the system call counters of `task`, and
/// reports success; with no record to fill it reports failure (-1) and writes
/// nothing.
pub fn sys_task_info(ti: Option<&mut TaskInfo>, task: &TaskControlBlock, now: usize) -> (r: isize)
    requires
        ti is Some ==> task@.start_time <= now,
    ensures
        ti is None <==> r == -1,
        ti is Some <==> r == 0,
        ti is Some ==> (*final(ti->0))@ == snapshot(task@, now),
        ti is Some ==> (*final(ti->0))@.syscall_times.len() == MAX_SYSCALL_NUM,
{
    proof {
        crate::task::lemma_syscall_times_len(task);
    }
    match ti {
        None => -1,
        Some(ti) => {
            let status = task.status();
            let elapsed = now - task.start_time();
            let syscall_times = task.syscall_times();
            ti.set_status(status).set_time(elapsed).set_syscall_times(syscall_times);
            0
        },
    }
}

} // verus!
