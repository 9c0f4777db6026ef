//! The scheduler's record of one task: its state in the life cycle, when it
//! started, how often it made each system call, and how it exited.
use vstd::prelude::*;
use crate::config::MAX_SYSCALL_NUM;

verus! {

/// Where a task stands in its life cycle.
#[derive(Debug, Clone, Copy, PartialEq, Eq, Structural)]
pub enum TaskStatus {
    UnInit,
    Ready,
    Running,
    Exited,
}

/// The control block of a task, as the scheduler keeps it.
pub struct TaskControlBlock {
    status: TaskStatus,
    start_time: usize,
    syscall_times: [u32; MAX_SYSCALL_NUM],
    exit_code: Option<i32>,
}

/// What a control block holds, as mathematical values.
pub ghost struct TaskControlBlockView {
    pub status: TaskStatus,
    pub start_time: usize,
    pub syscall_times: Seq<u32>,
    pub exit_code: Option<i32>,
}

impl View for TaskControlBlock {
    type V = TaskControlBlockView;

    closed spec fn view(&self) -> TaskControlBlockView {
        TaskControlBlockView {
            status: self.status,
            start_time: self.start_time,
            syscall_times: self.syscall_times@,
            exit_code: self.exit_code,
        }
    }
}

impl TaskControlBlockView {
    /// The record after one more call of system call `id`.
    pub open spec fn record(self, id: usize) -> TaskControlBlockView {
        TaskControlBlockView {
            syscall_times: self.syscall_times.update(id as int, (self.syscall_times[id as int] + 1) as u32),
            ..self
        }
    }

    /// The record after the task is taken off the processor.
    pub open spec fn suspended(self) -> TaskControlBlockView {
        TaskControlBlockView { status: TaskStatus::Ready, ..self }
    }

    /// The record after the task is put back on the processor.
    pub open spec fn resumed(self) -> TaskControlBlockView {
        TaskControlBlockView { status: TaskStatus::Running, ..self }
    }

    /// The record after the task exits with `code`.
    pub open spec fn exited(self, code: i32) -> TaskControlBlockView {
        TaskControlBlockView { status: TaskStatus::Exited, exit_code: Some(code), ..self }
    }

    /// The record after the calls of `calls` were counted, in order.
    pub open spec fn record_all(self, calls: Seq<usize>) -> TaskControlBlockView
        decreases calls.len(),
    {
        if calls.len() == 0 {
            self
        } else {
            self.record_all(calls.drop_last()).record(calls.last())
        }
    }
}

/// How many times `id` occurs in `calls`.
pub open spec fn occurrences(calls: Seq<usize>, id: usize) -> nat
    decreases calls.len(),
{
    if calls.len() == 0 {
        0
    } else {
        occurrences(calls.drop_last(), id) + if calls.last() == id { 1nat } else { 0nat }
    }
}

/// A task that makes the system calls of `calls`, starting from counters
/// with room for that many more calls each, has added to the counter of each
/// call number `id` exactly as many calls as `calls` holds of `id`.
pub proof fn lemma_counts_match_calls(t: TaskControlBlockView, calls: Seq<usize>, id: usize)
    requires
        t.syscall_times.len() == MAX_SYSCALL_NUM,
        forall|i: int| 0 <= i < t.syscall_times.len() ==> t.syscall_times[i] + calls.len() <= u32::MAX,
        forall|k: int| 0 <= k < calls.len() ==> calls[k] < MAX_SYSCALL_NUM,
        id < MAX_SYSCALL_NUM,
    ensures
        t.record_all(calls).syscall_times.len() == MAX_SYSCALL_NUM,
        t.record_all(calls).syscall_times[id as int] == t.syscall_times[id as int] + occurrences(calls, id),
    decreases calls.len(),
{
    if calls.len() > 0 {
        let prev = calls.drop_last();
        let last = calls.last();
        lemma_counts_match_calls(t, prev, id);
        lemma_counts_match_calls(t, prev, last);
        lemma_occurrences_bound(prev, last);
    }
}

/// The counters of a task never go down: after any further system calls each
/// counter holds at least what it held before.
pub proof fn lemma_counts_never_decrease(t: TaskControlBlockView, calls: Seq<usize>)
    requires
        t.syscall_times.len() == MAX_SYSCALL_NUM,
        forall|i: int| 0 <= i < t.syscall_times.len() ==> t.syscall_times[i] + calls.len() <= u32::MAX,
        forall|k: int| 0 <= k < calls.len() ==> calls[k] < MAX_SYSCALL_NUM,
    ensures
        t.record_all(calls).syscall_times.len() == MAX_SYSCALL_NUM,
        forall|i: int|
            0 <= i < MAX_SYSCALL_NUM ==> #[trigger] t.record_all(calls).syscall_times[i]
                >= t.syscall_times[i],
{
    assert forall|i: int| 0 <= i < MAX_SYSCALL_NUM implies #[trigger] t.record_all(
        calls,
    ).syscall_times[i] >= t.syscall_times[i] by {
        lemma_counts_match_calls(t, calls, i as usize);
    }
    lemma_counts_match_calls(t, calls, 0);
}

/// A value occurs in a sequence at most as often as the sequence is long.
proof fn lemma_occurrences_bound(calls: Seq<usize>, id: usize)
    ensures
        occurrences(calls, id) <= calls.len(),
    decreases calls.len(),
{
    if calls.len() > 0 {
        lemma_occurrences_bound(calls.drop_last(), id);
    }
}

/// The counter table of a control block has one counter for each system call
/// number.
pub proof fn lemma_syscall_times_len(t: &TaskControlBlock)
    ensures
        t@.syscall_times.len() == MAX_SYSCALL_NUM,
{
}

/// A task that gives up the processor and is later put back on it goes on
/// exactly as it was: only its state moved, and it moved back.
pub proof fn lemma_suspend_then_resume(t: TaskControlBlockView)
    requires
        t.status == TaskStatus::Running,
    ensures
        t.suspended().status == TaskStatus::Ready,
        t.suspended().resumed() == t,
{
}

impl TaskControlBlock {
    /// The control block of a task that is running, started at `start_time`
    /// milliseconds, and has made no system call yet.
    pub fn new(start_time: usize) -> (r: TaskControlBlock)
        ensures
            r@.status == TaskStatus::Running,
            r@.start_time == start_time,
            r@.syscall_times == Seq::new(MAX_SYSCALL_NUM as nat, |i: int| 0u32),
            r@.exit_code is None,
    {
        let r = TaskControlBlock {
            status: TaskStatus::Running,
            start_time,
            syscall_times: [0u32; MAX_SYSCALL_NUM],
            exit_code: None,
        };
        assert(r@.syscall_times =~= Seq::new(MAX_SYSCALL_NUM as nat, |i: int| 0u32));
        r
    }

    /// The task's current state.
    pub fn status(&self) -> (r: TaskStatus)
        ensures
            r == self@.status,
    {
        self.status
    }

    /// When the task started, in milliseconds of the monotonic clock.
    pub fn start_time(&self) -> (r: usize)
        ensures
            r == self@.start_time,
    {
        self.start_time
    }

    /// A copy of the task's per-system-call counters.
    pub fn syscall_times(&self) -> (r: [u32; MAX_SYSCALL_NUM])
        ensures
            r@ == self@.syscall_times,
    {
        self.syscall_times
    }

    /// The code the task exited with, once it has exited.
    pub fn exit_code(&self) -> (r: Option<i32>)
        ensures
            r == self@.exit_code,
    {
        self.exit_code
    }

    /// Adds one to the counter of system call `id`.
    pub fn record_syscall(&mut self, id: usize)
        requires
            id < MAX_SYSCALL_NUM,
            old(self)@.syscall_times[id as int] < u32::MAX,
        ensures
            final(self)@ == old(self)@.record(id),
    {
        self.syscall_times[id] = self.syscall_times[id] + 1;
        assert(self@.syscall_times =~= old(self)@.record(id).syscall_times);
    }

    /// Takes the running task off the processor: it becomes ready to run
    /// again.
    pub fn suspend(&mut self)
        requires
            old(self)@.status == TaskStatus::Running,
        ensures
            final(self)@ == old(self)@.suspended(),
    {
        self.status = TaskStatus::Ready;
    }

    /// Puts a ready task back on the processor.
    pub fn resume(&mut self)
        requires
            old(self)@.status == TaskStatus::Ready,
        ensures
            final(self)@ == old(self)@.resumed(),
    {
        self.status = TaskStatus::Running;
    }

    /// Ends the task for good, keeping `exit_code` for those that wait on it.
    pub fn exit(&mut self, exit_code: i32)
        requires
            old(self)@.status == TaskStatus::Running,
        ensures
            final(self)@ == old(self)@.exited(exit_code),
    {
        self.status = TaskStatus::Exited;
        self.exit_code = Some(exit_code);
    }
}

} // verus!
