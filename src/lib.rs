//! Process-control system calls of a small teaching kernel: exiting,
//! yielding, reading the clock and reporting a task's accounting record.
pub mod config;
pub mod process;
pub mod task;
pub mod time;

pub use config::MAX_SYSCALL_NUM;
pub use process::{TaskInfo, sys_exit, sys_get_time, sys_task_info, sys_yield};
pub use task::{TaskControlBlock, TaskStatus};
pub use time::TimeVal;
