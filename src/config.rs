//! Kernel-wide limits.
use vstd::prelude::*;

verus! {

/// The number of system call numbers that a task's counters cover.
pub const MAX_SYSCALL_NUM: usize = 500;

} // verus!
