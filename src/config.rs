//! Kernel-wide constants.
use vstd::prelude::*;

verus! {

/// Size of one virtual page, in bytes.
pub const PAGE_SIZE: usize = 4096;

/// Number of distinct system-call identifiers whose invocations are counted.
pub const MAX_SYSCALL_NUM: usize = 500;

/// The stride constant: a task of priority `p` is charged `BIG_STRIDE / p`
/// each time it is enqueued. The charge is positive exactly for priorities
/// from `MIN_PRIORITY` up to `BIG_STRIDE`; a task given a larger priority is
/// charged nothing, so it keeps its stride and wins every turn while its
/// stride is the smallest.
pub const BIG_STRIDE: u64 = 1_000_000;

/// Smallest priority weight a task may be given.
pub const MIN_PRIORITY: isize = 2;

/// Priority weight of a freshly created task.
pub const DEFAULT_PRIORITY: isize = 16;

} // verus!
