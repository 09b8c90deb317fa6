//! The per-core processor slot: the task executing here, if any, and the
//! idle context that hosts the run loop.
use vstd::prelude::*;
use crate::task::{TaskContext, TaskControlBlock};

verus! {

/// The state of the one core.
pub struct Processor {
    /// The task executing on this core; `None` while the run loop is active.
    pub current: Option<TaskControlBlock>,
    /// Where the run loop's own flow is saved while a task executes.
    pub idle_task_cx: TaskContext,
}

impl Processor {
    /// A core with no task and a zeroed idle context.
    pub fn new() -> (r: Processor)
        ensures
            r.current.is_none(),
            r.idle_task_cx.ra == 0,
            r.idle_task_cx.sp == 0,
    {
        Processor { current: None, idle_task_cx: TaskContext::zero_init() }
    }

    /// Removes and returns the current task, leaving the slot empty.
    pub fn take_current(&mut self) -> (r: Option<TaskControlBlock>)
        ensures
            r == old(self).current,
            final(self).current.is_none(),
            final(self).idle_task_cx == old(self).idle_task_cx,
    {
        self.current.take()
    }

    /// The current task, if any.
    pub fn current(&self) -> (r: Option<&TaskControlBlock>)
        ensures
            r.is_some() == self.current.is_some(),
            r.is_some() ==> *r.unwrap() == self.current.unwrap(),
    {
        self.current.as_ref()
    }

    /// The saved idle context, which a task switches to when it gives up
    /// the core.
    pub fn idle_task_cx(&self) -> (r: TaskContext)
        ensures
            r == self.idle_task_cx,
    {
        self.idle_task_cx
    }
}

} // verus!
