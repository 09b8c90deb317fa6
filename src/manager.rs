//! The ready queue, ordered by stride.
//!
//! Strides are compared as plain integers. A charge that would carry a
//! stride past `u64::MAX` holds it at `u64::MAX` instead of wrapping, so the
//! order stays meaningful, if coarse, for a stride that has run that far.
use vstd::prelude::*;
use crate::task::{charged, TaskControlBlock};

verus! {

/// `q[i]` has the smallest stride in `q`, and no entry before it has as
/// small a stride.
pub open spec fn first_min(q: Seq<TaskControlBlock>, i: int) -> bool {
    &&& 0 <= i < q.len()
    &&& forall|j: int| 0 <= j < q.len() ==> q[i].stride <= #[trigger] q[j].stride
    &&& forall|j: int| 0 <= j < i ==> q[i].stride < #[trigger] q[j].stride
}

/// The tasks that are ready to run, in the order they were queued.
pub struct TaskManager {
    pub ready_queue: Vec<TaskControlBlock>,
}

impl TaskManager {
    pub open spec fn wf(&self) -> bool {
        forall|i: int| 0 <= i < self.ready_queue@.len() ==> (#[trigger] self.ready_queue@[i]).wf()
    }

    /// An empty queue.
    pub fn new() -> (r: TaskManager)
        ensures
            r.ready_queue@.len() == 0,
            r.wf(),
    {
        TaskManager { ready_queue: Vec::new() }
    }

    /// Charges `task` its pass and queues it last.
    pub fn add(&mut self, task: TaskControlBlock)
        requires
            old(self).wf(),
            task.wf(),
        ensures
            final(self).wf(),
            final(self).ready_queue@ == old(self).ready_queue@.push(
                TaskControlBlock { stride: charged(task.stride, task.pass), ..task },
            ),
    {
        let mut task = task;
        task.stride = task.stride.saturating_add(task.pass);
        self.ready_queue.push(task);
    }

    /// Takes out the queued task with the smallest stride, the earliest
    /// queued among equals; `None` when the queue is empty.
    pub fn fetch(&mut self) -> (r: Option<TaskControlBlock>)
        requires
            old(self).wf(),
        ensures
            final(self).wf(),
            r.is_none() <==> old(self).ready_queue@.len() == 0,
            r.is_none() ==> final(self).ready_queue@ == old(self).ready_queue@,
            r.is_some() ==> exists|i: int|
                first_min(old(self).ready_queue@, i) && r == Some(old(self).ready_queue@[i])
                    && final(self).ready_queue@ == old(self).ready_queue@.remove(i),
            r.is_some() ==> r.unwrap().wf(),
    {
        let n = self.ready_queue.len();
        if n == 0 {
            return None;
        }
        let mut best: usize = 0;
        let mut i: usize = 1;
        while i < n
            invariant
                n == self.ready_queue@.len(),
                1 <= i <= n,
                best < i,
                forall|j: int| 0 <= j < i ==> self.ready_queue@[best as int].stride <= #[trigger] self.ready_queue@[j].stride,
                forall|j: int| 0 <= j < best ==> self.ready_queue@[best as int].stride < #[trigger] self.ready_queue@[j].stride,
            decreases n - i,
        {
            if self.ready_queue[i].stride < self.ready_queue[best].stride {
                best = i;
            }
            i += 1;
        }
        let ghost q = self.ready_queue@;
        assert(first_min(q, best as int));
        let t = self.ready_queue.remove(best);
        assert forall|j: int| 0 <= j < self.ready_queue@.len() implies (#[trigger] self.ready_queue@[j]).wf() by {
            if j < best {
                assert(self.ready_queue@[j] == q[j]);
            } else {
                assert(self.ready_queue@[j] == q[j + 1]);
            }
        }
        Some(t)
    }
}

/// No task left in the queue after a fetch has a smaller stride than the
/// task the fetch returned.
pub proof fn lemma_fetch_takes_smallest(q: Seq<TaskControlBlock>, i: int)
    requires
        first_min(q, i),
    ensures
        forall|j: int| 0 <= j < q.remove(i).len() ==> q[i].stride <= #[trigger] q.remove(i)[j].stride,
{
    assert forall|j: int| 0 <= j < q.remove(i).len() implies q[i].stride <= #[trigger] q.remove(i)[j].stride by {
        if j < i {
            assert(q.remove(i)[j] == q[j]);
        } else {
            assert(q.remove(i)[j] == q[j + 1]);
        }
    }
}

/// Queuing a task raises its stride by exactly its pass, and queuing it
/// again with its weight unchanged raises it by the same amount, as long
/// as the strides fit.
pub proof fn lemma_add_charges_pass(stride: u64, pass: u64)
    requires
        stride + 2 * pass <= u64::MAX,
    ensures
        charged(stride, pass) == stride + pass,
        charged(charged(stride, pass), pass) - charged(stride, pass) == charged(stride, pass) - stride,
{
}

} // verus!
