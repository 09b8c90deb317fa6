//! The kernel's scheduling state as one explicitly constructed handle: the
//! ready queue, the processor slot, the family table and the identity
//! counter. Every entry point acts on the task current on the core.
use vstd::prelude::*;
use crate::config::MAX_SYSCALL_NUM;
use crate::manager::{first_min, TaskManager};
use crate::memory::{addr_mapped, allocate_ok, area_holds, areas_outside, deallocate_ok, allocated, AreaView};
use crate::processor::Processor;
use crate::task::{charged, is_fork_child, TaskContext, TaskControlBlock, TaskImage, TaskInfo, TaskStatus};

verus! {

/// One parent-child link. A live child has no exit code; an exited child
/// (a zombie) keeps only this record, until its parent reaps it.
#[derive(Clone, Copy, Debug, PartialEq, Eq, Structural)]
pub struct ChildLink {
    pub parent: usize,
    pub child: usize,
    pub exit_code: Option<i32>,
}

/// The links of `f` whose parent is not `p`, in order.
pub open spec fn links_without_parent(f: Seq<ChildLink>, p: usize) -> Seq<ChildLink>
    decreases f.len(),
{
    if f.len() == 0 {
        f
    } else {
        let rest = links_without_parent(f.drop_last(), p);
        if f.last().parent == p {
            rest
        } else {
            rest.push(f.last())
        }
    }
}

/// `f[k]` is the first link of `f` for child `c`.
pub open spec fn first_link_of(f: Seq<ChildLink>, c: usize, k: int) -> bool {
    &&& 0 <= k < f.len()
    &&& f[k].child == c
    &&& forall|j: int| 0 <= j < k ==> (#[trigger] f[j]).child != c
}

/// `f` once child `c` has exited with `code`: its link records the code.
pub open spec fn record_exit(f: Seq<ChildLink>, c: usize, code: i32) -> Seq<ChildLink> {
    if exists|k: int| first_link_of(f, c, k) {
        let k = choose|k: int| first_link_of(f, c, k);
        f.update(k, ChildLink { exit_code: Some(code), ..f[k] })
    } else {
        f
    }
}

/// Link `l` is a child of `me` that the filter `pid` selects: `-1` selects
/// every child, any other value the child with that identity.
pub open spec fn link_matches(l: ChildLink, me: usize, pid: isize) -> bool {
    l.parent == me && (pid == -1 || pid as int == l.child as int)
}

/// `f[k]` is the first exited child of `me` that `pid` selects.
pub open spec fn first_reapable(f: Seq<ChildLink>, me: usize, pid: isize, k: int) -> bool {
    &&& 0 <= k < f.len()
    &&& link_matches(f[k], me, pid)
    &&& f[k].exit_code.is_some()
    &&& forall|j: int| 0 <= j < k ==> !(link_matches(#[trigger] f[j], me, pid) && f[j].exit_code.is_some())
}

/// The kernel's scheduling state.
pub struct Kernel {
    pub manager: TaskManager,
    pub processor: Processor,
    /// Parent-child links, in the order the children were created.
    pub family: Vec<ChildLink>,
    /// The identity the next new task gets.
    pub next_pid: usize,
}

impl Kernel {
    /// The queue and the current task are well formed, and every identity
    /// in use (current, queued, or in a family link) is below `next_pid`.
    pub open spec fn wf(&self) -> bool {
        &&& self.manager.wf()
        &&& self.processor.current.is_some() ==> self.processor.current.unwrap().wf()
        &&& self.processor.current.is_some() ==> self.processor.current.unwrap().pid < self.next_pid
        &&& forall|i: int|
            0 <= i < self.manager.ready_queue@.len() ==> (#[trigger] self.manager.ready_queue@[i]).pid
                < self.next_pid
        &&& forall|i: int|
            0 <= i < self.family@.len() ==> (#[trigger] self.family@[i]).parent < self.next_pid
                && self.family@[i].child < self.next_pid
    }

    /// Identity `p` is in use: by the current task, a queued task, or a
    /// family link.
    pub open spec fn pid_live(&self, p: usize) -> bool {
        ||| self.has_current() && self.cur().pid == p
        ||| exists|i: int|
            0 <= i < self.manager.ready_queue@.len() && (#[trigger] self.manager.ready_queue@[i]).pid == p
        ||| exists|i: int|
            0 <= i < self.family@.len() && ((#[trigger] self.family@[i]).parent == p || self.family@[i].child
                == p)
    }

    /// In a well-formed kernel the next identity is not in use.
    pub proof fn lemma_next_pid_unused(&self)
        requires
            self.wf(),
        ensures
            !self.pid_live(self.next_pid),
    {
    }

    /// A task is executing on the core.
    pub open spec fn has_current(&self) -> bool {
        self.processor.current.is_some()
    }

    /// The task executing on the core.
    pub open spec fn cur(&self) -> TaskControlBlock {
        self.processor.current.unwrap()
    }

    /// A kernel with no tasks.
    pub fn new() -> (r: Kernel)
        ensures
            r.wf(),
            r.manager.ready_queue@.len() == 0,
            !r.has_current(),
            r.family@.len() == 0,
            r.next_pid == 0,
    {
        Kernel { manager: TaskManager::new(), processor: Processor::new(), family: Vec::new(), next_pid: 0 }
    }

    /// Charges `task` its pass and queues it.
    pub fn add_task(&mut self, task: TaskControlBlock)
        requires
            old(self).wf(),
            task.wf(),
            task.pid < old(self).next_pid,
        ensures
            final(self).wf(),
            final(self).manager.ready_queue@ == old(self).manager.ready_queue@.push(
                TaskControlBlock { stride: charged(task.stride, task.pass), ..task },
            ),
            final(self).processor == old(self).processor,
            final(self).family == old(self).family,
            final(self).next_pid == old(self).next_pid,
    {
        self.manager.add(task);
    }

    /// Takes the next task to run out of the ready queue.
    pub fn fetch_task(&mut self) -> (r: Option<TaskControlBlock>)
        requires
            old(self).wf(),
        ensures
            final(self).wf(),
            r.is_none() <==> old(self).manager.ready_queue@.len() == 0,
            r.is_none() ==> final(self).manager.ready_queue@ == old(self).manager.ready_queue@,
            r.is_some() ==> exists|i: int|
                first_min(old(self).manager.ready_queue@, i) && r == Some(
                    old(self).manager.ready_queue@[i],
                ) && final(self).manager.ready_queue@ == old(self).manager.ready_queue@.remove(i),
            r.is_some() ==> r.unwrap().wf(),
            final(self).processor == old(self).processor,
            final(self).family == old(self).family,
            final(self).next_pid == old(self).next_pid,
    {
        self.manager.fetch()
    }

    /// Brings up a task from a loaded `image`, with the next identity and no
    /// parent, and queues it. Returns its identity.
    pub fn create_task(&mut self, image: TaskImage) -> (r: usize)
        requires
            old(self).wf(),
            image.wf(),
            old(self).next_pid < usize::MAX,
        ensures
            final(self).wf(),
            r == old(self).next_pid,
            !old(self).pid_live(r),
            final(self).next_pid == old(self).next_pid + 1,
            final(self).manager.ready_queue@.len() == old(self).manager.ready_queue@.len() + 1,
            final(self).manager.ready_queue@.drop_last() == old(self).manager.ready_queue@,
            ({
                let t = final(self).manager.ready_queue@.last();
                &&& t.pid == r
                &&& t.task_status == TaskStatus::Ready
                &&& t.memory_set@ == image.memory_set@
                &&& t.task_cx == image.task_cx
                &&& t.trap_cx == image.trap_cx
                &&& t.parent.is_none()
                &&& t.stride == charged(0, t.pass)
            }),
            final(self).processor == old(self).processor,
            final(self).family == old(self).family,
    {
        let pid = self.next_pid;
        let task = TaskControlBlock::new(pid, image);
        self.manager.add(task);
        self.next_pid = pid + 1;
        assert(self.manager.ready_queue@.drop_last() =~= old(self).manager.ready_queue@);
        pid
    }

    /// One turn of the run loop, from the idle context: takes the next task
    /// from the queue, records `now` as its first-scheduled time unless one
    /// is recorded, marks it running and makes it current. Returns the
    /// context to switch into, or `None` when no task is ready.
    pub fn run_next_task(&mut self, now: usize) -> (r: Option<TaskContext>)
        requires
            old(self).wf(),
            !old(self).has_current(),
        ensures
            final(self).wf(),
            r.is_none() <==> old(self).manager.ready_queue@.len() == 0,
            r.is_none() ==> final(self).manager.ready_queue@ == old(self).manager.ready_queue@
                && !final(self).has_current(),
            r.is_some() ==> exists|i: int|
                {
                    let t = old(self).manager.ready_queue@[i];
                    &&& #[trigger] first_min(old(self).manager.ready_queue@, i)
                    &&& final(self).manager.ready_queue@ == old(self).manager.ready_queue@.remove(i)
                    &&& r == Some(t.task_cx)
                    &&& final(self).processor.current == Some(
                        TaskControlBlock {
                            task_status: TaskStatus::Running,
                            first_run_time: if t.first_run_time.is_some() {
                                t.first_run_time
                            } else {
                                Some(now)
                            },
                            ..t
                        },
                    )
                },
            final(self).processor.idle_task_cx == old(self).processor.idle_task_cx,
            final(self).family == old(self).family,
            final(self).next_pid == old(self).next_pid,
    {
        match self.manager.fetch() {
            Some(task) => {
                let mut task = task;
                task.record_first_switch(now);
                task.task_status = TaskStatus::Running;
                let cx = task.task_cx;
                self.processor.current = Some(task);
                Some(cx)
            },
            None => None,
        }
    }

    /// The current task gives up the core: its context `cx`, saved by the
    /// switch, is stored, it is marked ready and queued again, paying its
    /// pass. Returns the idle context to switch to.
    pub fn suspend_current_and_run_next(&mut self, cx: TaskContext) -> (r: TaskContext)
        requires
            old(self).wf(),
            old(self).has_current(),
        ensures
            final(self).wf(),
            !final(self).has_current(),
            final(self).manager.ready_queue@ == old(self).manager.ready_queue@.push(
                TaskControlBlock {
                    task_status: TaskStatus::Ready,
                    task_cx: cx,
                    stride: charged(old(self).cur().stride, old(self).cur().pass),
                    ..old(self).cur()
                },
            ),
            r == old(self).processor.idle_task_cx,
            final(self).processor.idle_task_cx == old(self).processor.idle_task_cx,
            final(self).family == old(self).family,
            final(self).next_pid == old(self).next_pid,
    {
        let mut task = self.processor.take_current().unwrap();
        task.task_cx = cx;
        task.task_status = TaskStatus::Ready;
        self.manager.add(task);
        self.processor.idle_task_cx()
    }

    /// Nothing but the current task changed.
    pub open spec fn only_current_changed(&self, o: &Kernel) -> bool {
        &&& self.manager == o.manager
        &&& self.family == o.family
        &&& self.next_pid == o.next_pid
        &&& self.processor.idle_task_cx == o.processor.idle_task_cx
    }

    /// The current task exits with `exit_code`: it leaves the core and its
    /// address space is released; the links to its own children go, and
    /// its link to its parent records the code, for the parent to reap.
    /// Returns the idle context to switch to.
    pub fn exit_current_and_run_next(&mut self, exit_code: i32) -> (r: TaskContext)
        requires
            old(self).wf(),
            old(self).has_current(),
        ensures
            final(self).wf(),
            !final(self).has_current(),
            final(self).manager == old(self).manager,
            final(self).family@ == record_exit(
                links_without_parent(old(self).family@, old(self).cur().pid),
                old(self).cur().pid,
                exit_code,
            ),
            r == old(self).processor.idle_task_cx,
            final(self).processor.idle_task_cx == old(self).processor.idle_task_cx,
            final(self).next_pid == old(self).next_pid,
    {
        let mut task = self.processor.take_current().unwrap();
        task.task_status = TaskStatus::Exited;
        task.exit_code = exit_code;
        let pid = task.pid;
        let ghost f0 = self.family@;
        let kept = links_kept(&self.family, pid);
        self.family = kept;
        assert forall|i: int| 0 <= i < self.family@.len() implies (#[trigger] self.family@[i]).parent
            < self.next_pid && self.family@[i].child < self.next_pid by {
            let j = choose|j: int| 0 <= j < f0.len() && f0[j] == self.family@[i];
            assert(f0[j].parent < self.next_pid);
        }
        record_child_exit(&mut self.family, pid, exit_code);
        self.processor.idle_task_cx()
    }

    /// The current task makes a child: a new identity, a deep copy of its
    /// address space, its saved state except that the child's system call
    /// returns 0, its weight, zero stride and cleared accounting. The child
    /// is linked to it and queued. Returns the child's identity.
    pub fn fork(&mut self) -> (r: isize)
        requires
            old(self).wf(),
            old(self).has_current(),
            old(self).next_pid < usize::MAX,
        ensures
            final(self).wf(),
            r == #[verifier::truncate] (old(self).next_pid as isize),
            !old(self).pid_live(old(self).next_pid),
            final(self).next_pid == old(self).next_pid + 1,
            final(self).processor == old(self).processor,
            final(self).family@ == old(self).family@.push(
                ChildLink { parent: old(self).cur().pid, child: old(self).next_pid, exit_code: None },
            ),
            final(self).manager.ready_queue@.len() == old(self).manager.ready_queue@.len() + 1,
            final(self).manager.ready_queue@.drop_last() == old(self).manager.ready_queue@,
            is_fork_child(&final(self).manager.ready_queue@.last(), &old(self).cur(), old(self).next_pid),
            final(self).manager.ready_queue@.last().stride == charged(0, old(self).cur().pass),
    {
        let pid = self.next_pid;
        let child = match self.processor.current() {
            Some(parent) => parent.fork_child(pid),
            None => {
                assert(false);
                return -1;
            },
        };
        let me = child.parent.unwrap();
        self.family.push(ChildLink { parent: me, child: pid, exit_code: None });
        self.manager.add(child);
        self.next_pid = pid + 1;
        assert(self.manager.ready_queue@.drop_last() =~= old(self).manager.ready_queue@);
        #[verifier::truncate] (pid as isize)
    }

    /// The current task starts a child running the program `image`, which a
    /// loader made from a named image: a fresh address space, a new
    /// identity, linked and queued as `fork` does. Returns the child's
    /// identity, or -1 with nothing changed when no image could be loaded.
    pub fn spawn(&mut self, image: Option<TaskImage>) -> (r: isize)
        requires
            old(self).wf(),
            old(self).has_current(),
            old(self).next_pid < usize::MAX,
            image.is_some() ==> image.unwrap().wf(),
        ensures
            final(self).wf(),
            image.is_none() ==> r == -1 && *final(self) == *old(self),
            image.is_some() ==> {
                let t = final(self).manager.ready_queue@.last();
                let im = image.unwrap();
                &&& r == #[verifier::truncate] (old(self).next_pid as isize)
                &&& !old(self).pid_live(old(self).next_pid)
                &&& final(self).next_pid == old(self).next_pid + 1
                &&& final(self).processor == old(self).processor
                &&& final(self).family@ == old(self).family@.push(
                    ChildLink { parent: old(self).cur().pid, child: old(self).next_pid, exit_code: None },
                )
                &&& final(self).manager.ready_queue@.len() == old(self).manager.ready_queue@.len() + 1
                &&& final(self).manager.ready_queue@.drop_last() == old(self).manager.ready_queue@
                &&& t.wf()
                &&& t.pid == old(self).next_pid
                &&& t.task_status == TaskStatus::Ready
                &&& t.memory_set@ == im.memory_set@
                &&& t.task_cx == im.task_cx
                &&& t.trap_cx == im.trap_cx
                &&& t.parent == Some(old(self).cur().pid)
                &&& t.stride == charged(0, t.pass)
            },
    {
        let image = match image {
            Some(im) => im,
            None => {
                return -1;
            },
        };
        let me = match self.processor.current() {
            Some(parent) => parent.pid,
            None => {
                assert(false);
                return -1;
            },
        };
        let pid = self.next_pid;
        let mut child = TaskControlBlock::new(pid, image);
        child.parent = Some(me);
        self.family.push(ChildLink { parent: me, child: pid, exit_code: None });
        self.manager.add(child);
        self.next_pid = pid + 1;
        assert(self.manager.ready_queue@.drop_last() =~= old(self).manager.ready_queue@);
        #[verifier::truncate] (pid as isize)
    }

    /// The current task replaces its program by `image`, keeping its
    /// identity. Returns 0, or -1 with nothing changed when no image could
    /// be loaded.
    pub fn exec(&mut self, image: Option<TaskImage>) -> (r: isize)
        requires
            old(self).wf(),
            old(self).has_current(),
            image.is_some() ==> image.unwrap().wf(),
        ensures
            final(self).wf(),
            image.is_none() ==> r == -1 && *final(self) == *old(self),
            image.is_some() ==> {
                let t = final(self).cur();
                let o = old(self).cur();
                let im = image.unwrap();
                &&& r == 0
                &&& final(self).has_current()
                &&& final(self).only_current_changed(old(self))
                &&& t.memory_set@ == im.memory_set@
                &&& t.task_cx == im.task_cx
                &&& t.trap_cx == im.trap_cx
                &&& t.program_brk == im.heap_bottom
                &&& t.pid == o.pid
                &&& t.task_status == o.task_status
                &&& t.parent == o.parent
                &&& t.priority == o.priority
                &&& t.stride == o.stride
            },
    {
        let image = match image {
            Some(im) => im,
            None => {
                return -1;
            },
        };
        let mut task = self.processor.take_current().unwrap();
        task.exec(image);
        self.processor.current = Some(task);
        0
    }

    /// The current task collects an exited child. `pid` -1 selects any
    /// child, another value the child with that identity. Returns -1 when
    /// no child is selected, -2 when some are but none has exited;
    /// otherwise the first exited one selected leaves the family table, its
    /// exit code is written to `exit_code`, and its identity is returned.
    pub fn wait(&mut self, pid: isize, exit_code: &mut i32) -> (r: isize)
        requires
            old(self).wf(),
            old(self).has_current(),
        ensures
            final(self).wf(),
            final(self).processor == old(self).processor,
            final(self).manager == old(self).manager,
            final(self).next_pid == old(self).next_pid,
            ({
                let f = old(self).family@;
                let me = old(self).cur().pid;
                &&& (forall|k: int| 0 <= k < f.len() ==> !link_matches(#[trigger] f[k], me, pid)) ==> r == -1
                    && final(self).family@ == f && *final(exit_code) == *old(exit_code)
                &&& (exists|k: int| 0 <= k < f.len() && link_matches(#[trigger] f[k], me, pid)) && (forall|k: int|
                    0 <= k < f.len() && link_matches(#[trigger] f[k], me, pid) ==> f[k].exit_code.is_none())
                    ==> r == -2 && final(self).family@ == f && *final(exit_code) == *old(exit_code)
                &&& forall|k: int| #[trigger] first_reapable(f, me, pid, k) ==> r == #[verifier::truncate] (f[k].child as isize)
                    && *final(exit_code) == f[k].exit_code.unwrap() && final(self).family@ == f.remove(k)
            }),
    {
        let me = match self.processor.current() {
            Some(t) => t.pid,
            None => {
                assert(false);
                return -1;
            },
        };
        let ghost f = self.family@;
        let n = self.family.len();
        let mut any = false;
        let mut k: usize = 0;
        while k < n
            invariant
                self.family@ == f,
                f == old(self).family@,
                self.processor == old(self).processor,
                self.manager == old(self).manager,
                self.next_pid == old(self).next_pid,
                self.wf(),
                me == old(self).cur().pid,
                *exit_code == *old(exit_code),
                n == f.len(),
                k <= n,
                any == exists|j: int| 0 <= j < k && link_matches(#[trigger] f[j], me, pid),
                forall|j: int| 0 <= j < k ==> !(link_matches(#[trigger] f[j], me, pid) && f[j].exit_code.is_some()),
            decreases n - k,
        {
            let l = self.family[k];
            if l.parent == me && (pid == -1 || (pid >= 0 && pid as usize == l.child)) {
                assert(link_matches(f[k as int], me, pid));
                any = true;
                match l.exit_code {
                    Some(code) => {
                        assert(first_reapable(f, me, pid, k as int));
                        assert forall|q: int| #[trigger] first_reapable(f, me, pid, q) implies q == k by {
                            if q < k {
                            } else if q > k {
                                assert(link_matches(f[k as int], me, pid) && f[k as int].exit_code.is_some());
                            }
                        }
                        self.family.remove(k);
                        *exit_code = code;
                        return #[verifier::truncate] (l.child as isize);
                    },
                    None => {},
                }
            } else {
                assert(!link_matches(f[k as int], me, pid));
            }
            k += 1;
        }
        assert forall|q: int| #[trigger] first_reapable(f, me, pid, q) implies false by {
            assert(link_matches(f[q], me, pid) && f[q].exit_code.is_some());
        }
        if any {
            -2
        } else {
            -1
        }
    }

    /// Maps a region into the current task's address space; see
    /// `MemorySet::allocate_new_space`.
    pub fn allocate_new_space(&mut self, start: usize, len: usize, port: usize) -> (r: isize)
        requires
            old(self).wf(),
            old(self).has_current(),
        ensures
            final(self).wf(),
            final(self).has_current(),
            final(self).only_current_changed(old(self)),
            final(self).cur().same_but_memory(&old(self).cur()),
            allocate_ok(old(self).cur().memory_set@, start as int, len as int, port as int) ==> r == 0
                && final(self).cur().memory_set@ == allocated(
                old(self).cur().memory_set@,
                start as int,
                len as int,
                port as int,
            ),
            !allocate_ok(old(self).cur().memory_set@, start as int, len as int, port as int) ==> r == -1
                && final(self).cur().memory_set@ == old(self).cur().memory_set@,
    {
        let mut task = self.processor.take_current().unwrap();
        let r = task.memory_set.allocate_new_space(start, len, port);
        self.processor.current = Some(task);
        r
    }

    /// Unmaps a range from the current task's address space; see
    /// `MemorySet::deallocate_space`.
    pub fn deallocate_space(&mut self, start: usize, len: usize) -> (r: isize)
        requires
            old(self).wf(),
            old(self).has_current(),
        ensures
            final(self).wf(),
            final(self).has_current(),
            final(self).only_current_changed(old(self)),
            final(self).cur().same_but_memory(&old(self).cur()),
            deallocate_ok(old(self).cur().memory_set@, start as int, len as int) ==> r == 0
                && final(self).cur().memory_set@ == areas_outside(
                old(self).cur().memory_set@,
                start as int,
                start + len,
            ),
            !deallocate_ok(old(self).cur().memory_set@, start as int, len as int) ==> r == -1
                && final(self).cur().memory_set@ == old(self).cur().memory_set@,
    {
        let mut task = self.processor.take_current().unwrap();
        let r = task.memory_set.deallocate_space(start, len);
        self.processor.current = Some(task);
        r
    }

    /// Sets the current task's weight; see `TaskControlBlock::set_priority`.
    pub fn set_priority(&mut self, prio: isize) -> (r: isize)
        requires
            old(self).wf(),
            old(self).has_current(),
        ensures
            final(self).wf(),
            final(self).has_current(),
            final(self).only_current_changed(old(self)),
            final(self).cur().stride == old(self).cur().stride,
            prio < 2 ==> r == -1 && final(self).cur() == old(self).cur(),
            prio >= 2 ==> r == prio && final(self).cur() == (TaskControlBlock {
                priority: prio,
                pass: crate::task::pass_of(prio as int) as u64,
                ..old(self).cur()
            }),
    {
        let mut task = self.processor.take_current().unwrap();
        let r = task.set_priority(prio);
        self.processor.current = Some(task);
        r
    }

    /// Counts one invocation of system call `id` by the current task.
    pub fn add_current_task_syscall_time(&mut self, id: usize)
        requires
            old(self).wf(),
            old(self).has_current(),
            id < MAX_SYSCALL_NUM,
        ensures
            final(self).wf(),
            final(self).has_current(),
            final(self).only_current_changed(old(self)),
            final(self).cur().same_but_syscalls(&old(self).cur()),
            final(self).cur().syscall_times@ == old(self).cur().syscall_times@.update(
                id as int,
                if old(self).cur().syscall_times@[id as int] < u32::MAX {
                    (old(self).cur().syscall_times@[id as int] + 1) as u32
                } else {
                    u32::MAX
                },
            ),
    {
        let mut task = self.processor.take_current().unwrap();
        task.add_syscall_time(id);
        self.processor.current = Some(task);
    }

    /// Moves the current task's program break; see
    /// `TaskControlBlock::change_program_brk`.
    pub fn change_program_brk(&mut self, size: i32) -> (r: Option<usize>)
        requires
            old(self).wf(),
            old(self).has_current(),
        ensures
            final(self).wf(),
            final(self).has_current(),
            final(self).only_current_changed(old(self)),
            ({
                let o = old(self).cur();
                let nb = o.program_brk + size;
                if o.heap_bottom <= nb <= usize::MAX {
                    r == Some(o.program_brk) && final(self).cur() == (TaskControlBlock {
                        program_brk: nb as usize,
                        ..o
                    })
                } else {
                    r.is_none() && final(self).cur() == o
                }
            }),
    {
        let mut task = self.processor.take_current().unwrap();
        let r = task.change_program_brk(size);
        self.processor.current = Some(task);
        r
    }

    /// Removes and returns the current task, leaving the core idle.
    pub fn take_current_task(&mut self) -> (r: Option<TaskControlBlock>)
        requires
            old(self).wf(),
        ensures
            final(self).wf(),
            r == old(self).processor.current,
            !final(self).has_current(),
            final(self).only_current_changed(old(self)),
    {
        self.processor.take_current()
    }

    /// The current task, if any.
    pub fn current_task(&self) -> (r: Option<&TaskControlBlock>)
        ensures
            r.is_some() == self.has_current(),
            r.is_some() ==> *r.unwrap() == self.cur(),
    {
        self.processor.current()
    }

    /// The current task's identity.
    pub fn current_pid(&self) -> (r: usize)
        requires
            self.has_current(),
        ensures
            r == self.cur().pid,
    {
        match self.processor.current() {
            Some(t) => t.pid,
            None => {
                assert(false);
                0
            },
        }
    }

    /// The current task's status.
    pub fn query_current_task_status(&self) -> (r: TaskStatus)
        requires
            self.has_current(),
        ensures
            r == self.cur().task_status,
    {
        match self.processor.current() {
            Some(t) => t.task_status,
            None => {
                assert(false);
                TaskStatus::UnInit
            },
        }
    }

    /// When the current task was first scheduled, 0 where it never was.
    pub fn query_current_task_first_run_time(&self) -> (r: usize)
        requires
            self.has_current(),
        ensures
            r == (match self.cur().first_run_time {
                Some(t) => t,
                None => 0,
            }),
    {
        match self.processor.current() {
            Some(t) => match t.first_run_time {
                Some(time) => time,
                None => 0,
            },
            None => {
                assert(false);
                0
            },
        }
    }

    /// The current task's report, `now` being the current time.
    pub fn task_info(&self, now: usize) -> (r: TaskInfo)
        requires
            self.has_current(),
        ensures
            r.status == self.cur().task_status,
            r.syscall_times@ == self.cur().syscall_times@,
            r.time == (match self.cur().first_run_time {
                Some(t) => if now >= t { (now - t) as usize } else { 0 },
                None => 0,
            }),
    {
        match self.processor.current() {
            Some(t) => t.info(now),
            None => {
                assert(false);
                TaskInfo::new()
            },
        }
    }

    /// The byte at `addr` in the current task's address space, if mapped.
    pub fn read_current_byte(&self, addr: usize) -> (r: Option<u8>)
        requires
            self.wf(),
            self.has_current(),
        ensures
            !addr_mapped(self.cur().memory_set@, addr as int) ==> r.is_none(),
            forall|k: int|
                0 <= k < self.cur().memory_set@.len() && #[trigger] area_holds(
                    self.cur().memory_set@[k],
                    addr as int,
                ) ==> r == Some(self.cur().memory_set@[k].data[addr - self.cur().memory_set@[k].start]),
    {
        match self.processor.current() {
            Some(t) => t.memory_set.read_byte(addr),
            None => {
                assert(false);
                None
            },
        }
    }

    /// Stores `v` at `addr` in the current task's address space. Returns
    /// whether `addr` is mapped there; nothing else changes.
    pub fn write_current_byte(&mut self, addr: usize, v: u8) -> (r: bool)
        requires
            old(self).wf(),
            old(self).has_current(),
        ensures
            final(self).wf(),
            final(self).has_current(),
            final(self).only_current_changed(old(self)),
            final(self).cur().same_but_memory(&old(self).cur()),
            r == addr_mapped(old(self).cur().memory_set@, addr as int),
            !r ==> final(self).cur().memory_set@ == old(self).cur().memory_set@,
            forall|k: int|
                0 <= k < old(self).cur().memory_set@.len() && #[trigger] area_holds(
                    old(self).cur().memory_set@[k],
                    addr as int,
                ) ==> final(self).cur().memory_set@ == old(self).cur().memory_set@.update(
                    k,
                    AreaView {
                        data: old(self).cur().memory_set@[k].data.update(
                            addr - old(self).cur().memory_set@[k].start,
                            v,
                        ),
                        ..old(self).cur().memory_set@[k]
                    },
                ),
    {
        let mut task = self.processor.take_current().unwrap();
        let r = task.memory_set.write_byte(addr, v);
        self.processor.current = Some(task);
        r
    }
}

/// With one child, which has exited, a wait for any child reaps that child
/// first; a second wait for any child then finds none.
pub proof fn lemma_wait_reaps_only_child(f: Seq<ChildLink>, me: usize, k: int)
    requires
        0 <= k < f.len(),
        f[k].parent == me,
        f[k].exit_code.is_some(),
        forall|j: int| 0 <= j < f.len() && j != k ==> (#[trigger] f[j]).parent != me,
    ensures
        first_reapable(f, me, -1isize, k),
        forall|j: int| 0 <= j < f.remove(k).len() ==> !link_matches(#[trigger] f.remove(k)[j], me, -1isize),
{
    assert forall|j: int| 0 <= j < f.remove(k).len() implies !link_matches(#[trigger] f.remove(k)[j], me, -1isize) by {
        if j < k {
            assert(f.remove(k)[j] == f[j]);
        } else {
            assert(f.remove(k)[j] == f[j + 1]);
        }
    }
}

/// The links of `f` whose parent is not `p`, in order.
fn links_kept(f: &Vec<ChildLink>, p: usize) -> (r: Vec<ChildLink>)
    ensures
        r@ == links_without_parent(f@, p),
        forall|i: int| 0 <= i < r@.len() ==> f@.contains(#[trigger] r@[i]),
{
    let mut r: Vec<ChildLink> = Vec::new();
    let mut i: usize = 0;
    while i < f.len()
        invariant
            i <= f.len(),
            r@ == links_without_parent(f@.subrange(0, i as int), p),
            forall|j: int| 0 <= j < r@.len() ==> f@.contains(#[trigger] r@[j]),
        decreases f.len() - i,
    {
        assert(f@.subrange(0, i as int + 1).drop_last() =~= f@.subrange(0, i as int));
        let l = f[i];
        if l.parent != p {
            r.push(l);
            assert(f@[i as int] == l);
        }
        i += 1;
    }
    assert(f@.subrange(0, f@.len() as int) =~= f@);
    r
}

/// Records in `f` that child `c` exited with `code`.
fn record_child_exit(f: &mut Vec<ChildLink>, c: usize, code: i32)
    ensures
        final(f)@ == record_exit(old(f)@, c, code),
        final(f)@.len() == old(f)@.len(),
        forall|i: int|
            0 <= i < final(f)@.len() ==> (#[trigger] final(f)@[i]).parent == old(f)@[i].parent
                && final(f)@[i].child == old(f)@[i].child,
{
    let mut k: usize = 0;
    while k < f.len()
        invariant
            f@ == old(f)@,
            k <= f.len(),
            forall|j: int| 0 <= j < k ==> (#[trigger] f@[j]).child != c,
        decreases f.len() - k,
    {
        let l = f[k];
        if l.child == c {
            assert(first_link_of(old(f)@, c, k as int));
            assert forall|q: int| first_link_of(old(f)@, c, q) implies q == k by {
                if q > k {
                    assert(old(f)@[k as int].child == c);
                }
            }
            f.set(k, ChildLink { parent: l.parent, child: l.child, exit_code: Some(code) });
            return;
        }
        k += 1;
    }
}

} // verus!