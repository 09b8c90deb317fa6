//! The task control block and the small records around it.
use vstd::prelude::*;
use crate::config::{BIG_STRIDE, DEFAULT_PRIORITY, MAX_SYSCALL_NUM, MIN_PRIORITY};
use crate::memory::MemorySet;

verus! {

/// Where a task is in its lifecycle.
#[derive(Clone, Copy, Debug, PartialEq, Eq, Structural)]
pub enum TaskStatus {
    /// Not yet set up.
    UnInit,
    /// Waiting in the ready queue.
    Ready,
    /// Executing on the processor.
    Running,
    /// Finished; only its exit record remains until the parent reaps it.
    Exited,
}

/// The callee-saved registers of a suspended kernel flow: return address,
/// stack pointer and `s0`..`s11`.
#[derive(Clone, Copy)]
pub struct TaskContext {
    pub ra: usize,
    pub sp: usize,
    pub s: [usize; 12],
}

impl TaskContext {
    /// A context whose registers are all zero.
    pub fn zero_init() -> (r: TaskContext)
        ensures
            r.ra == 0,
            r.sp == 0,
            forall|i: int| 0 <= i < 12 ==> r.s@[i] == 0,
    {
        TaskContext { ra: 0, sp: 0, s: [0usize; 12] }
    }
}

/// The user-mode registers saved on entry to the kernel.
#[derive(Clone, Copy)]
pub struct TrapContext {
    /// General registers `x0`..`x31`; `x10` carries a system call's result.
    pub x: [usize; 32],
    /// Status register.
    pub sstatus: usize,
    /// Address at which user mode resumes.
    pub sepc: usize,
}

/// Index of the register that carries a system call's return value.
pub const RET_REG: usize = 10;

/// What a loader hands over for a program: its fresh address space and the
/// state in which it starts.
pub struct TaskImage {
    pub memory_set: MemorySet,
    pub task_cx: TaskContext,
    pub trap_cx: TrapContext,
    /// Lowest address of the program's heap; the break starts there.
    pub heap_bottom: usize,
}

impl TaskImage {
    pub open spec fn wf(&self) -> bool {
        self.memory_set.wf()
    }
}

/// Seconds and microseconds.
#[derive(Clone, Copy, Debug)]
pub struct TimeVal {
    pub sec: usize,
    pub usec: usize,
}

impl TimeVal {
    /// Splits a count of microseconds into seconds and microseconds.
    pub fn from_us(us: usize) -> (r: TimeVal)
        ensures
            r.sec == us / 1_000_000,
            r.usec == us % 1_000_000,
    {
        TimeVal { sec: us / 1_000_000, usec: us % 1_000_000 }
    }
}

/// `n` zero counters.
fn zero_counts(n: usize) -> (r: Vec<u32>)
    ensures
        r@ == Seq::new(n as nat, |i: int| 0u32),
{
    let mut v: Vec<u32> = Vec::new();
    while v.len() < n
        invariant
            v.len() <= n,
            v@ == Seq::new(v.len() as nat, |i: int| 0u32),
        decreases n - v.len(),
    {
        v.push(0);
        assert(v@ =~= Seq::new(v.len() as nat, |i: int| 0u32));
    }
    v
}

/// A copy of a list of counters.
fn copy_counts(v: &Vec<u32>) -> (r: Vec<u32>)
    ensures
        r@ == v@,
{
    let mut r: Vec<u32> = Vec::new();
    let mut i: usize = 0;
    while i < v.len()
        invariant
            i <= v.len(),
            r@ == v@.subrange(0, i as int),
        decreases v.len() - i,
    {
        r.push(v[i]);
        i += 1;
        assert(r@ =~= v@.subrange(0, i as int));
    }
    assert(r@ =~= v@);
    r
}

/// What a task reports about itself.
pub struct TaskInfo {
    /// Its status.
    pub status: TaskStatus,
    /// How often it invoked each system call.
    pub syscall_times: Vec<u32>,
    /// Time since it was first scheduled.
    pub time: usize,
}

impl TaskInfo {
    /// A report of a ready task with no calls and no time.
    pub fn new() -> (r: TaskInfo)
        ensures
            r.status == TaskStatus::Ready,
            r.syscall_times@ == Seq::new(MAX_SYSCALL_NUM as nat, |i: int| 0u32),
            r.time == 0,
    {
        TaskInfo { status: TaskStatus::Ready, syscall_times: zero_counts(MAX_SYSCALL_NUM), time: 0 }
    }
}

/// The stride charge of a task of weight `priority`.
pub open spec fn pass_of(priority: int) -> int {
    BIG_STRIDE as int / priority
}

/// A priority between `MIN_PRIORITY` and `BIG_STRIDE` has a positive pass;
/// a larger one has none.
pub proof fn lemma_pass_positive(priority: int)
    requires
        priority >= MIN_PRIORITY,
    ensures
        priority <= BIG_STRIDE ==> pass_of(priority) > 0,
        priority > BIG_STRIDE ==> pass_of(priority) == 0,
{
    if priority <= BIG_STRIDE {
        vstd::arithmetic::div_mod::lemma_div_is_ordered(priority, BIG_STRIDE as int, priority);
        vstd::arithmetic::div_mod::lemma_div_by_self(priority);
    } else {
        vstd::arithmetic::div_mod::lemma_basic_div(BIG_STRIDE as int, priority);
    }
}

/// `stride` after one charge of `pass`, held at the largest value where the
/// sum would not fit.
pub open spec fn charged(stride: u64, pass: u64) -> u64 {
    if stride + pass <= u64::MAX {
        (stride + pass) as u64
    } else {
        u64::MAX
    }
}

/// `c` is what `fork` makes of `p` under identity `pid`, stride aside.
pub open spec fn is_fork_child(c: &TaskControlBlock, p: &TaskControlBlock, pid: usize) -> bool {
    &&& c.wf()
    &&& c.pid == pid
    &&& c.task_status == TaskStatus::Ready
    &&& c.task_cx == p.task_cx
    &&& c.trap_cx.x@ == p.trap_cx.x@.update(RET_REG as int, 0)
    &&& c.trap_cx.sstatus == p.trap_cx.sstatus
    &&& c.trap_cx.sepc == p.trap_cx.sepc
    &&& c.memory_set@ == p.memory_set@
    &&& c.parent == Some(p.pid)
    &&& c.first_run_time.is_none()
    &&& c.syscall_times@ == Seq::new(MAX_SYSCALL_NUM as nat, |i: int| 0u32)
    &&& c.exit_code == 0
    &&& c.priority == p.priority
    &&& c.pass == p.pass
    &&& c.heap_bottom == p.heap_bottom
    &&& c.program_brk == p.program_brk
}

/// The kernel's record of one task.
pub struct TaskControlBlock {
    /// Identity, never reused.
    pub pid: usize,
    pub task_status: TaskStatus,
    /// Saved kernel context, resumed when the task is next switched to.
    pub task_cx: TaskContext,
    /// Saved user registers.
    pub trap_cx: TrapContext,
    /// The task's own address space.
    pub memory_set: MemorySet,
    /// Identity of the task that created it, looked up, never owned.
    pub parent: Option<usize>,
    /// When it was first scheduled.
    pub first_run_time: Option<usize>,
    /// Invocation count of each system call.
    pub syscall_times: Vec<u32>,
    pub exit_code: i32,
    /// Scheduling weight, at least `MIN_PRIORITY`.
    pub priority: isize,
    /// Stride charged per turn: `BIG_STRIDE / priority`.
    pub pass: u64,
    /// Cumulative stride.
    pub stride: u64,
    pub heap_bottom: usize,
    /// Current program break.
    pub program_brk: usize,
}

impl TaskControlBlock {
    pub open spec fn wf(&self) -> bool {
        &&& self.memory_set.wf()
        &&& self.syscall_times@.len() == MAX_SYSCALL_NUM
        &&& self.priority >= MIN_PRIORITY
        &&& self.pass == pass_of(self.priority as int)
        &&& self.heap_bottom <= self.program_brk
    }

    /// All fields but the address space agree.
    pub open spec fn same_but_memory(&self, o: &TaskControlBlock) -> bool {
        &&& self.pid == o.pid
        &&& self.task_status == o.task_status
        &&& self.task_cx == o.task_cx
        &&& self.trap_cx == o.trap_cx
        &&& self.parent == o.parent
        &&& self.first_run_time == o.first_run_time
        &&& self.syscall_times@ == o.syscall_times@
        &&& self.exit_code == o.exit_code
        &&& self.priority == o.priority
        &&& self.pass == o.pass
        &&& self.stride == o.stride
        &&& self.heap_bottom == o.heap_bottom
        &&& self.program_brk == o.program_brk
    }

    /// A ready task `pid` running `image`: default priority, stride zero,
    /// no parent, accounting cleared.
    pub fn new(pid: usize, image: TaskImage) -> (r: TaskControlBlock)
        requires
            image.wf(),
        ensures
            r.wf(),
            r.pid == pid,
            r.task_status == TaskStatus::Ready,
            r.task_cx == image.task_cx,
            r.trap_cx == image.trap_cx,
            r.memory_set@ == image.memory_set@,
            r.parent.is_none(),
            r.first_run_time.is_none(),
            r.syscall_times@ == Seq::new(MAX_SYSCALL_NUM as nat, |i: int| 0u32),
            r.exit_code == 0,
            r.priority == DEFAULT_PRIORITY,
            r.pass == pass_of(DEFAULT_PRIORITY as int),
            r.stride == 0,
            r.heap_bottom == image.heap_bottom,
            r.program_brk == image.heap_bottom,
    {
        TaskControlBlock {
            pid,
            task_status: TaskStatus::Ready,
            task_cx: image.task_cx,
            trap_cx: image.trap_cx,
            memory_set: image.memory_set,
            parent: None,
            first_run_time: None,
            syscall_times: zero_counts(MAX_SYSCALL_NUM),
            exit_code: 0,
            priority: DEFAULT_PRIORITY,
            pass: BIG_STRIDE / (DEFAULT_PRIORITY as u64),
            stride: 0,
            heap_bottom: image.heap_bottom,
            program_brk: image.heap_bottom,
        }
    }

    /// The task's identity.
    pub fn getpid(&self) -> (r: usize)
        ensures
            r == self.pid,
    {
        self.pid
    }

    /// Whether the task has exited.
    pub fn is_zombie(&self) -> (r: bool)
        ensures
            r == (self.task_status == TaskStatus::Exited),
    {
        self.task_status == TaskStatus::Exited
    }

    /// Sets the scheduling weight. Below `MIN_PRIORITY` nothing changes and
    /// -1 is returned; otherwise the weight becomes `prio`, `pass` becomes
    /// `BIG_STRIDE / prio` and `prio` is returned. The stride is never touched.
    /// For `prio` above `BIG_STRIDE` the pass is 0.
    pub fn set_priority(&mut self, prio: isize) -> (r: isize)
        requires
            old(self).wf(),
        ensures
            final(self).wf(),
            final(self).stride == old(self).stride,
            prio < MIN_PRIORITY ==> r == -1 && *final(self) == *old(self),
            prio >= MIN_PRIORITY ==> r == prio && final(self).priority == prio && final(self).pass == pass_of(
                prio as int,
            ) && *final(self) == (TaskControlBlock {
                priority: prio,
                pass: final(self).pass,
                ..*old(self)
            }),
    {
        if prio < MIN_PRIORITY {
            return -1;
        }
        self.priority = prio;
        self.pass = BIG_STRIDE / (prio as u64);
        prio
    }

    /// Records `now` as the first-scheduled time, unless one is recorded.
    pub fn record_first_switch(&mut self, now: usize)
        ensures
            *final(self) == (TaskControlBlock {
                first_run_time: if old(self).first_run_time.is_some() {
                    old(self).first_run_time
                } else {
                    Some(now)
                },
                ..*old(self)
            }),
    {
        if self.first_run_time.is_none() {
            self.first_run_time = Some(now);
        }
    }

    /// Counts one more invocation of system call `id`; a count already at
    /// its largest value stays there.
    pub fn add_syscall_time(&mut self, id: usize)
        requires
            old(self).wf(),
            id < MAX_SYSCALL_NUM,
        ensures
            final(self).wf(),
            final(self).syscall_times@ == old(self).syscall_times@.update(
                id as int,
                if old(self).syscall_times@[id as int] < u32::MAX {
                    (old(self).syscall_times@[id as int] + 1) as u32
                } else {
                    u32::MAX
                },
            ),
            final(self).same_but_syscalls(old(self)),
    {
        let c = self.syscall_times[id];
        if c < u32::MAX {
            self.syscall_times.set(id, c + 1);
        }
    }

    /// All fields but the system-call counters agree.
    pub open spec fn same_but_syscalls(&self, o: &TaskControlBlock) -> bool {
        &&& self.pid == o.pid
        &&& self.task_status == o.task_status
        &&& self.task_cx == o.task_cx
        &&& self.trap_cx == o.trap_cx
        &&& self.memory_set == o.memory_set
        &&& self.parent == o.parent
        &&& self.first_run_time == o.first_run_time
        &&& self.exit_code == o.exit_code
        &&& self.priority == o.priority
        &&& self.pass == o.pass
        &&& self.stride == o.stride
        &&& self.heap_bottom == o.heap_bottom
        &&& self.program_brk == o.program_brk
    }

    /// Moves the program break by `size` bytes. Where the new break would
    /// fall below the heap bottom or leave the address space, nothing
    /// changes and `None` is returned; otherwise the old break is returned.
    pub fn change_program_brk(&mut self, size: i32) -> (r: Option<usize>)
        requires
            old(self).wf(),
        ensures
            final(self).wf(),
            ({
                let nb = old(self).program_brk + size;
                if old(self).heap_bottom <= nb <= usize::MAX {
                    r == Some(old(self).program_brk) && *final(self) == (TaskControlBlock {
                        program_brk: nb as usize,
                        ..*old(self)
                    })
                } else {
                    r.is_none() && *final(self) == *old(self)
                }
            }),
    {
        let old_brk = self.program_brk;
        if size >= 0 {
            let grow = size as usize;
            if grow > usize::MAX - old_brk {
                return None;
            }
            self.program_brk = old_brk + grow;
        } else {
            let shrink = (0 - (size as i64)) as usize;
            if shrink > old_brk || old_brk - shrink < self.heap_bottom {
                return None;
            }
            self.program_brk = old_brk - shrink;
        }
        Some(old_brk)
    }

    /// The child that `fork` makes: identity `pid`, parent `self`, a deep
    /// copy of its address space, the same saved state and weight, except
    /// that the child's system call returns 0; stride and accounting cleared.
    pub fn fork_child(&self, pid: usize) -> (r: TaskControlBlock)
        requires
            self.wf(),
        ensures
            is_fork_child(&r, self, pid),
            r.stride == 0,
    {
        let mut trap_cx = self.trap_cx;
        trap_cx.x[RET_REG] = 0;
        TaskControlBlock {
            pid,
            task_status: TaskStatus::Ready,
            task_cx: self.task_cx,
            trap_cx,
            memory_set: self.memory_set.duplicate(),
            parent: Some(self.pid),
            first_run_time: None,
            syscall_times: zero_counts(MAX_SYSCALL_NUM),
            exit_code: 0,
            priority: self.priority,
            pass: self.pass,
            stride: 0,
            heap_bottom: self.heap_bottom,
            program_brk: self.program_brk,
        }
    }

    /// Replaces the program of `self` by `image`, in place: identity, family,
    /// accounting and scheduling state stay.
    pub fn exec(&mut self, image: TaskImage)
        requires
            old(self).wf(),
            image.wf(),
        ensures
            final(self).wf(),
            final(self).memory_set@ == image.memory_set@,
            final(self).task_cx == image.task_cx,
            final(self).trap_cx == image.trap_cx,
            final(self).heap_bottom == image.heap_bottom,
            final(self).program_brk == image.heap_bottom,
            final(self).pid == old(self).pid,
            final(self).task_status == old(self).task_status,
            final(self).parent == old(self).parent,
            final(self).first_run_time == old(self).first_run_time,
            final(self).syscall_times == old(self).syscall_times,
            final(self).exit_code == old(self).exit_code,
            final(self).priority == old(self).priority,
            final(self).pass == old(self).pass,
            final(self).stride == old(self).stride,
    {
        self.memory_set = image.memory_set;
        self.task_cx = image.task_cx;
        self.trap_cx = image.trap_cx;
        self.heap_bottom = image.heap_bottom;
        self.program_brk = image.heap_bottom;
    }

    /// A report on `self`, `now` being the current time.
    pub fn info(&self, now: usize) -> (r: TaskInfo)
        ensures
            r.status == self.task_status,
            r.syscall_times@ == self.syscall_times@,
            r.time == (match self.first_run_time {
                Some(t) => if now >= t { (now - t) as usize } else { 0 },
                None => 0,
            }),
    {
        let time = match self.first_run_time {
            Some(t) => if now >= t { now - t } else { 0 },
            None => 0,
        };
        TaskInfo { status: self.task_status, syscall_times: copy_counts(&self.syscall_times), time }
    }
}

} // verus!
