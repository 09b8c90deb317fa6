//! The process-management system calls, as the trap layer invokes them on
//! behalf of the task current on the core.
use vstd::prelude::*;
use crate::kernel::{first_reapable, link_matches, links_without_parent, record_exit, ChildLink, Kernel};
use crate::memory::{allocate_ok, areas_outside, deallocate_ok, allocated};
use crate::task::{charged, is_fork_child, pass_of, TaskContext, TaskControlBlock, TaskImage, TaskInfo, TaskStatus, TimeVal};

verus! {

/// The current task exits with `exit_code`. The caller then switches to the
/// idle context.
pub fn sys_exit(k: &mut Kernel, exit_code: i32)
    requires
        old(k).wf(),
        old(k).has_current(),
    ensures
        final(k).wf(),
        !final(k).has_current(),
        final(k).manager == old(k).manager,
        final(k).family@ == record_exit(
            links_without_parent(old(k).family@, old(k).cur().pid),
            old(k).cur().pid,
            exit_code,
        ),
        final(k).processor.idle_task_cx == old(k).processor.idle_task_cx,
        final(k).next_pid == old(k).next_pid,
{
    k.exit_current_and_run_next(exit_code);
}

/// The current task, whose context the switch saved as `cx`, gives up the
/// core and is queued again. It sees 0 when next resumed.
pub fn sys_yield(k: &mut Kernel, cx: TaskContext) -> (r: isize)
    requires
        old(k).wf(),
        old(k).has_current(),
    ensures
        r == 0,
        final(k).wf(),
        !final(k).has_current(),
        final(k).manager.ready_queue@ == old(k).manager.ready_queue@.push(
            TaskControlBlock {
                task_status: TaskStatus::Ready,
                task_cx: cx,
                stride: charged(old(k).cur().stride, old(k).cur().pass),
                ..old(k).cur()
            },
        ),
        final(k).family == old(k).family,
        final(k).processor.idle_task_cx == old(k).processor.idle_task_cx,
        final(k).next_pid == old(k).next_pid,
{
    k.suspend_current_and_run_next(cx);
    0
}

/// The current task's identity.
pub fn sys_getpid(k: &Kernel) -> (r: isize)
    requires
        k.has_current(),
    ensures
        r == #[verifier::truncate] (k.cur().pid as isize),
{
    #[verifier::truncate] (k.current_pid() as isize)
}

/// Forks the current task; returns the child's identity.
pub fn sys_fork(k: &mut Kernel) -> (r: isize)
    requires
        old(k).wf(),
        old(k).has_current(),
        old(k).next_pid < usize::MAX,
    ensures
        final(k).wf(),
        r == #[verifier::truncate] (old(k).next_pid as isize),
        !old(k).pid_live(old(k).next_pid),
        final(k).next_pid == old(k).next_pid + 1,
        final(k).processor == old(k).processor,
        final(k).family@ == old(k).family@.push(
            ChildLink { parent: old(k).cur().pid, child: old(k).next_pid, exit_code: None },
        ),
        final(k).manager.ready_queue@.drop_last() == old(k).manager.ready_queue@,
        final(k).manager.ready_queue@.len() == old(k).manager.ready_queue@.len() + 1,
        is_fork_child(&final(k).manager.ready_queue@.last(), &old(k).cur(), old(k).next_pid),
        final(k).manager.ready_queue@.last().stride == charged(0, old(k).cur().pass),
{
    k.fork()
}

/// Replaces the current task's program by `image`, the loader's result for
/// the requested path; -1 with nothing changed where there was none.
pub fn sys_exec(k: &mut Kernel, image: Option<TaskImage>) -> (r: isize)
    requires
        old(k).wf(),
        old(k).has_current(),
        image.is_some() ==> image.unwrap().wf(),
    ensures
        final(k).wf(),
        image.is_none() ==> r == -1 && *final(k) == *old(k),
        image.is_some() ==> {
            let t = final(k).cur();
            let o = old(k).cur();
            let im = image.unwrap();
            &&& r == 0
            &&& final(k).has_current()
            &&& final(k).only_current_changed(old(k))
            &&& t.memory_set@ == im.memory_set@
            &&& t.task_cx == im.task_cx
            &&& t.trap_cx == im.trap_cx
            &&& t.program_brk == im.heap_bottom
            &&& t.pid == o.pid
            &&& t.task_status == o.task_status
            &&& t.parent == o.parent
            &&& t.priority == o.priority
            &&& t.stride == o.stride
        },
{
    k.exec(image)
}

/// Waits for a child; see `Kernel::wait`.
pub fn sys_waitpid(k: &mut Kernel, pid: isize, exit_code: &mut i32) -> (r: isize)
    requires
        old(k).wf(),
        old(k).has_current(),
    ensures
        final(k).wf(),
        final(k).processor == old(k).processor,
        final(k).manager == old(k).manager,
        ({
            let f = old(k).family@;
            let me = old(k).cur().pid;
            &&& (forall|i: int| 0 <= i < f.len() ==> !link_matches(#[trigger] f[i], me, pid)) ==> r == -1
                && final(k).family@ == f && *final(exit_code) == *old(exit_code)
            &&& (exists|i: int| 0 <= i < f.len() && link_matches(#[trigger] f[i], me, pid)) && (forall|i: int|
                0 <= i < f.len() && link_matches(#[trigger] f[i], me, pid) ==> f[i].exit_code.is_none()) ==> r
                == -2 && final(k).family@ == f && *final(exit_code) == *old(exit_code)
            &&& forall|i: int| #[trigger] first_reapable(f, me, pid, i) ==> r == #[verifier::truncate] (
            f[i].child as isize) && *final(exit_code) == f[i].exit_code.unwrap() && final(k).family@ == f.remove(i)
        }),
{
    k.wait(pid, exit_code)
}

/// The current time, given in microseconds, as seconds and microseconds.
pub fn sys_get_time(now_us: usize) -> (r: TimeVal)
    ensures
        r.sec == now_us / 1_000_000,
        r.usec == now_us % 1_000_000,
{
    TimeVal::from_us(now_us)
}

/// The current task's report, `now` being the current time.
pub fn sys_task_info(k: &Kernel, now: usize) -> (r: TaskInfo)
    requires
        k.has_current(),
    ensures
        r.status == k.cur().task_status,
        r.syscall_times@ == k.cur().syscall_times@,
        r.time == (match k.cur().first_run_time {
            Some(t) => if now >= t { (now - t) as usize } else { 0 },
            None => 0,
        }),
{
    k.task_info(now)
}

/// Maps `[start, start + len)` into the current task with permissions
/// `port`; see `MemorySet::allocate_new_space`.
pub fn sys_mmap(k: &mut Kernel, start: usize, len: usize, port: usize) -> (r: isize)
    requires
        old(k).wf(),
        old(k).has_current(),
    ensures
        final(k).wf(),
        final(k).has_current(),
        final(k).only_current_changed(old(k)),
        final(k).cur().same_but_memory(&old(k).cur()),
        allocate_ok(old(k).cur().memory_set@, start as int, len as int, port as int) ==> r == 0
            && final(k).cur().memory_set@ == allocated(
            old(k).cur().memory_set@,
            start as int,
            len as int,
            port as int,
        ),
        !allocate_ok(old(k).cur().memory_set@, start as int, len as int, port as int) ==> r == -1
            && final(k).cur().memory_set@ == old(k).cur().memory_set@,
{
    k.allocate_new_space(start, len, port)
}

/// Unmaps `[start, start + len)` from the current task; see
/// `MemorySet::deallocate_space`.
pub fn sys_munmap(k: &mut Kernel, start: usize, len: usize) -> (r: isize)
    requires
        old(k).wf(),
        old(k).has_current(),
    ensures
        final(k).wf(),
        final(k).has_current(),
        final(k).only_current_changed(old(k)),
        final(k).cur().same_but_memory(&old(k).cur()),
        deallocate_ok(old(k).cur().memory_set@, start as int, len as int) ==> r == 0
            && final(k).cur().memory_set@ == areas_outside(
            old(k).cur().memory_set@,
            start as int,
            start + len,
        ),
        !deallocate_ok(old(k).cur().memory_set@, start as int, len as int) ==> r == -1
            && final(k).cur().memory_set@ == old(k).cur().memory_set@,
{
    k.deallocate_space(start, len)
}

/// Moves the current task's program break by `size`; returns the old break,
/// or -1 with nothing changed where the new one is out of range.
pub fn sys_sbrk(k: &mut Kernel, size: i32) -> (r: isize)
    requires
        old(k).wf(),
        old(k).has_current(),
    ensures
        final(k).wf(),
        final(k).has_current(),
        final(k).only_current_changed(old(k)),
        ({
            let o = old(k).cur();
            let nb = o.program_brk + size;
            if o.heap_bottom <= nb <= usize::MAX {
                r == #[verifier::truncate] (o.program_brk as isize) && final(k).cur() == (TaskControlBlock {
                    program_brk: nb as usize,
                    ..o
                })
            } else {
                r == -1 && final(k).cur() == o
            }
        }),
{
    match k.change_program_brk(size) {
        Some(old_brk) => #[verifier::truncate] (old_brk as isize),
        None => -1,
    }
}

/// Starts a child of the current task running `image`, the loader's result
/// for the requested name; see `Kernel::spawn`.
pub fn sys_spawn(k: &mut Kernel, image: Option<TaskImage>) -> (r: isize)
    requires
        old(k).wf(),
        old(k).has_current(),
        old(k).next_pid < usize::MAX,
        image.is_some() ==> image.unwrap().wf(),
    ensures
        final(k).wf(),
        image.is_none() ==> r == -1 && *final(k) == *old(k),
        image.is_some() ==> {
            let t = final(k).manager.ready_queue@.last();
            let im = image.unwrap();
            &&& r == #[verifier::truncate] (old(k).next_pid as isize)
            &&& !old(k).pid_live(old(k).next_pid)
            &&& final(k).next_pid == old(k).next_pid + 1
            &&& final(k).processor == old(k).processor
            &&& final(k).family@ == old(k).family@.push(
                ChildLink { parent: old(k).cur().pid, child: old(k).next_pid, exit_code: None },
            )
            &&& final(k).manager.ready_queue@.len() == old(k).manager.ready_queue@.len() + 1
            &&& final(k).manager.ready_queue@.drop_last() == old(k).manager.ready_queue@
            &&& t.wf()
            &&& t.pid == old(k).next_pid
            &&& t.task_status == TaskStatus::Ready
            &&& t.memory_set@ == im.memory_set@
            &&& t.task_cx == im.task_cx
            &&& t.trap_cx == im.trap_cx
            &&& t.parent == Some(old(k).cur().pid)
            &&& t.stride == charged(0, t.pass)
        },
{
    k.spawn(image)
}

/// Sets the current task's weight: -1 with nothing changed below 2,
/// otherwise `prio`, with `pass` recomputed and the stride kept.
pub fn sys_set_priority(k: &mut Kernel, prio: isize) -> (r: isize)
    requires
        old(k).wf(),
        old(k).has_current(),
    ensures
        final(k).wf(),
        final(k).has_current(),
        final(k).only_current_changed(old(k)),
        final(k).cur().stride == old(k).cur().stride,
        prio < 2 ==> r == -1 && final(k).cur() == old(k).cur(),
        prio >= 2 ==> r == prio && final(k).cur() == (TaskControlBlock {
            priority: prio,
            pass: pass_of(prio as int) as u64,
            ..old(k).cur()
        }),
{
    k.set_priority(prio)
}

} // verus!
