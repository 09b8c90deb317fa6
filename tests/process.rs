use os_core::kernel::Kernel;
use os_core::memory::MemorySet;
use os_core::syscall::{
    sys_exec, sys_exit, sys_fork, sys_get_time, sys_getpid, sys_mmap, sys_munmap, sys_sbrk,
    sys_set_priority, sys_spawn, sys_task_info, sys_waitpid, sys_yield,
};
use os_core::task::{TaskContext, TaskImage, TaskInfo, TaskStatus, TrapContext};

fn proc_image() -> TaskImage {
    TaskImage {
        memory_set: MemorySet::new_bare(),
        task_cx: TaskContext::zero_init(),
        trap_cx: TrapContext { x: [7; 32], sstatus: 0, sepc: 0x1000 },
        heap_bottom: 0x10000,
    }
}

/// A kernel with one task running.
fn booted() -> Kernel {
    let mut k = Kernel::new();
    assert_eq!(k.create_task(proc_image()), 0);
    assert!(k.run_next_task(5).is_some());
    k
}

#[test]
fn run_next_on_empty_queue_is_none() {
    let mut k = Kernel::new();
    assert!(k.run_next_task(0).is_none());
    assert!(k.processor.current.is_none());
}

#[test]
fn run_next_marks_running_and_records_first_time_once() {
    let mut k = booted();
    let t = k.processor.current.as_ref().unwrap();
    assert_eq!(t.task_status, TaskStatus::Running);
    assert_eq!(t.first_run_time, Some(5));
    assert_eq!(sys_yield(&mut k, TaskContext::zero_init()), 0);
    assert!(k.processor.current.is_none());
    assert_eq!(k.manager.ready_queue[0].task_status, TaskStatus::Ready);
    assert!(k.run_next_task(99).is_some());
    assert_eq!(k.processor.current.as_ref().unwrap().first_run_time, Some(5));
}

#[test]
fn getpid_returns_current_identity() {
    let k = booted();
    assert_eq!(sys_getpid(&k), 0);
}

#[test]
fn fork_child_memory_is_a_deep_copy() {
    let mut k = booted();
    assert_eq!(sys_mmap(&mut k, 0x3000, 0x1000, 3), 0);
    assert!(k.write_current_byte(0x3000, 1));
    let child = sys_fork(&mut k);
    assert_eq!(child, 1);
    let c = &k.manager.ready_queue[0];
    assert_eq!(c.parent, Some(0));
    assert_eq!(c.trap_cx.x[10], 0);
    assert_eq!(c.trap_cx.x[11], 7);
    assert_eq!(c.memory_set.read_byte(0x3000), Some(1));
    // the parent yields; the child has the smaller stride and runs
    sys_yield(&mut k, TaskContext::zero_init());
    k.run_next_task(10).unwrap();
    assert_eq!(sys_getpid(&k), 1);
    assert!(k.write_current_byte(0x3000, 9));
    assert_eq!(k.read_current_byte(0x3000), Some(9));
    assert_eq!(sys_munmap(&mut k, 0x3000, 0x1000), 0);
    assert_eq!(k.read_current_byte(0x3000), None);
    // back to the parent, whose mapping is untouched
    sys_yield(&mut k, TaskContext::zero_init());
    k.run_next_task(20).unwrap();
    assert_eq!(sys_getpid(&k), 0);
    assert_eq!(k.read_current_byte(0x3000), Some(1));
}

#[test]
fn wait_reaps_exited_child_then_finds_none() {
    let mut k = booted();
    assert_eq!(sys_fork(&mut k), 1);
    sys_yield(&mut k, TaskContext::zero_init());
    k.run_next_task(1).unwrap();
    assert_eq!(sys_getpid(&k), 1);
    sys_exit(&mut k, 42);
    k.run_next_task(2).unwrap();
    assert_eq!(sys_getpid(&k), 0);
    let mut code = 0;
    assert_eq!(sys_waitpid(&mut k, -1, &mut code), 1);
    assert_eq!(code, 42);
    let mut code2 = 5;
    assert_eq!(sys_waitpid(&mut k, -1, &mut code2), -1);
    assert_eq!(code2, 5);
}

#[test]
fn wait_on_running_child_returns_minus_two() {
    let mut k = booted();
    assert_eq!(sys_fork(&mut k), 1);
    let mut code = 3;
    assert_eq!(sys_waitpid(&mut k, -1, &mut code), -2);
    assert_eq!(sys_waitpid(&mut k, 1, &mut code), -2);
    assert_eq!(sys_waitpid(&mut k, 2, &mut code), -1);
    assert_eq!(sys_waitpid(&mut k, -7, &mut code), -1);
    assert_eq!(code, 3);
    assert_eq!(k.family.len(), 1);
}

#[test]
fn wait_selects_by_identity() {
    let mut k = booted();
    assert_eq!(sys_fork(&mut k), 1);
    assert_eq!(sys_fork(&mut k), 2);
    sys_yield(&mut k, TaskContext::zero_init());
    // queue: child 1, child 2, parent; strides: pass, pass, 2 * pass
    k.run_next_task(1).unwrap();
    sys_exit(&mut k, 11);
    k.run_next_task(1).unwrap();
    sys_exit(&mut k, 22);
    k.run_next_task(1).unwrap();
    assert_eq!(sys_getpid(&k), 0);
    let mut code = 0;
    assert_eq!(sys_waitpid(&mut k, 2, &mut code), 2);
    assert_eq!(code, 22);
    assert_eq!(sys_waitpid(&mut k, 2, &mut code), -1);
    assert_eq!(sys_waitpid(&mut k, -1, &mut code), 1);
    assert_eq!(code, 11);
}

#[test]
fn exit_drops_links_to_own_children() {
    let mut k = booted();
    assert_eq!(sys_fork(&mut k), 1);
    sys_exit(&mut k, 0);
    assert!(k.family.is_empty());
    assert!(k.processor.current.is_none());
}

#[test]
fn spawn_without_image_fails() {
    let mut k = booted();
    assert_eq!(sys_spawn(&mut k, None), -1);
    assert!(k.manager.ready_queue.is_empty());
    assert!(k.family.is_empty());
}

#[test]
fn spawn_links_and_queues_child() {
    let mut k = booted();
    let mut im = proc_image();
    assert_eq!(im.memory_set.allocate_new_space(0x1000, 0x1000, 5), 0);
    assert_eq!(sys_spawn(&mut k, Some(im)), 1);
    let c = &k.manager.ready_queue[0];
    assert_eq!(c.pid, 1);
    assert_eq!(c.parent, Some(0));
    assert_eq!(c.memory_set.areas.len(), 1);
    assert_eq!(k.family[0].parent, 0);
    assert_eq!(k.family[0].child, 1);
    assert!(k.family[0].exit_code.is_none());
}

#[test]
fn exec_replaces_program_keeping_identity() {
    let mut k = booted();
    assert_eq!(sys_mmap(&mut k, 0x3000, 0x1000, 3), 0);
    assert_eq!(sys_exec(&mut k, None), -1);
    assert_eq!(k.processor.current.as_ref().unwrap().memory_set.areas.len(), 1);
    let mut im = proc_image();
    im.trap_cx.sepc = 0x2000;
    assert_eq!(sys_exec(&mut k, Some(im)), 0);
    let t = k.processor.current.as_ref().unwrap();
    assert_eq!(t.pid, 0);
    assert!(t.memory_set.areas.is_empty());
    assert_eq!(t.trap_cx.sepc, 0x2000);
}

#[test]
fn set_priority_applies_to_current_task() {
    let mut k = booted();
    assert_eq!(sys_set_priority(&mut k, 1), -1);
    assert_eq!(k.processor.current.as_ref().unwrap().pass, 62_500);
    assert_eq!(sys_set_priority(&mut k, 5), 5);
    let t = k.processor.current.as_ref().unwrap();
    assert_eq!(t.pass, 200_000);
    assert_eq!(t.stride, 62_500);
}

#[test]
fn sbrk_moves_break_within_heap() {
    let mut k = booted();
    assert_eq!(sys_sbrk(&mut k, 0x100), 0x10000);
    assert_eq!(sys_sbrk(&mut k, -0x80), 0x10100);
    assert_eq!(k.processor.current.as_ref().unwrap().program_brk, 0x10080);
    assert_eq!(sys_sbrk(&mut k, -0x100), -1);
    assert_eq!(k.processor.current.as_ref().unwrap().program_brk, 0x10080);
}

#[test]
fn syscall_counts_and_task_info() {
    let mut k = booted();
    k.add_current_task_syscall_time(64);
    k.add_current_task_syscall_time(64);
    k.add_current_task_syscall_time(93);
    let info = sys_task_info(&k, 105);
    assert_eq!(info.status, TaskStatus::Running);
    assert_eq!(info.syscall_times[64], 2);
    assert_eq!(info.syscall_times[93], 1);
    assert_eq!(info.syscall_times[0], 0);
    assert_eq!(info.time, 100);
}

#[test]
fn task_info_new_is_cleared() {
    let info = TaskInfo::new();
    assert_eq!(info.status, TaskStatus::Ready);
    assert_eq!(info.syscall_times.len(), 500);
    assert!(info.syscall_times.iter().all(|c| *c == 0));
    assert_eq!(info.time, 0);
}

#[test]
fn get_time_splits_microseconds() {
    let tv = sys_get_time(3_000_250);
    assert_eq!(tv.sec, 3);
    assert_eq!(tv.usec, 250);
}

#[test]
fn queries_report_current_task() {
    let k = booted();
    assert_eq!(k.query_current_task_status(), TaskStatus::Running);
    assert_eq!(k.query_current_task_first_run_time(), 5);
    assert_eq!(k.current_task().unwrap().pid, 0);
}

#[test]
fn take_current_task_leaves_core_idle() {
    let mut k = booted();
    let t = k.take_current_task().unwrap();
    assert_eq!(t.pid, 0);
    assert!(k.current_task().is_none());
}

#[test]
fn mmap_zero_length_succeeds_and_munmap_needs_whole_regions() {
    let mut k = booted();
    assert_eq!(sys_mmap(&mut k, 0x1000, 0, 1), 0);
    assert!(k.processor.current.as_ref().unwrap().memory_set.areas.is_empty());
    assert_eq!(sys_mmap(&mut k, 0x1000, 0x1000, 1), 0);
    assert_eq!(sys_munmap(&mut k, 0x1000, 0x800), -1);
    assert_eq!(k.processor.current.as_ref().unwrap().memory_set.areas.len(), 1);
    assert_eq!(sys_munmap(&mut k, 0x1000, 0x1000), 0);
}

#[test]
fn forked_identities_are_fresh() {
    let mut k = booted();
    let a = sys_fork(&mut k);
    let b = sys_fork(&mut k);
    assert_ne!(a, b);
    assert_ne!(a, 0);
    assert_ne!(b, 0);
    for t in k.manager.ready_queue.iter() {
        assert_ne!(t.pid, 0);
    }
}
