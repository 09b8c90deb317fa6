use os_core::config::{BIG_STRIDE, DEFAULT_PRIORITY};
use os_core::manager::TaskManager;
use os_core::memory::MemorySet;
use os_core::task::{TaskContext, TaskControlBlock, TaskImage, TrapContext};

fn sched_image() -> TaskImage {
    TaskImage {
        memory_set: MemorySet::new_bare(),
        task_cx: TaskContext::zero_init(),
        trap_cx: TrapContext { x: [0; 32], sstatus: 0, sepc: 0 },
        heap_bottom: 0x10000,
    }
}

fn task_with_stride(pid: usize, stride: u64) -> TaskControlBlock {
    let mut t = TaskControlBlock::new(pid, sched_image());
    t.stride = stride;
    t
}

#[test]
fn fetch_from_empty_queue_is_none() {
    let mut m = TaskManager::new();
    assert!(m.fetch().is_none());
}

#[test]
fn new_task_has_default_weight() {
    let t = TaskControlBlock::new(7, sched_image());
    assert_eq!(t.pid, 7);
    assert_eq!(t.priority, DEFAULT_PRIORITY);
    assert_eq!(t.pass, 62_500);
    assert_eq!(t.stride, 0);
}

#[test]
fn fetch_takes_smallest_stride() {
    let mut m = TaskManager::new();
    let pass = BIG_STRIDE / 16;
    m.add(task_with_stride(1, 500_000));
    m.add(task_with_stride(2, 100));
    m.add(task_with_stride(3, 300_000));
    let a = m.fetch().unwrap();
    assert_eq!(a.pid, 2);
    assert_eq!(a.stride, 100 + pass);
    for t in m.ready_queue.iter() {
        assert!(a.stride <= t.stride);
    }
    assert_eq!(m.fetch().unwrap().pid, 3);
    assert_eq!(m.fetch().unwrap().pid, 1);
    assert!(m.fetch().is_none());
}

#[test]
fn fetch_breaks_ties_by_queue_order() {
    let mut m = TaskManager::new();
    m.add(task_with_stride(4, 10));
    m.add(task_with_stride(5, 10));
    m.add(task_with_stride(6, 10));
    assert_eq!(m.fetch().unwrap().pid, 4);
    assert_eq!(m.fetch().unwrap().pid, 5);
    assert_eq!(m.fetch().unwrap().pid, 6);
}

#[test]
fn add_charges_pass_each_time() {
    let mut m = TaskManager::new();
    let mut t = task_with_stride(1, 40);
    assert_eq!(t.set_priority(4), 4);
    m.add(t);
    let t = m.fetch().unwrap();
    assert_eq!(t.stride, 40 + 250_000);
    m.add(t);
    let t = m.fetch().unwrap();
    assert_eq!(t.stride, 40 + 2 * 250_000);
}

#[test]
fn add_holds_stride_at_largest_value() {
    let mut m = TaskManager::new();
    m.add(task_with_stride(1, u64::MAX - 5));
    let t = m.fetch().unwrap();
    assert_eq!(t.stride, u64::MAX);
}

#[test]
fn set_priority_below_two_is_rejected() {
    let mut t = task_with_stride(1, 77);
    for p in [1isize, 0, -1, -100] {
        assert_eq!(t.set_priority(p), -1);
        assert_eq!(t.priority, DEFAULT_PRIORITY);
        assert_eq!(t.pass, 62_500);
        assert_eq!(t.stride, 77);
    }
}

#[test]
fn set_priority_recomputes_pass_only() {
    let mut t = task_with_stride(1, 77);
    assert_eq!(t.set_priority(2), 2);
    assert_eq!(t.pass, 500_000);
    assert_eq!(t.stride, 77);
    assert_eq!(t.set_priority(3), 3);
    assert_eq!(t.pass, 333_333);
    assert_eq!(t.stride, 77);
}

#[test]
fn higher_priority_runs_more_often() {
    let mut m = TaskManager::new();
    let mut hi = task_with_stride(1, 0);
    hi.set_priority(8);
    let mut lo = task_with_stride(2, 0);
    lo.set_priority(2);
    m.add(hi);
    m.add(lo);
    let mut hi_turns = 0;
    let mut lo_turns = 0;
    for _ in 0..20 {
        let t = m.fetch().unwrap();
        if t.pid == 1 {
            hi_turns += 1;
        } else {
            lo_turns += 1;
        }
        m.add(t);
    }
    assert_eq!(hi_turns, 16);
    assert_eq!(lo_turns, 4);
}
