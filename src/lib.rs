//! Task scheduling and per-task address-space management for a single-core
//! preemptive kernel: a stride-scheduled ready queue, task control blocks and
//! their lifecycle, the per-core processor slot, and a region allocator that
//! maps and unmaps page-aligned virtual ranges with permission bits.
pub mod config;
pub mod memory;
pub mod task;
pub mod manager;
pub mod processor;
pub mod kernel;
pub mod syscall;
