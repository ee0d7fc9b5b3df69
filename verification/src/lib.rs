//! A verified core for a single-child syscall tracer.
//!
//! The library models the child's open-file usage from observed syscalls,
//! reads byte ranges and C strings out of the child's address space, and
//! drives the two-stop-per-syscall trace loop, dispatching pre- and
//! post-handlers from a per-child configuration table.

pub mod dispatch;
pub mod engine;
pub mod file_state;
pub mod memory;
pub mod ptrace;
pub mod registers;
pub mod stub;
pub mod target;
