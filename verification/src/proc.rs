//! Kernel threads and the table that schedules them.

pub mod scheduler;
pub mod thread;
