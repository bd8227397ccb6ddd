//! Building blocks that several parts of the kernel share.

pub mod mutex;
pub mod queue;
