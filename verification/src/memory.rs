//! Physical memory: which frames are free, and with which rights the
//! sections of the kernel are mapped.

pub mod frame_allocator;
pub mod paging;
