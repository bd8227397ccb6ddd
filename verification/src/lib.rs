//! Core logic of the JuliOS kernel: the ATAPI driver protocol, the ISO-9660
//! reader, the descriptor table, the mount table, the frame allocator and
//! the cooperative scheduling primitives, as functions of plain values with
//! their contracts. Port, memory and interrupt access stay with the caller,
//! who runs the state machines of this library against the hardware.

pub mod drivers;
pub mod fd;
pub mod fs;
pub mod interrupts;
pub mod memory;
pub mod proc;
pub mod syscalls;
pub mod task;
pub mod utils;
