//! The vectors that the two chained interrupt controllers deliver.

use vstd::prelude::*;

verus! {

/// First vector of the first controller.
pub const PIC_1_OFFSET: u8 = 32;

/// First vector of the second controller.
pub const PIC_2_OFFSET: u8 = PIC_1_OFFSET + 8;

/// Vector of the 32-bit system call.
pub const SYSCALL_32_INTERRUPT_NUMBER: usize = 0x80;

/// The hardware interrupts that the kernel serves.
#[derive(Debug, Clone, Copy, PartialEq, Eq, Structural)]
pub enum InterruptIndex {
    /// The interval timer.
    Timer,
    /// The keyboard.
    Keyboard,
    /// The primary disc bus.
    HardDisk1,
    /// The secondary disc bus.
    HardDisk2,
}

impl InterruptIndex {
    /// The vector of the interrupt.
    pub open spec fn vector(self) -> u8 {
        match self {
            InterruptIndex::Timer => 32,
            InterruptIndex::Keyboard => 33,
            InterruptIndex::HardDisk1 => 46,
            InterruptIndex::HardDisk2 => 47,
        }
    }

    /// The vector of the interrupt.
    pub fn as_u8(self) -> (v: u8)
        ensures
            v == self.vector(),
    {
        match self {
            InterruptIndex::Timer => PIC_1_OFFSET,
            InterruptIndex::Keyboard => PIC_1_OFFSET + 1,
            InterruptIndex::HardDisk1 => PIC_1_OFFSET + 14,
            InterruptIndex::HardDisk2 => PIC_1_OFFSET + 15,
        }
    }

    /// The vector of the interrupt, as an index.
    pub fn as_usize(self) -> (v: usize)
        ensures
            v == self.vector(),
    {
        self.as_u8() as usize
    }
}

} // verus!
