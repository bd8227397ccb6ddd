//! Kernel threads as entries of a table: what is saved of a thread while it
//! does not run.

use vstd::prelude::*;

verus! {

/// Size in bytes of the stack of a thread.
pub const STACK_SIZE: u64 = 4096 * 20;

/// Identifier of a thread.
#[derive(Debug, Clone, Copy, PartialEq, Eq, PartialOrd, Ord, Structural)]
pub struct ThreadId(pub u64);

impl ThreadId {
    /// Takes the next identifier from `counter` and moves the counter on.
    pub fn new(counter: &mut u64) -> (id: Self)
        ensures
            id.0 == *old(counter),
            *final(counter) == if *old(counter) == u64::MAX {
                0
            } else {
                (*old(counter) + 1) as u64
            },
    {
        let id = ThreadId(*counter);
        *counter = counter.wrapping_add(1);
        id
    }
}

/// What is saved of a thread.
#[derive(Debug, Clone, Copy, PartialEq, Eq, Structural)]
pub struct Thread {
    /// Identifier of the thread.
    pub id: ThreadId,
    /// Address of the first instruction.
    pub entry_point: u64,
    /// Whether the thread has run before.
    pub started: bool,
    /// Saved stack pointer.
    pub rsp: u64,
    /// Lowest address of the stack.
    pub base_stack: u64,
}

impl Thread {
    /// A thread that has not run, with a stack of `STACK_SIZE` bytes from
    /// `stack_bottom` up; the stack pointer begins at the top. `None` where
    /// the stack would pass the end of the address space.
    pub fn new(id: ThreadId, entry_point: u64, stack_bottom: u64) -> (thread: Option<Self>)
        ensures
            thread == if stack_bottom + STACK_SIZE <= u64::MAX {
                Some(
                    Thread {
                        id,
                        entry_point,
                        started: false,
                        rsp: (stack_bottom + STACK_SIZE) as u64,
                        base_stack: stack_bottom,
                    },
                )
            } else {
                None
            },
    {
        match stack_bottom.checked_add(STACK_SIZE) {
            Some(rsp) => Some(
                Thread { id, entry_point, started: false, rsp, base_stack: stack_bottom },
            ),
            None => None,
        }
    }

    /// The kernel's own thread: identifier zero, already running, without a
    /// stack of its own.
    pub open spec fn spec_kernel() -> Thread {
        Thread { id: ThreadId(0), entry_point: 0, started: true, rsp: 0, base_stack: 0 }
    }

    /// The kernel's own thread.
    pub fn kernel() -> (thread: Self)
        ensures
            thread == Self::spec_kernel(),
    {
        Thread { id: ThreadId(0), entry_point: 0, started: true, rsp: 0, base_stack: 0 }
    }
}

} // verus!
