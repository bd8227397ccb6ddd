//! Cooperative tasks: their identifiers, the slot that remembers whom to
//! wake, the executor and the keyboard stream.

use vstd::prelude::*;

pub mod keyboard;
pub mod yield_executor;

verus! {

/// Identifier of a task.
#[derive(Debug, Clone, Copy, PartialEq, Eq, PartialOrd, Ord, Structural)]
pub struct TaskId(pub u64);

impl TaskId {
    /// Takes the next identifier from `counter` and moves the counter on.
    pub fn new(counter: &mut u64) -> (id: Self)
        ensures
            id.0 == *old(counter),
            *final(counter) == if *old(counter) == u64::MAX {
                0
            } else {
                (*old(counter) + 1) as u64
            },
    {
        let id = TaskId(*counter);
        *counter = counter.wrapping_add(1);
        id
    }
}

/// A slot for one waker: the task to wake when what it waits for happens.
/// To wake a task is to put its identifier into the ready queue of its
/// executor, which is left to whoever empties the slot.
#[derive(Debug, Clone, Copy)]
pub struct WakerSlot {
    task: Option<TaskId>,
}

impl View for WakerSlot {
    type V = Option<TaskId>;

    closed spec fn view(&self) -> Option<TaskId> {
        self.task
    }
}

impl WakerSlot {
    /// An empty slot.
    pub fn new() -> (slot: Self)
        ensures
            slot@ is None,
    {
        WakerSlot { task: None }
    }

    /// Leaves `task` in the slot, in place of what was there.
    pub fn register(&mut self, task: TaskId)
        ensures
            final(self)@ == Some(task),
    {
        self.task = Some(task);
    }

    /// Empties the slot and returns what was there.
    pub fn take(&mut self) -> (task: Option<TaskId>)
        ensures
            task == old(self)@,
            final(self)@ is None,
    {
        let task = self.task;
        self.task = None;
        task
    }

    /// Empties the slot and returns the task to wake, if there was one.
    pub fn wake(&mut self) -> (task: Option<TaskId>)
        ensures
            task == old(self)@,
            final(self)@ is None,
    {
        self.take()
    }
}

} // verus!
