//! The stream of keyboard scancodes: the interrupt handler puts them into a
//! bounded queue, a task takes them out in the same order.

use super::TaskId;
use super::WakerSlot;
use crate::utils::queue::byte_items;
use crate::utils::queue::byte_limit;
use crate::utils::queue::byte_queue_new;
use crate::utils::queue::byte_queue_pop;
use crate::utils::queue::byte_queue_push;
use crossbeam_queue::ArrayQueue;
use vstd::prelude::*;

verus! {

/// How many scancodes the queue can hold.
pub const SCANCODE_QUEUE_CAPACITY: usize = 100;

/// What a stream holds.
pub struct ScancodeStreamView {
    /// The scancodes that wait, oldest first.
    pub queue: Seq<u8>,
    /// How many scancodes the queue can hold.
    pub capacity: nat,
    /// The task that waits for the next scancode.
    pub waiter: Option<TaskId>,
}

/// What became of a scancode.
#[derive(Debug, Clone, Copy, PartialEq, Eq, Structural)]
pub enum ScancodeOutcome {
    /// It is queued; the task to wake, if one waits.
    Queued(Option<TaskId>),
    /// The queue was full and the scancode is lost.
    Dropped,
}

/// The stream of scancodes. It never ends.
pub struct ScancodeStream {
    queue: ArrayQueue<u8>,
    waker: WakerSlot,
}

impl View for ScancodeStream {
    type V = ScancodeStreamView;

    closed spec fn view(&self) -> ScancodeStreamView {
        ScancodeStreamView {
            queue: byte_items(self.queue),
            capacity: byte_limit(self.queue),
            waiter: self.waker@,
        }
    }
}

impl ScancodeStreamView {
    /// The stream after a poll by `task`: the oldest scancode is gone;
    /// where there was none, `task` waits.
    pub open spec fn polled(self, task: TaskId) -> (ScancodeStreamView, Option<u8>) {
        if self.queue.len() > 0 {
            (ScancodeStreamView { queue: self.queue.skip(1), ..self }, Some(self.queue[0]))
        } else {
            (ScancodeStreamView { waiter: Some(task), ..self }, None)
        }
    }

    /// The stream after the keyboard sent `scancode`: it is queued behind
    /// the others and the waiter is woken, unless the queue is full.
    pub open spec fn added(self, scancode: u8) -> (ScancodeStreamView, ScancodeOutcome) {
        if self.queue.len() < self.capacity {
            (
                ScancodeStreamView { queue: self.queue.push(scancode), waiter: None, ..self },
                ScancodeOutcome::Queued(self.waiter),
            )
        } else {
            (self, ScancodeOutcome::Dropped)
        }
    }
}

impl ScancodeStream {
    /// An empty stream.
    pub fn new() -> (stream: Self)
        ensures
            stream@ == (ScancodeStreamView {
                queue: Seq::empty(),
                capacity: SCANCODE_QUEUE_CAPACITY as nat,
                waiter: None,
            }),
    {
        ScancodeStream { queue: byte_queue_new(SCANCODE_QUEUE_CAPACITY), waker: WakerSlot::new() }
    }

    /// One poll by `task`: the oldest scancode, or `None` where none waits,
    /// which leaves `task` to be woken by the next one.
    pub fn poll_next(&mut self, task: TaskId) -> (scancode: Option<u8>)
        ensures
            (final(self)@, scancode) == old(self)@.polled(task),
    {
        match byte_queue_pop(&mut self.queue) {
            Some(scancode) => {
                return Some(scancode);
            },
            None => {},
        }
        self.waker.register(task);
        match byte_queue_pop(&mut self.queue) {
            Some(scancode) => {
                self.waker.take();
                Some(scancode)
            },
            None => None,
        }
    }

    /// The keyboard interrupt handler's part: queues `scancode` and returns
    /// the task to wake; a scancode that finds the queue full is dropped.
    pub fn add_scancode(&mut self, scancode: u8) -> (outcome: ScancodeOutcome)
        ensures
            (final(self)@, outcome) == old(self)@.added(scancode),
    {
        if byte_queue_push(&mut self.queue, scancode) {
            ScancodeOutcome::Queued(self.waker.wake())
        } else {
            ScancodeOutcome::Dropped
        }
    }

    /// A scancode that went into an empty stream is the next to come out.
    pub proof fn lemma_scancode_comes_out(view: ScancodeStreamView, scancode: u8, task: TaskId)
        requires
            view.queue.len() == 0,
            view.capacity > 0,
        ensures
            view.added(scancode).1 == ScancodeOutcome::Queued(view.waiter),
            view.added(scancode).0.polled(task).1 == Some(scancode),
    {
    }
}

/// What the keyboard interrupt handler calls: see
/// `ScancodeStream::add_scancode`.
pub fn add_scancode(stream: &mut ScancodeStream, scancode: u8) -> (outcome: ScancodeOutcome)
    ensures
        (final(stream)@, outcome) == old(stream)@.added(scancode),
{
    stream.add_scancode(scancode)
}

} // verus!
