//! The notifier that carries "the disc has interrupted" from the interrupt
//! handler to the task that waits for it.

use crate::task::TaskId;
use crate::task::WakerSlot;
use vstd::prelude::*;

verus! {

/// What a notifier holds.
pub struct InterruptView {
    /// Whether an interrupt has arrived that nobody has taken yet.
    pub pending: bool,
    /// The task that waits for the next interrupt.
    pub waiter: Option<TaskId>,
}

/// A flag that the interrupt handler sets and the waiting task takes, with a
/// slot for the task to wake. One interrupt serves one wait.
pub struct InterruptFuture {
    pending: bool,
    waker: WakerSlot,
}

impl View for InterruptFuture {
    type V = InterruptView;

    closed spec fn view(&self) -> InterruptView {
        InterruptView { pending: self.pending, waiter: self.waker@ }
    }
}

impl InterruptView {
    /// The notifier after an interrupt: the flag is up and nobody waits any
    /// more.
    pub open spec fn marked(self) -> InterruptView {
        InterruptView { pending: true, waiter: None }
    }

    /// The notifier after the flag was taken.
    pub open spec fn popped(self) -> InterruptView {
        InterruptView { pending: false, ..self }
    }

    /// The notifier after `task` left its identifier.
    pub open spec fn registered(self, task: TaskId) -> InterruptView {
        InterruptView { waiter: Some(task), ..self }
    }

    /// The notifier after a poll by `task`: the flag is down; where it was
    /// down before, `task` waits.
    pub open spec fn polled(self, task: TaskId) -> InterruptView {
        if self.pending {
            self.popped()
        } else {
            self.registered(task)
        }
    }
}

impl InterruptFuture {
    /// A notifier with the flag down and nobody waiting.
    pub fn new() -> (notifier: Self)
        ensures
            notifier@ == (InterruptView { pending: false, waiter: None }),
    {
        InterruptFuture { pending: false, waker: WakerSlot::new() }
    }

    /// Takes the flag: returns whether it was up and leaves it down.
    pub fn pop(&mut self) -> (was_pending: bool)
        ensures
            was_pending == old(self)@.pending,
            final(self)@ == old(self)@.popped(),
    {
        let res = self.pending;
        self.pending = false;
        res
    }

    /// Leaves `task` as the one to wake at the next interrupt.
    pub fn register(&mut self, task: TaskId)
        ensures
            final(self)@ == old(self)@.registered(task),
    {
        self.waker.register(task);
    }

    /// The second look of a poll, after `register`: takes the flag, and
    /// where it was up, empties the slot.
    pub fn recheck(&mut self) -> (ready: bool)
        ensures
            ready == old(self)@.pending,
            final(self)@ == if old(self)@.pending {
                InterruptView { pending: false, waiter: None }
            } else {
                old(self)@
            },
    {
        if self.pop() {
            self.waker.take();
            true
        } else {
            false
        }
    }

    /// One poll by `task`: ready exactly when the flag was up, which takes
    /// it; else `task` is left to be woken.
    pub fn poll(&mut self, task: TaskId) -> (ready: bool)
        ensures
            ready == old(self)@.pending,
            final(self)@ == old(self)@.polled(task),
    {
        if self.pop() {
            return true;
        }
        self.register(task);
        self.recheck()
    }

    /// The interrupt handler's part: puts the flag up and returns the task
    /// to wake, if one waits.
    pub fn mark(&mut self) -> (wake: Option<TaskId>)
        ensures
            wake == old(self)@.waiter,
            final(self)@ == old(self)@.marked(),
    {
        self.pending = true;
        self.waker.wake()
    }

    /// An interrupt that arrives while `task` waits wakes `task`, and the
    /// next poll of `task` is ready.
    pub proof fn lemma_wake_reaches_waiter(view: InterruptView, task: TaskId)
        requires
            !view.pending,
        ensures
            view.polled(task).waiter == Some(task),
            view.polled(task).marked().pending,
            !view.polled(task).marked().polled(task).pending,
    {
    }

    /// An interrupt that arrives between the two looks of a poll is seen by
    /// the second look, whether it came before the task left its identifier
    /// or after.
    pub proof fn lemma_no_lost_wakeup(view: InterruptView, task: TaskId)
        ensures
            view.popped().marked().registered(task).pending,
            view.popped().registered(task).marked().pending,
            view.popped().registered(task).marked().waiter is None,
    {
    }

    /// An interrupt stays until it is taken: registering leaves the flag as
    /// it is.
    pub proof fn lemma_interrupt_kept(view: InterruptView, task: TaskId)
        ensures
            view.marked().pending,
            view.marked().registered(task).pending,
            view.marked().marked() == view.marked(),
    {
    }
}

/// What the disc interrupt handler calls: see `InterruptFuture::mark`.
pub fn mark_interrupt(notifier: &mut InterruptFuture) -> (wake: Option<TaskId>)
    ensures
        wake == old(notifier)@.waiter,
        final(notifier)@ == old(notifier)@.marked(),
{
    notifier.mark()
}

} // verus!
