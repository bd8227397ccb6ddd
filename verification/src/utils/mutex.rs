//! A mutex for cooperative tasks: a task that finds it held leaves its
//! identifier and is woken when the holder lets go.

use crate::task::TaskId;
use crate::task::WakerSlot;
use vstd::prelude::*;

verus! {

/// What a mutex holds.
pub struct AsyncMutexView<T> {
    /// Whether a guard is out.
    pub held: bool,
    /// The task to wake when the guard comes back.
    pub waiter: Option<TaskId>,
    /// The value that the mutex protects.
    pub value: T,
}

/// A value and the lock on it. At most one guard is out at any time.
pub struct AsyncMutex<T> {
    held: bool,
    waker: WakerSlot,
    inner: T,
}

/// The right to use the value of the mutex that gave it out. It goes back
/// with `unlock`.
pub struct AsyncMutexGuard {
    _private: (),
}

impl<T> View for AsyncMutex<T> {
    type V = AsyncMutexView<T>;

    closed spec fn view(&self) -> AsyncMutexView<T> {
        AsyncMutexView { held: self.held, waiter: self.waker@, value: self.inner }
    }
}

impl<T> AsyncMutexView<T> {
    /// The mutex after an attempt to take it: held in any case.
    pub open spec fn taken(self) -> AsyncMutexView<T> {
        AsyncMutexView { held: true, ..self }
    }

    /// The mutex after a poll of `lock` by `task`: taken if it was free;
    /// else `task` is the one to wake.
    pub open spec fn polled(self, task: TaskId) -> AsyncMutexView<T> {
        if self.held {
            AsyncMutexView { waiter: Some(task), ..self }
        } else {
            self.taken()
        }
    }

    /// The mutex after its guard came back: free, and nobody left to wake.
    pub open spec fn released(self) -> AsyncMutexView<T> {
        AsyncMutexView { held: false, waiter: None, ..self }
    }

    /// The mutex after `n` attempts to take it without waiting.
    pub open spec fn tried(self, n: nat) -> AsyncMutexView<T>
        decreases n,
    {
        if n == 0 {
            self
        } else {
            self.taken().tried((n - 1) as nat)
        }
    }
}

impl<T> AsyncMutex<T> {
    /// A free mutex around `val`.
    pub fn new(val: T) -> (mutex: Self)
        ensures
            mutex@ == (AsyncMutexView { held: false, waiter: None, value: val }),
    {
        AsyncMutex { held: false, waker: WakerSlot::new(), inner: val }
    }

    /// Takes the mutex if it is free. A guard comes out exactly when it
    /// was.
    pub fn try_lock(&mut self) -> (guard: Option<AsyncMutexGuard>)
        ensures
            guard is Some <==> !old(self)@.held,
            final(self)@ == old(self)@.taken(),
    {
        let was_held = self.held;
        self.held = true;
        if was_held {
            None
        } else {
            Some(AsyncMutexGuard { _private: () })
        }
    }

    /// One poll of `lock` by `task`: takes the mutex if it is free; else
    /// leaves `task` to be woken by the holder, and tries once more.
    pub fn poll_lock(&mut self, task: TaskId) -> (guard: Option<AsyncMutexGuard>)
        ensures
            guard is Some <==> !old(self)@.held,
            final(self)@ == old(self)@.polled(task),
    {
        match self.try_lock() {
            Some(guard) => {
                return Some(guard);
            },
            None => {},
        }
        self.waker.register(task);
        match self.try_lock() {
            Some(guard) => {
                self.waker.take();
                Some(guard)
            },
            None => None,
        }
    }

    /// Gives the guard back: the mutex is free again. Returns the task that
    /// waited for it and is to be woken, if there is one.
    pub fn unlock(&mut self, guard: AsyncMutexGuard) -> (wake: Option<TaskId>)
        ensures
            wake == old(self)@.waiter,
            final(self)@ == old(self)@.released(),
    {
        self.held = false;
        self.waker.wake()
    }

    /// Whether a guard is out.
    pub fn is_locked(&self) -> (held: bool)
        ensures
            held == self@.held,
    {
        self.held
    }

    /// The value, for the holder of the guard to read.
    pub fn get(&self, guard: &AsyncMutexGuard) -> (value: &T)
        ensures
            *value == self@.value,
    {
        &self.inner
    }

    /// The value, for the holder of the guard to change.
    pub fn get_mut(&mut self, guard: &AsyncMutexGuard) -> (value: &mut T)
        ensures
            *value == old(self)@.value,
            final(self)@ == (AsyncMutexView { value: *final(value), ..old(self)@ }),
    {
        &mut self.inner
    }

    /// Puts `value` in place of the value, for the holder of the guard.
    pub fn set(&mut self, guard: &AsyncMutexGuard, value: T)
        ensures
            final(self)@ == (AsyncMutexView { value, ..old(self)@ }),
    {
        self.inner = value;
    }

    /// While a guard is out, no attempt to take the mutex gives another:
    /// `try_lock` returns nothing and the mutex stays held, however often it
    /// is tried, until the guard comes back.
    pub proof fn lemma_held_stays_held(view: AsyncMutexView<T>, n: nat)
        requires
            view.held,
        ensures
            view.tried(n) == view,
        decreases n,
    {
        if n > 0 {
            assert(view.taken() == view);
            Self::lemma_held_stays_held(view, (n - 1) as nat);
        }
    }

    /// A poll of `lock` that gives a guard leaves the mutex held, and only
    /// the return of the guard frees it.
    pub proof fn lemma_lock_excludes(view: AsyncMutexView<T>, task: TaskId)
        requires
            !view.held,
        ensures
            view.polled(task).held,
            view.polled(task).taken() == view.polled(task),
            !view.polled(task).released().held,
    {
    }
}

} // verus!
