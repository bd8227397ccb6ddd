//! The table of kernel threads and the queue of those that wait to run.

use super::thread::Thread;
use super::thread::ThreadId;
use crate::task::TaskId;
use crate::task::WakerSlot;
use crate::utils::queue::id_items;
use crate::utils::queue::id_limit;
use crate::utils::queue::id_queue_capacity;
use crate::utils::queue::id_queue_len;
use crate::utils::queue::id_queue_new;
use crate::utils::queue::id_queue_pop;
use crate::utils::queue::id_queue_push;
use crossbeam_queue::ArrayQueue;
use std::collections::BTreeMap;
use vstd::prelude::*;

verus! {

/// Identifier of the kernel's own thread.
pub const K_THREAD_ID: u64 = 0;

/// How many identifiers the queue of threads can hold.
pub const THREAD_QUEUE_CAPACITY: usize = 100;

/// What a scheduler holds.
pub struct SchedulerView {
    /// The threads by their identifiers.
    pub threads: Map<u64, Thread>,
    /// The identifiers of the threads that wait to run, oldest first.
    pub queue: Seq<u64>,
    /// How many identifiers the queue can hold.
    pub capacity: nat,
    /// The task that waits for a thread to run.
    pub waiter: Option<TaskId>,
}

/// Why a thread was not registered.
#[derive(Debug, Clone, Copy, PartialEq, Eq, Structural)]
pub enum RegisterError {
    /// A thread with this identifier is registered.
    DuplicateThread,
    /// The queue of threads is full.
    QueueFull,
}

/// The threads of the kernel.
pub struct Scheduler {
    threads: BTreeMap<u64, Thread>,
    ids: ArrayQueue<u64>,
    waker: WakerSlot,
}

impl View for Scheduler {
    type V = SchedulerView;

    closed spec fn view(&self) -> SchedulerView {
        SchedulerView {
            threads: self.threads@,
            queue: id_items(self.ids),
            capacity: id_limit(self.ids),
            waiter: self.waker@,
        }
    }
}

impl SchedulerView {
    /// Whether `thread` can be registered: its identifier is free, and the
    /// queue has room for it unless it is the kernel's own thread.
    pub open spec fn admits(self, thread: Thread) -> Result<(), RegisterError> {
        if self.threads.contains_key(thread.id.0) {
            Err(RegisterError::DuplicateThread)
        } else if thread.id.0 != K_THREAD_ID && self.queue.len() >= self.capacity {
            Err(RegisterError::QueueFull)
        } else {
            Ok(())
        }
    }

    /// The scheduler after `thread` was registered: it is in the table, and
    /// in the queue unless it is the kernel's own thread, which wakes the
    /// waiter.
    pub open spec fn registered(self, thread: Thread) -> SchedulerView {
        if thread.id.0 == K_THREAD_ID {
            SchedulerView { threads: self.threads.insert(thread.id.0, thread), ..self }
        } else {
            SchedulerView {
                threads: self.threads.insert(thread.id.0, thread),
                queue: self.queue.push(thread.id.0),
                waiter: None,
                ..self
            }
        }
    }
}

impl Scheduler {
    fn put(&mut self, thread: Thread)
        ensures
            final(self)@ == (SchedulerView {
                threads: old(self)@.threads.insert(thread.id.0, thread),
                ..old(self)@
            }),
    {
        broadcast use vstd::laws_cmp::group_laws_cmp;

        self.threads.insert(thread.id.0, thread);
    }

    /// A scheduler that holds the kernel's own thread and nothing in its
    /// queue.
    pub fn new() -> (scheduler: Self)
        ensures
            scheduler@ == (SchedulerView {
                threads: Map::<u64, Thread>::empty().insert(K_THREAD_ID, Thread::spec_kernel()),
                queue: Seq::empty(),
                capacity: THREAD_QUEUE_CAPACITY as nat,
                waiter: None,
            }),
    {
        let mut scheduler = Scheduler {
            threads: BTreeMap::new(),
            ids: id_queue_new(THREAD_QUEUE_CAPACITY),
            waker: WakerSlot::new(),
        };
        scheduler.put(Thread::kernel());
        scheduler
    }

    /// Registers `thread`. To register an identifier twice, or into a full
    /// queue, is an error of the caller. Returns the task to wake, if one
    /// waits for a thread.
    pub fn register(&mut self, thread: Thread) -> (wake: Option<TaskId>)
        requires
            old(self)@.admits(thread) is Ok,
        ensures
            final(self)@ == old(self)@.registered(thread),
            wake == if thread.id.0 == K_THREAD_ID {
                None
            } else {
                old(self)@.waiter
            },
    {
        self.put(thread);
        if thread.id.0 != K_THREAD_ID {
            id_queue_push(&mut self.ids, thread.id.0);
            self.waker.wake()
        } else {
            None
        }
    }

    /// Registers `thread` where `register` can, and says why where it
    /// cannot, which changes nothing.
    pub fn try_register(&mut self, thread: Thread) -> (r: Result<Option<TaskId>, RegisterError>)
        ensures
            match old(self)@.admits(thread) {
                Ok(_) => final(self)@ == old(self)@.registered(thread) && r is Ok,
                Err(e) => final(self)@ == old(self)@ && r == Err::<Option<TaskId>, RegisterError>(e),
            },
    {
        if self.get_thread(thread.id).is_some() {
            return Err(RegisterError::DuplicateThread);
        }
        if thread.id.0 != K_THREAD_ID && id_queue_len(&self.ids) >= id_queue_capacity(&self.ids) {
            return Err(RegisterError::QueueFull);
        }
        Ok(self.register(thread))
    }

    /// Takes the thread `id` out of the table and returns it; `None`, and no
    /// change, when it is not there.
    pub fn exit(&mut self, id: ThreadId) -> (thread: Option<Thread>)
        ensures
            final(self)@ == (SchedulerView {
                threads: old(self)@.threads.remove(id.0),
                ..old(self)@
            }),
            thread == if old(self)@.threads.contains_key(id.0) {
                Some(old(self)@.threads[id.0])
            } else {
                None
            },
    {
        broadcast use vstd::laws_cmp::group_laws_cmp;
        broadcast use vstd::std_specs::btree::group_btree_axioms;

        self.threads.remove(&id.0)
    }

    /// The thread `id`, when it is registered.
    pub fn get_thread(&self, id: ThreadId) -> (thread: Option<Thread>)
        ensures
            thread == if self@.threads.contains_key(id.0) {
                Some(self@.threads[id.0])
            } else {
                None
            },
    {
        broadcast use vstd::laws_cmp::group_laws_cmp;
        broadcast use vstd::std_specs::btree::group_btree_axioms;

        match self.threads.get(&id.0) {
            Some(thread) => Some(*thread),
            None => None,
        }
    }

    /// Puts the identifier of a thread that has run back into the queue.
    /// Returns whether there was room.
    pub fn requeue(&mut self, id: ThreadId) -> (queued: bool)
        ensures
            queued == (old(self)@.queue.len() < old(self)@.capacity),
            final(self)@ == if queued {
                SchedulerView { queue: old(self)@.queue.push(id.0), ..old(self)@ }
            } else {
                old(self)@
            },
    {
        id_queue_push(&mut self.ids, id.0)
    }

    /// One poll of the queue by `task`: the oldest identifier in it, or
    /// `None` where the queue is empty, which leaves `task` to be woken by
    /// the next registration.
    pub fn poll_next(&mut self, task: TaskId) -> (id: Option<ThreadId>)
        ensures
            old(self)@.queue.len() > 0 ==> id == Some(ThreadId(old(self)@.queue[0])) && final(self)@
                == (SchedulerView { queue: old(self)@.queue.skip(1), ..old(self)@ }),
            old(self)@.queue.len() == 0 ==> id is None && final(self)@ == (SchedulerView {
                waiter: Some(task),
                ..old(self)@
            }),
    {
        match id_queue_pop(&mut self.ids) {
            Some(id) => {
                return Some(ThreadId(id));
            },
            None => {},
        }
        self.waker.register(task);
        match id_queue_pop(&mut self.ids) {
            Some(id) => {
                self.waker.take();
                Some(ThreadId(id))
            },
            None => None,
        }
    }
}

} // verus!
