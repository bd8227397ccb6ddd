//! The cooperative executor: which task is polled next, and when the
//! executor sleeps or ends. The owner of the futures runs the loop: take an
//! action, poll the task it names, tell the executor how the poll went.

use super::TaskId;
use crate::proc::thread::ThreadId;
use crate::utils::queue::id_items;
use crate::utils::queue::id_limit;
use crate::utils::queue::id_queue_capacity;
use crate::utils::queue::id_queue_len;
use crate::utils::queue::id_queue_new;
use crate::utils::queue::id_queue_pop;
use crate::utils::queue::id_queue_push;
use crossbeam_queue::ArrayQueue;
use std::collections::BTreeSet;
use vstd::prelude::*;

verus! {

/// How many identifiers the ready queue can hold.
pub const TASK_QUEUE_CAPACITY: usize = 100;

/// What an executor holds.
pub struct YieldExecutorView {
    /// The tasks that have not ended.
    pub tasks: Set<u64>,
    /// The identifiers of the tasks to poll, in the order they were woken.
    pub queue: Seq<u64>,
    /// The tasks that were polled before and have a waker.
    pub wakers: Set<u64>,
    /// How many identifiers the queue can hold.
    pub capacity: nat,
    /// The thread that the executor runs on.
    pub thread_id: ThreadId,
}

/// Why a task was not spawned.
#[derive(Debug, Clone, Copy, PartialEq, Eq, Structural)]
pub enum SpawnError {
    /// A task with this identifier has not ended yet.
    DuplicateTask,
    /// The ready queue is full.
    QueueFull,
}

/// What the owner of the futures does next.
#[derive(Debug, Clone, Copy, PartialEq, Eq, Structural)]
pub enum ExecutorAction {
    /// Poll the task named here and hand the outcome to `finish_poll`.
    Poll(TaskId),
    /// Nothing is ready and tasks remain: sleep until an interrupt.
    Sleep,
    /// No task remains and nothing is queued: the run ends.
    Exit,
}

/// The executor of the tasks of one thread.
pub struct YieldExecutor {
    tasks: BTreeSet<u64>,
    task_queue: ArrayQueue<u64>,
    waker_cache: BTreeSet<u64>,
    thread_id: ThreadId,
}

impl View for YieldExecutor {
    type V = YieldExecutorView;

    closed spec fn view(&self) -> YieldExecutorView {
        YieldExecutorView {
            tasks: self.tasks@,
            queue: id_items(self.task_queue),
            wakers: self.waker_cache@,
            capacity: id_limit(self.task_queue),
            thread_id: self.thread_id,
        }
    }
}

/// The place in `queue`, at or behind `from`, of the first identifier of a
/// task in `tasks`; the length of the queue when there is none.
pub open spec fn first_live(queue: Seq<u64>, tasks: Set<u64>, from: int) -> int
    decreases queue.len() - from,
{
    if from >= queue.len() {
        queue.len() as int
    } else if tasks.contains(queue[from]) {
        from
    } else {
        first_live(queue, tasks, from + 1)
    }
}

impl YieldExecutorView {
    /// The executor after `task` was spawned: it is among the tasks, and its
    /// identifier is at the back of the ready queue.
    pub open spec fn spawned(self, task: TaskId) -> YieldExecutorView {
        YieldExecutorView {
            tasks: self.tasks.insert(task.0),
            queue: self.queue.push(task.0),
            ..self
        }
    }

    /// The executor after a wake of `task`: its identifier is at the back of
    /// the ready queue.
    pub open spec fn woken(self, task: TaskId) -> YieldExecutorView {
        YieldExecutorView { queue: self.queue.push(task.0), ..self }
    }

    /// The executor after the next ready task was taken from the queue: the
    /// identifiers of ended tasks in front of it are gone with it, and it
    /// has a waker.
    pub open spec fn after_next_ready(self) -> (YieldExecutorView, Option<TaskId>) {
        let k = first_live(self.queue, self.tasks, 0);
        if k < self.queue.len() {
            (
                YieldExecutorView {
                    queue: self.queue.skip(k + 1),
                    wakers: self.wakers.insert(self.queue[k]),
                    ..self
                },
                Some(TaskId(self.queue[k])),
            )
        } else {
            (YieldExecutorView { queue: Seq::empty(), ..self }, None)
        }
    }

    /// The executor after the poll of `task` was reported: a task that was
    /// ready is gone with its waker, a pending one stays.
    pub open spec fn after_poll(self, task: TaskId, ready: bool) -> YieldExecutorView {
        if ready {
            YieldExecutorView {
                tasks: self.tasks.remove(task.0),
                wakers: self.wakers.remove(task.0),
                ..self
            }
        } else {
            self
        }
    }
}

impl YieldExecutor {
    fn holds(set: &BTreeSet<u64>, id: u64) -> (b: bool)
        ensures
            b == set@.contains(id),
    {
        broadcast use vstd::laws_cmp::group_laws_cmp;
        broadcast use vstd::std_specs::btree::group_btree_axioms;

        set.contains(&id)
    }

    fn put(set: &mut BTreeSet<u64>, id: u64)
        ensures
            final(set)@ == old(set)@.insert(id),
    {
        broadcast use vstd::laws_cmp::group_laws_cmp;

        set.insert(id);
    }

    fn drop_id(set: &mut BTreeSet<u64>, id: u64)
        ensures
            final(set)@ == old(set)@.remove(id),
    {
        broadcast use vstd::laws_cmp::group_laws_cmp;
        broadcast use vstd::std_specs::btree::group_btree_axioms;

        set.remove(&id);
    }

    /// An executor for the thread `thread_id`, without tasks.
    pub fn new(thread_id: ThreadId) -> (executor: Self)
        ensures
            executor@ == (YieldExecutorView {
                tasks: Set::empty(),
                queue: Seq::empty(),
                wakers: Set::empty(),
                capacity: TASK_QUEUE_CAPACITY as nat,
                thread_id,
            }),
    {
        YieldExecutor {
            tasks: BTreeSet::new(),
            task_queue: id_queue_new(TASK_QUEUE_CAPACITY),
            waker_cache: BTreeSet::new(),
            thread_id,
        }
    }

    /// The thread that the executor runs on.
    pub fn thread_id(&self) -> (id: ThreadId)
        ensures
            id == self@.thread_id,
    {
        self.thread_id
    }

    /// Whether no task remains.
    pub fn done(&self) -> (done: bool)
        ensures
            done == (self@.tasks == Set::<u64>::empty()),
    {
        self.tasks.is_empty()
    }

    /// Takes `task` in and puts its identifier at the back of the ready
    /// queue, so that it is polled. To spawn a task whose identifier is in
    /// use, or into a full queue, is an error of the caller.
    pub fn spawn(&mut self, task: TaskId)
        requires
            !old(self)@.tasks.contains(task.0),
            old(self)@.queue.len() < old(self)@.capacity,
        ensures
            final(self)@ == old(self)@.spawned(task),
    {
        Self::put(&mut self.tasks, task.0);
        id_queue_push(&mut self.task_queue, task.0);
    }

    /// Spawns `task` where `spawn` can, and says why where it cannot, which
    /// changes nothing.
    pub fn try_spawn(&mut self, task: TaskId) -> (r: Result<(), SpawnError>)
        ensures
            r == if old(self)@.tasks.contains(task.0) {
                Err::<(), SpawnError>(SpawnError::DuplicateTask)
            } else if old(self)@.queue.len() >= old(self)@.capacity {
                Err(SpawnError::QueueFull)
            } else {
                Ok(())
            },
            final(self)@ == if r is Ok {
                old(self)@.spawned(task)
            } else {
                old(self)@
            },
    {
        if Self::holds(&self.tasks, task.0) {
            return Err(SpawnError::DuplicateTask);
        }
        if id_queue_len(&self.task_queue) >= id_queue_capacity(&self.task_queue) {
            return Err(SpawnError::QueueFull);
        }
        self.spawn(task);
        Ok(())
    }

    /// What a waker of `task` does: the identifier goes to the back of the
    /// ready queue, whether the task still exists or not. To wake into a
    /// full queue is an error of the caller.
    pub fn wake(&mut self, task: TaskId)
        requires
            old(self)@.queue.len() < old(self)@.capacity,
        ensures
            final(self)@ == old(self)@.woken(task),
    {
        id_queue_push(&mut self.task_queue, task.0);
    }

    /// Wakes `task` where `wake` can; returns whether there was room. A
    /// wake that finds none changes nothing.
    pub fn try_wake(&mut self, task: TaskId) -> (queued: bool)
        ensures
            queued == (old(self)@.queue.len() < old(self)@.capacity),
            final(self)@ == if queued {
                old(self)@.woken(task)
            } else {
                old(self)@
            },
    {
        if id_queue_len(&self.task_queue) < id_queue_capacity(&self.task_queue) {
            self.wake(task);
            true
        } else {
            false
        }
    }

    /// Whether the executor may go to sleep: nothing is queued and tasks
    /// remain. Asked with interrupts off, right before the sleep, it keeps a
    /// wake that came in since the last action from being slept over.
    pub fn should_sleep(&self) -> (sleep: bool)
        ensures
            sleep == (self@.queue.len() == 0 && self@.tasks != Set::<u64>::empty()),
    {
        id_queue_len(&self.task_queue) == 0 && !self.done()
    }

    /// Takes the next ready task from the queue, in the order of the
    /// queue, past the identifiers of tasks that have ended. `None` when no
    /// task is ready, which leaves the queue empty.
    pub fn next_ready(&mut self) -> (task: Option<TaskId>)
        ensures
            (final(self)@, task) == old(self)@.after_next_ready(),
    {
        loop
            invariant
                self@.tasks == old(self)@.tasks,
                self@.wakers == old(self)@.wakers,
                self@.capacity == old(self)@.capacity,
                self@.thread_id == old(self)@.thread_id,
                self@.after_next_ready() == old(self)@.after_next_ready(),
            decreases self@.queue.len(),
        {
            let ghost before = self@;
            let id = match id_queue_pop(&mut self.task_queue) {
                Some(id) => id,
                None => {
                    assert(self@.queue =~= Seq::<u64>::empty());
                    return None;
                },
            };
            if Self::holds(&self.tasks, id) {
                Self::put(&mut self.waker_cache, id);
                return Some(TaskId(id));
            }
            proof {
                lemma_first_live_skip(before.queue, before.tasks, 1);
            }
        }
    }

    /// Takes the report of the poll of `task`: a task that was ready has
    /// ended and leaves with its waker; a pending one stays.
    pub fn finish_poll(&mut self, task: TaskId, ready: bool)
        ensures
            final(self)@ == old(self)@.after_poll(task, ready),
    {
        if ready {
            Self::drop_id(&mut self.tasks, task.0);
            Self::drop_id(&mut self.waker_cache, task.0);
        }
    }

    /// What to do next: poll the next ready task; with none ready, end the
    /// run when no task remains, and sleep otherwise.
    pub fn next_action(&mut self) -> (action: ExecutorAction)
        ensures
            final(self)@ == old(self)@.after_next_ready().0,
            action == match old(self)@.after_next_ready().1 {
                Some(task) => ExecutorAction::Poll(task),
                None => if old(self)@.tasks == Set::<u64>::empty() {
                    ExecutorAction::Exit
                } else {
                    ExecutorAction::Sleep
                },
            },
    {
        match self.next_ready() {
            Some(task) => ExecutorAction::Poll(task),
            None => if self.done() {
                ExecutorAction::Exit
            } else {
                ExecutorAction::Sleep
            },
        }
    }
}

/// A spawned task waits in the ready queue: as long as it has not ended,
/// the executor finds a task to poll and does not see the queue empty.
pub proof fn lemma_spawned_is_queued(view: YieldExecutorView, task: TaskId)
    ensures
        view.spawned(task).tasks.contains(task.0),
        view.spawned(task).queue.last() == task.0,
        view.spawned(task).after_next_ready().1 is Some,
{
    let after = view.spawned(task);
    lemma_first_live_before(after.queue, after.tasks, 0, after.queue.len() - 1);
}

/// The first live identifier comes no later than any live one.
proof fn lemma_first_live_before(queue: Seq<u64>, tasks: Set<u64>, from: int, k: int)
    requires
        0 <= from <= k < queue.len(),
        tasks.contains(queue[k]),
    ensures
        first_live(queue, tasks, from) <= k,
    decreases k - from,
{
    if from < k && !tasks.contains(queue[from]) {
        lemma_first_live_before(queue, tasks, from + 1, k);
    }
}

/// Skipping identifiers of ended tasks at the front of the queue does not
/// change which task is the first live one.
proof fn lemma_first_live_skip(queue: Seq<u64>, tasks: Set<u64>, n: int)
    requires
        0 <= n <= queue.len(),
        forall|i: int| 0 <= i < n ==> !tasks.contains(queue[i]),
    ensures
        first_live(queue, tasks, 0) == n + first_live(queue.skip(n), tasks, 0),
        first_live(queue, tasks, 0) < queue.len() ==> queue[first_live(queue, tasks, 0)]
            == queue.skip(n)[first_live(queue.skip(n), tasks, 0)] && queue.skip(
            first_live(queue, tasks, 0) + 1,
        ) == queue.skip(n).skip(first_live(queue.skip(n), tasks, 0) + 1),
{
    lemma_first_live_from(queue, tasks, n, 0);
    lemma_first_live_shift(queue, tasks, n, 0);
    let k = first_live(queue.skip(n), tasks, 0);
    lemma_first_live_bounds(queue.skip(n), tasks, 0);
    if n + k < queue.len() {
        assert(queue.skip(n + k + 1) =~= queue.skip(n).skip(k + 1));
    }
}

proof fn lemma_first_live_bounds(queue: Seq<u64>, tasks: Set<u64>, from: int)
    requires
        0 <= from <= queue.len(),
    ensures
        from <= first_live(queue, tasks, from) <= queue.len(),
    decreases queue.len() - from,
{
    if from < queue.len() && !tasks.contains(queue[from]) {
        lemma_first_live_bounds(queue, tasks, from + 1);
    }
}

proof fn lemma_first_live_from(queue: Seq<u64>, tasks: Set<u64>, n: int, from: int)
    requires
        0 <= from <= n <= queue.len(),
        forall|i: int| 0 <= i < n ==> !tasks.contains(queue[i]),
    ensures
        first_live(queue, tasks, from) == first_live(queue, tasks, n),
    decreases n - from,
{
    if from < n {
        lemma_first_live_from(queue, tasks, n, from + 1);
    }
}

proof fn lemma_first_live_shift(queue: Seq<u64>, tasks: Set<u64>, n: int, from: int)
    requires
        0 <= n <= queue.len(),
        0 <= from <= queue.len() - n,
    ensures
        first_live(queue, tasks, n + from) == n + first_live(queue.skip(n), tasks, from),
    decreases queue.len() - n - from,
{
    if from < queue.len() - n {
        assert(queue.skip(n)[from] == queue[n + from]);
        if !tasks.contains(queue[n + from]) {
            lemma_first_live_shift(queue, tasks, n, from + 1);
        }
    }
}

} // verus!
