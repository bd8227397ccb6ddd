//! System calls that act on the calling thread.

use super::SyscallContext;
use crate::proc::scheduler::Scheduler;
use crate::proc::scheduler::SchedulerView;
use crate::proc::thread::Thread;
use vstd::prelude::*;

verus! {

/// Ends the thread that made the call: it leaves the table of threads.
/// Returns what was saved of it, for its stack to be given back; `None`
/// when the thread was not registered.
pub fn exit(context: &SyscallContext, scheduler: &mut Scheduler) -> (ended: Option<Thread>)
    ensures
        final(scheduler)@ == (SchedulerView {
            threads: old(scheduler)@.threads.remove(context.thread_id.0),
            ..old(scheduler)@
        }),
        ended == if old(scheduler)@.threads.contains_key(context.thread_id.0) {
            Some(old(scheduler)@.threads[context.thread_id.0])
        } else {
            None
        },
{
    scheduler.exit(context.thread_id)
}

} // verus!
