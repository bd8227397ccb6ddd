//! System calls: the registers at the interrupt, and what the kernel does
//! for the call that they name.

use crate::proc::scheduler::Scheduler;
use crate::proc::scheduler::SchedulerView;
use crate::proc::thread::ThreadId;
use vstd::prelude::*;

pub mod proc;

verus! {

/// Number of the call that ends the calling thread.
pub const EXIT_ID: u64 = 1;

/// The general-purpose registers as they stood at the interrupt.
#[derive(Debug, Clone, Copy, PartialEq, Eq, Structural)]
pub struct Registers {
    /// Number of the call.
    pub rax: u64,
    /// First argument.
    pub rbx: u64,
    /// Second argument.
    pub rcx: u64,
    /// Third argument.
    pub rdx: u64,
    /// Fourth argument.
    pub rsi: u64,
    /// Fifth argument.
    pub rdi: u64,
    /// Sixth argument.
    pub rbp: u64,
}

/// One system call on its way through the kernel.
#[derive(Debug, Clone, Copy, PartialEq, Eq, Structural)]
pub struct SyscallContext {
    /// Number of the call.
    pub id: u64,
    /// What the call returns.
    pub res: u64,
    /// The thread that made the call.
    pub thread_id: ThreadId,
}

/// The scheduler after the call `id` of `thread`: `EXIT_ID` takes the thread
/// out of the table, any other call changes nothing.
pub open spec fn after_syscall(scheduler: SchedulerView, id: u64, thread: ThreadId)
    -> SchedulerView {
    if id == EXIT_ID {
        SchedulerView { threads: scheduler.threads.remove(thread.0), ..scheduler }
    } else {
        scheduler
    }
}

impl SyscallContext {
    /// The call `id` of `thread_id`, not yet done.
    pub fn new(id: u64, thread_id: ThreadId) -> (context: Self)
        ensures
            context == (SyscallContext { id, res: 0, thread_id }),
    {
        SyscallContext { id, res: 0, thread_id }
    }

    /// Does the call: see `dispatch`.
    pub fn run(&mut self, scheduler: &mut Scheduler)
        ensures
            *final(self) == (SyscallContext { res: 0, ..*old(self) }),
            final(scheduler)@ == after_syscall(old(scheduler)@, old(self).id, old(self).thread_id),
    {
        self.dispatch(scheduler);
    }

    /// Does what the number of the call asks: `EXIT_ID` ends the calling
    /// thread; every other number does nothing. The call returns zero.
    pub fn dispatch(&mut self, scheduler: &mut Scheduler)
        ensures
            *final(self) == (SyscallContext { res: 0, ..*old(self) }),
            final(scheduler)@ == after_syscall(old(scheduler)@, old(self).id, old(self).thread_id),
    {
        if self.id == EXIT_ID {
            proc::exit(self, scheduler);
        }
        self.res = 0;
    }
}

/// Serves the call `syscall_id` of the thread `running` and returns its
/// result, which is zero for every call.
pub fn syscall_routine(syscall_id: u64, running: ThreadId, scheduler: &mut Scheduler) -> (res: u64)
    ensures
        res == 0,
        final(scheduler)@ == after_syscall(old(scheduler)@, syscall_id, running),
{
    let mut context = SyscallContext::new(syscall_id, running);
    context.run(scheduler);
    context.res
}

/// The handler of the system call interrupt, behind the register snapshot:
/// the call is named by `rax`.
pub fn syscall_handler_32(regs: &Registers, running: ThreadId, scheduler: &mut Scheduler) -> (res:
    u64)
    ensures
        res == 0,
        final(scheduler)@ == after_syscall(old(scheduler)@, regs.rax, running),
{
    syscall_routine(regs.rax, running, scheduler)
}

} // verus!
