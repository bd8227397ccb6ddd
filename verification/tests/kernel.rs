use julios::interrupts::pic::InterruptIndex;
use julios::interrupts::pic::PIC_1_OFFSET;
use julios::interrupts::pic::PIC_2_OFFSET;
use julios::interrupts::pic::SYSCALL_32_INTERRUPT_NUMBER;
use julios::proc::scheduler::RegisterError;
use julios::proc::scheduler::Scheduler;
use julios::proc::scheduler::K_THREAD_ID;
use julios::proc::scheduler::THREAD_QUEUE_CAPACITY;
use julios::proc::thread::Thread;
use julios::proc::thread::ThreadId;
use julios::proc::thread::STACK_SIZE;
use julios::syscalls::proc::exit;
use julios::syscalls::syscall_handler_32;
use julios::syscalls::syscall_routine;
use julios::syscalls::Registers;
use julios::syscalls::SyscallContext;
use julios::syscalls::EXIT_ID;
use julios::task::TaskId;

fn thread(id: u64) -> Thread {
    Thread::new(ThreadId(id), 0x40_0000 + id, 0x10_0000 * id).unwrap()
}

#[test]
fn interrupt_vectors() {
    assert_eq!((PIC_1_OFFSET, PIC_2_OFFSET), (32, 40));
    assert_eq!(SYSCALL_32_INTERRUPT_NUMBER, 0x80);
    assert_eq!(InterruptIndex::Timer.as_u8(), 32);
    assert_eq!(InterruptIndex::Keyboard.as_u8(), 33);
    assert_eq!(InterruptIndex::HardDisk1.as_u8(), 46);
    assert_eq!(InterruptIndex::HardDisk2.as_u8(), 47);
    assert_eq!(InterruptIndex::Timer.as_usize(), 32);
    assert_eq!(InterruptIndex::HardDisk2.as_usize(), 47);
}

#[test]
fn a_new_thread_starts_at_the_top_of_its_stack() {
    assert_eq!(STACK_SIZE, 81920);
    let t = Thread::new(ThreadId(4), 0x1000, 0x8000).unwrap();
    assert_eq!(
        t,
        Thread { id: ThreadId(4), entry_point: 0x1000, started: false, rsp: 0x8000 + 81920, base_stack: 0x8000 }
    );
    assert!(Thread::new(ThreadId(4), 0, u64::MAX - 81919).is_none());
    assert!(Thread::new(ThreadId(4), 0, u64::MAX - 81920).is_some());
    let k = Thread::kernel();
    assert_eq!(k, Thread { id: ThreadId(0), entry_point: 0, started: true, rsp: 0, base_stack: 0 });
    let mut counter = 1u64;
    assert_eq!(ThreadId::new(&mut counter), ThreadId(1));
    assert_eq!(ThreadId::new(&mut counter), ThreadId(2));
}

#[test]
fn the_scheduler_begins_with_the_kernel_thread() {
    let mut scheduler = Scheduler::new();
    assert_eq!(K_THREAD_ID, 0);
    assert_eq!(scheduler.get_thread(ThreadId(0)), Some(Thread::kernel()));
    assert_eq!(scheduler.get_thread(ThreadId(1)), None);
    assert_eq!(scheduler.poll_next(TaskId(0)), None);
}

#[test]
fn registered_threads_queue_up() {
    let mut scheduler = Scheduler::new();
    assert_eq!(scheduler.poll_next(TaskId(9)), None);
    assert_eq!(scheduler.register(thread(3)), Some(TaskId(9)));
    assert_eq!(scheduler.register(thread(1)), None);
    assert_eq!(scheduler.get_thread(ThreadId(3)), Some(thread(3)));
    assert_eq!(scheduler.poll_next(TaskId(9)), Some(ThreadId(3)));
    assert!(scheduler.requeue(ThreadId(3)));
    assert_eq!(scheduler.poll_next(TaskId(9)), Some(ThreadId(1)));
    assert_eq!(scheduler.poll_next(TaskId(9)), Some(ThreadId(3)));
    assert_eq!(scheduler.poll_next(TaskId(9)), None);
    assert_eq!(scheduler.exit(ThreadId(3)), Some(thread(3)));
    assert_eq!(scheduler.exit(ThreadId(3)), None);
    assert_eq!(scheduler.get_thread(ThreadId(3)), None);
    assert_eq!(scheduler.get_thread(ThreadId(1)), Some(thread(1)));
}

#[test]
fn register_errors() {
    let mut scheduler = Scheduler::new();
    assert_eq!(THREAD_QUEUE_CAPACITY, 100);
    assert_eq!(scheduler.try_register(Thread::kernel()), Err(RegisterError::DuplicateThread));
    for id in 1..=100u64 {
        assert_eq!(scheduler.try_register(thread(id)), Ok(None));
    }
    assert_eq!(scheduler.try_register(thread(101)), Err(RegisterError::QueueFull));
    assert_eq!(scheduler.try_register(thread(50)), Err(RegisterError::DuplicateThread));
    assert_eq!(scheduler.get_thread(ThreadId(101)), None);
    assert!(!scheduler.requeue(ThreadId(1)));
    assert_eq!(scheduler.exit(ThreadId(0)), Some(Thread::kernel()));
    assert_eq!(scheduler.try_register(Thread::kernel()), Ok(None));
    assert_eq!(scheduler.poll_next(TaskId(0)), Some(ThreadId(1)));
    assert_eq!(scheduler.try_register(thread(101)), Ok(None));
}

#[test]
fn exit_ends_the_calling_thread() {
    let mut scheduler = Scheduler::new();
    scheduler.register(thread(1));
    scheduler.register(thread(2));
    assert_eq!(syscall_routine(EXIT_ID, ThreadId(1), &mut scheduler), 0);
    assert_eq!(scheduler.get_thread(ThreadId(1)), None);
    assert_eq!(scheduler.get_thread(ThreadId(2)), Some(thread(2)));
    assert_eq!(syscall_routine(EXIT_ID, ThreadId(1), &mut scheduler), 0);
    assert_eq!(scheduler.get_thread(ThreadId(2)), Some(thread(2)));
}

#[test]
fn any_other_call_does_nothing() {
    let mut scheduler = Scheduler::new();
    scheduler.register(thread(1));
    for id in [0u64, 2, 3, 60, u64::MAX] {
        assert_eq!(syscall_routine(id, ThreadId(1), &mut scheduler), 0);
        assert_eq!(scheduler.get_thread(ThreadId(1)), Some(thread(1)));
    }
    let mut context = SyscallContext { id: 77, res: 5, thread_id: ThreadId(1) };
    context.dispatch(&mut scheduler);
    assert_eq!(context, SyscallContext { id: 77, res: 0, thread_id: ThreadId(1) });
    assert_eq!(SyscallContext::new(1, ThreadId(2)), SyscallContext { id: 1, res: 0, thread_id: ThreadId(2) });
}

#[test]
fn the_call_is_named_by_rax() {
    let mut scheduler = Scheduler::new();
    scheduler.register(thread(1));
    let mut regs = Registers { rax: 0, rbx: 1, rcx: 1, rdx: 1, rsi: 1, rdi: 1, rbp: 1 };
    assert_eq!(syscall_handler_32(&regs, ThreadId(1), &mut scheduler), 0);
    assert!(scheduler.get_thread(ThreadId(1)).is_some());
    regs.rax = 1;
    regs.rbx = 0;
    assert_eq!(syscall_handler_32(&regs, ThreadId(1), &mut scheduler), 0);
    assert!(scheduler.get_thread(ThreadId(1)).is_none());
    assert!(scheduler.get_thread(ThreadId(0)).is_some());
}

#[test]
fn exit_returns_what_was_saved_of_the_thread() {
    let mut scheduler = Scheduler::new();
    scheduler.register(thread(5));
    let context = SyscallContext::new(EXIT_ID, ThreadId(5));
    assert_eq!(exit(&context, &mut scheduler), Some(thread(5)));
    assert_eq!(exit(&context, &mut scheduler), None);
    assert_eq!(scheduler.get_thread(ThreadId(5)), None);
    assert_eq!(scheduler.get_thread(ThreadId(0)), Some(Thread::kernel()));
}
