//! The read of one sector by one task, from taking the drive to letting
//! it go.

use super::command::packet_words;
use super::command::DriveRequest;
use super::command::ReadCommand;
use super::command::ReadCommandView;
use super::command::ReadMode;
use super::command::ReadPhase;
use super::interrupt::InterruptFuture;
use super::interrupt::InterruptView;
use super::scsi::SCSIPacket;
use super::ATABus;
use super::ATABusView;
use super::DriveError;
use super::PortRequest;
use crate::task::TaskId;
use crate::utils::mutex::AsyncMutex;
use crate::utils::mutex::AsyncMutexGuard;
use crate::utils::mutex::AsyncMutexView;
use vstd::pervasive::unreached;
use vstd::prelude::*;

verus! {

/// Where a read of a block stands.
pub enum BlockStateView {
    /// It waits for the drive to be free.
    Locking,
    /// It holds the drive and runs this command.
    Running(ReadCommandView),
    /// It has ended and let the drive go.
    Finished,
}

/// What a read of a block holds.
pub struct BlockReadView {
    /// The task that reads.
    pub task: TaskId,
    /// The sector to read.
    pub lba: u32,
    /// How many ticks a wait for the drive's state may take.
    pub timeout: u64,
    /// Where the read stands.
    pub state: BlockStateView,
}

/// What a poll of a read of a block gives.
#[derive(Debug, Clone, Copy)]
pub enum BlockPoll {
    /// Perform this access and poll again with what was read.
    Io(PortRequest),
    /// Nothing to do until the task is woken.
    Pending,
    /// The read has ended with this sector or error; the task to wake, if
    /// one waits for the drive.
    Ready(Result<[u8; 2048], DriveError>, Option<TaskId>),
}

/// A `BlockPoll` with the content of the sector for the sector.
pub enum BlockPollView {
    /// Perform this access.
    Io(PortRequest),
    /// Nothing to do until the task is woken.
    Pending,
    /// The read has ended.
    Ready(Result<Seq<u8>, DriveError>, Option<TaskId>),
}

impl BlockPoll {
    /// The poll with the content of the sector for the sector.
    pub open spec fn view(&self) -> BlockPollView {
        match *self {
            BlockPoll::Io(request) => BlockPollView::Io(request),
            BlockPoll::Pending => BlockPollView::Pending,
            BlockPoll::Ready(Ok(block), wake) => BlockPollView::Ready(Ok(block@), wake),
            BlockPoll::Ready(Err(e), wake) => BlockPollView::Ready(Err(e), wake),
        }
    }
}

/// The read of one sector by one task: it takes the drive, runs the command
/// and lets the drive go. The drive is held from the poll that takes it to
/// the poll that is ready, and by nobody else in between.
pub struct BlockRead {
    task: TaskId,
    lba: u32,
    timeout: u64,
    finished: bool,
    running: Option<(ReadCommand, AsyncMutexGuard)>,
}

impl View for BlockRead {
    type V = BlockReadView;

    closed spec fn view(&self) -> BlockReadView {
        BlockReadView {
            task: self.task,
            lba: self.lba,
            timeout: self.timeout,
            state: match self.running {
                Some((command, _)) => BlockStateView::Running(command@),
                None => if self.finished {
                    BlockStateView::Finished
                } else {
                    BlockStateView::Locking
                },
            },
        }
    }
}

/// The drive behind its mutex: `None` where discovery found no drive.
pub type Drive = AsyncMutex<Option<ATABus>>;

/// What a drive behind its mutex holds.
pub type DriveView = AsyncMutexView<Option<ATABus>>;

impl BlockReadView {
    /// The read in the state `state`.
    pub open spec fn at(self, state: BlockStateView) -> BlockReadView {
        BlockReadView { state, ..self }
    }

    /// What becomes of a read that holds the drive and whose command stands
    /// at `command`: an access that the command asks for is passed on; an
    /// awaited interrupt is looked for, and the command goes on if it has
    /// come; a command that has ended ends the read, which keeps the sector
    /// in the drive handle, lets the drive go and names the task to wake.
    pub open spec fn settles(
        self,
        command: ReadCommandView,
        drive: DriveView,
        irq: InterruptView,
        after: BlockReadView,
        drive_after: DriveView,
        irq_after: InterruptView,
        poll: BlockPollView,
    ) -> bool {
        match command.request() {
            DriveRequest::Io(request) => {
                &&& poll == BlockPollView::Io(request)
                &&& after == self.at(BlockStateView::Running(command))
                &&& drive_after == drive
                &&& irq_after == irq
            },
            DriveRequest::AwaitInterrupt => {
                &&& drive_after == drive
                &&& irq_after == irq.polled(self.task)
                &&& if irq.pending {
                    &&& after == self.at(BlockStateView::Running(command.after_interrupt()))
                    &&& DriveRequest::Io(poll->Io_0) == command.after_interrupt().request()
                    &&& poll is Io
                } else {
                    &&& after == self.at(BlockStateView::Running(command))
                    &&& poll == BlockPollView::Pending
                }
            },
            DriveRequest::Finished => {
                &&& after == self.at(BlockStateView::Finished)
                &&& irq_after == irq
                &&& !drive_after.held
                &&& drive_after.waiter is None
                &&& match command.phase {
                    ReadPhase::Failed(e) => {
                        &&& poll == BlockPollView::Ready(Err(e), drive.waiter)
                        &&& drive_after.value == drive.value
                    },
                    _ => {
                        &&& poll == BlockPollView::Ready(Ok(command.block), drive.waiter)
                        &&& match drive.value {
                            Some(bus) => drive_after.value matches Some(kept) && kept@ == (
                            ATABusView { block: command.block, ..bus@ }),
                            None => drive_after.value is None,
                        }
                    },
                }
            },
        }
    }

    /// What a poll does, with what came back at `now` from the access that
    /// the last poll asked for.
    ///
    /// A read that waits for the drive tries to take it: where the drive is
    /// held it leaves its task to be woken and stays pending; where no
    /// drive was found it ends with `NoDrive` and lets go at once; else it
    /// begins the command. A read that holds the drive hands `reply` to its
    /// command. A read that has ended stays ended.
    pub open spec fn polled(
        self,
        drive: DriveView,
        irq: InterruptView,
        reply: u16,
        now: u64,
        after: BlockReadView,
        drive_after: DriveView,
        irq_after: InterruptView,
        poll: BlockPollView,
    ) -> bool {
        match self.state {
            BlockStateView::Finished => {
                &&& poll == BlockPollView::Ready(Err(DriveError::Finished), None)
                &&& after == self
                &&& drive_after == drive
                &&& irq_after == irq
            },
            BlockStateView::Locking => if drive.held {
                &&& poll == BlockPollView::Pending
                &&& after == self
                &&& drive_after == drive.polled(self.task)
                &&& irq_after == irq
            } else {
                match drive.value {
                    None => {
                        &&& poll == BlockPollView::Ready(Err(DriveError::NoDrive), drive.waiter)
                        &&& after == self.at(BlockStateView::Finished)
                        &&& drive_after == drive.released()
                        &&& irq_after == irq
                    },
                    Some(bus) => self.settles(
                        ReadCommandView {
                            base: bus@.base_port,
                            mode: ReadMode::Interrupt,
                            phase: ReadPhase::WaitBusy,
                            words: packet_words(SCSIPacket::spec_read_12(self.lba)@),
                            block: Seq::new(2048, |i: int| 0u8),
                            started: now,
                            timeout: self.timeout,
                            byte_count: 0,
                        },
                        drive.taken(),
                        irq,
                        after,
                        drive_after,
                        irq_after,
                        poll,
                    ),
                }
            },
            BlockStateView::Running(command) => self.settles(
                command.after_reply(reply, now),
                drive,
                irq,
                after,
                drive_after,
                irq_after,
                poll,
            ),
        }
    }
}

/// Begins the read of the sector `lba` by `task`; no wait for a state of the
/// drive may take more than `timeout` ticks.
pub fn read_block(lba: u32, task: TaskId, timeout: u64) -> (read: BlockRead)
    ensures
        read@ == (BlockReadView { task, lba, timeout, state: BlockStateView::Locking }),
{
    BlockRead { task, lba, timeout, finished: false, running: None }
}

impl BlockRead {
    fn settle(
        &mut self,
        command: ReadCommand,
        guard: AsyncMutexGuard,
        drive: &mut Drive,
        irq: &mut InterruptFuture,
    ) -> (poll: BlockPoll)
        requires
            old(self).running is None,
        ensures
            old(self)@.settles(
                command@,
                old(drive)@,
                old(irq)@,
                final(self)@,
                final(drive)@,
                final(irq)@,
                poll@,
            ),
    {
        let mut command = command;
        match command.request() {
            DriveRequest::Io(request) => {
                self.running = Some((command, guard));
                BlockPoll::Io(request)
            },
            DriveRequest::AwaitInterrupt => {
                if irq.poll(self.task) {
                    command.interrupt();
                    let next = command.request();
                    self.running = Some((command, guard));
                    match next {
                        DriveRequest::Io(request) => BlockPoll::Io(request),
                        _ => unreached(),
                    }
                } else {
                    self.running = Some((command, guard));
                    BlockPoll::Pending
                }
            },
            DriveRequest::Finished => {
                self.finished = true;
                let result = match command.result() {
                    Some(Err(e)) => Err(e),
                    Some(Ok(block)) => {
                        let kept = match drive.get(&guard) {
                            Some(bus) => {
                                let mut bus = *bus;
                                bus.set_block(block);
                                Some(bus)
                            },
                            None => None,
                        };
                        drive.set(&guard, kept);
                        Ok(block)
                    },
                    None => unreached(),
                };
                let wake = drive.unlock(guard);
                BlockPoll::Ready(result, wake)
            },
        }
    }

    /// One poll of the read, with what came back at `now` from the access
    /// that the last poll asked for (anything at the first poll, after a
    /// write and after a wait).
    pub fn poll(&mut self, drive: &mut Drive, irq: &mut InterruptFuture, reply: u16, now: u64) -> (poll:
        BlockPoll)
        ensures
            old(self)@.polled(
                old(drive)@,
                old(irq)@,
                reply,
                now,
                final(self)@,
                final(drive)@,
                final(irq)@,
                poll@,
            ),
    {
        match self.running.take() {
            Some((command, guard)) => {
                let mut command = command;
                command.reply(reply, now);
                self.settle(command, guard, drive, irq)
            },
            None => {
                if self.finished {
                    return BlockPoll::Ready(Err(DriveError::Finished), None);
                }
                let guard = match drive.poll_lock(self.task) {
                    Some(guard) => guard,
                    None => {
                        return BlockPoll::Pending;
                    },
                };
                let command = match drive.get(&guard) {
                    Some(bus) => ReadCommand::new(
                        bus,
                        self.lba,
                        ReadMode::Interrupt,
                        now,
                        self.timeout,
                    ),
                    None => {
                        self.finished = true;
                        let wake = drive.unlock(guard);
                        return BlockPoll::Ready(Err(DriveError::NoDrive), wake);
                    },
                };
                self.settle(command, guard, drive, irq)
            },
        }
    }

    /// Whoever gets a sector or an error from a read has the drive no more:
    /// a poll that is ready leaves the drive free, unless the read had ended
    /// before.
    pub proof fn lemma_ready_releases(
        before: BlockReadView,
        drive: DriveView,
        irq: InterruptView,
        reply: u16,
        now: u64,
        after: BlockReadView,
        drive_after: DriveView,
        irq_after: InterruptView,
        poll: BlockPollView,
    )
        requires
            before.polled(drive, irq, reply, now, after, drive_after, irq_after, poll),
            !(before.state is Finished),
        ensures
            poll is Ready ==> !drive_after.held && after.state is Finished,
            !(poll is Ready) ==> (after.state is Running <==> before.state is Running
                || !drive.held),
            after.state is Running && before.state is Locking ==> drive_after.held,
    {
    }
}

} // verus!
