//! One READ(12) command, port access by port access.

use super::scsi::wire_as_slice;
use super::scsi::SCSIPacket;
use super::ATABus;
use super::DriveError;
use super::PortRequest;
use super::ATA_BSY;
use super::ATA_CMD_PACKET;
use super::ATA_DRQ;
use super::ATA_ERR;
use super::ATA_MAX_BASE;
use super::REG_COMMAND;
use super::REG_FEATURES;
use super::REG_LBA_HI;
use super::REG_LBA_MID;
use super::REG_SECTOR_COUNT;
use vstd::prelude::*;

verus! {

/// How the end of the packet phase is awaited.
#[derive(Debug, Clone, Copy, PartialEq, Eq, Structural)]
pub enum ReadMode {
    /// The task sleeps until the drive interrupts.
    Interrupt,
    /// The sector count register is polled.
    Polled,
}

/// Where a read command stands: which access, or which event, is awaited.
#[derive(Debug, Clone, Copy, PartialEq, Eq, Structural)]
pub enum ReadPhase {
    /// The status, until the drive is not busy.
    WaitBusy,
    /// The write number `0` to `4` of the command block.
    Command(u8),
    /// The status, until the drive asks for the packet.
    WaitRequest,
    /// The write of packet word `0` to `5`.
    Packet(u8),
    /// The interrupt that says the data is ready.
    Interrupt,
    /// The sector count, until it says the data is ready.
    WaitTransmit,
    /// The low byte of the byte count.
    CountLow,
    /// The high byte of the byte count.
    CountHigh,
    /// The read of data word `0` to `1023`.
    Data(u16),
    /// The sector count, until it says the command is complete.
    WaitComplete,
    /// The status, until the drive has ended the command.
    WaitEnd,
    /// The sector is read.
    Done,
    /// The command failed.
    Failed(DriveError),
}

/// What a read command asks for.
#[derive(Debug, Clone, Copy, PartialEq, Eq, Structural)]
pub enum DriveRequest {
    /// Perform this access and hand what was read to `reply`.
    Io(PortRequest),
    /// Wait for the drive's interrupt, then call `interrupt`.
    AwaitInterrupt,
    /// Nothing: the command has ended.
    Finished,
}

/// What a read command holds.
pub struct ReadCommandView {
    /// Base port of the bus.
    pub base: u16,
    /// How the data is awaited.
    pub mode: ReadMode,
    /// Where the command stands.
    pub phase: ReadPhase,
    /// The six words of the packet.
    pub words: Seq<u16>,
    /// The sector, as far as it is read.
    pub block: Seq<u8>,
    /// The tick at which the current wait began.
    pub started: u64,
    /// How many ticks a wait may take.
    pub timeout: u64,
    /// The byte count that the drive announced.
    pub byte_count: u16,
}

/// The write number `k` of the command block: features and sector count
/// zero, the byte count limit of one sector in the address registers, then
/// the PACKET command.
pub open spec fn command_write(base: u16, k: int) -> PortRequest {
    if k == 0 {
        PortRequest::Write8 { port: (base + REG_FEATURES) as u16, value: 0 }
    } else if k == 1 {
        PortRequest::Write8 { port: (base + REG_SECTOR_COUNT) as u16, value: 0 }
    } else if k == 2 {
        PortRequest::Write8 { port: (base + REG_LBA_MID) as u16, value: 0x00 }
    } else if k == 3 {
        PortRequest::Write8 { port: (base + REG_LBA_HI) as u16, value: 0x08 }
    } else {
        PortRequest::Write8 { port: (base + REG_COMMAND) as u16, value: ATA_CMD_PACKET }
    }
}

/// The six words that carry the twelve bytes `bytes`, each word with its
/// first byte low.
pub open spec fn packet_words(bytes: Seq<u8>) -> Seq<u16> {
    Seq::new(6, |k: int| (bytes[2 * k] + bytes[2 * k + 1] * 0x100) as u16)
}

/// Whether a wait that began at `started` has taken more than `timeout`
/// ticks at `now`.
pub open spec fn timed_out(started: u64, timeout: u64, now: u64) -> bool {
    now - started > timeout
}

impl ReadCommandView {
    /// What the command asks for.
    pub open spec fn request(self) -> DriveRequest {
        match self.phase {
            ReadPhase::WaitBusy | ReadPhase::WaitRequest | ReadPhase::WaitEnd => DriveRequest::Io(
                PortRequest::Read8 { port: (self.base + REG_COMMAND) as u16 },
            ),
            ReadPhase::Command(k) => DriveRequest::Io(command_write(self.base, k as int)),
            ReadPhase::Packet(k) => DriveRequest::Io(
                PortRequest::Write16 { port: self.base, value: self.words[k as int] },
            ),
            ReadPhase::Interrupt => DriveRequest::AwaitInterrupt,
            ReadPhase::WaitTransmit | ReadPhase::WaitComplete => DriveRequest::Io(
                PortRequest::Read8 { port: (self.base + REG_SECTOR_COUNT) as u16 },
            ),
            ReadPhase::CountLow => DriveRequest::Io(
                PortRequest::Read8 { port: (self.base + REG_LBA_MID) as u16 },
            ),
            ReadPhase::CountHigh => DriveRequest::Io(
                PortRequest::Read8 { port: (self.base + REG_LBA_HI) as u16 },
            ),
            ReadPhase::Data(_) => DriveRequest::Io(PortRequest::Read16 { port: self.base }),
            ReadPhase::Done | ReadPhase::Failed(_) => DriveRequest::Finished,
        }
    }

    /// The command in a new wait that begins at `now`.
    pub open spec fn waiting(self, phase: ReadPhase, now: u64) -> ReadCommandView {
        ReadCommandView { phase, started: now, ..self }
    }

    /// The command in the phase `phase`.
    pub open spec fn at(self, phase: ReadPhase) -> ReadCommandView {
        ReadCommandView { phase, ..self }
    }

    /// A wait that saw what it waited for goes on to `next`; one that did
    /// not fails when its time is over, and stays as it is otherwise.
    pub open spec fn wait(self, seen: bool, next: ReadCommandView, now: u64) -> ReadCommandView {
        if seen {
            next
        } else if timed_out(self.started, self.timeout, now) {
            self.at(ReadPhase::Failed(DriveError::Timeout))
        } else {
            self
        }
    }

    /// The command after `value` came back at `now` from the access that was
    /// out. A byte is the low half of `value`.
    ///
    /// Once the drive is not busy the command block is written. Once the
    /// drive is not busy and asks for data the packet is written. Then the
    /// data is awaited, by interrupt or by polling the sector count for 2;
    /// after an interrupt the byte count is read. The 1024 data words are
    /// unpacked low byte first. The polled command awaits a sector count of
    /// 3. At last the drive must be neither busy nor asking for data, and
    /// must not report an error.
    pub open spec fn after_reply(self, value: u16, now: u64) -> ReadCommandView {
        let status = (value % 0x100) as u8;
        match self.phase {
            ReadPhase::WaitBusy => self.wait(
                status & ATA_BSY == 0,
                self.at(ReadPhase::Command(0)),
                now,
            ),
            ReadPhase::Command(k) => if k < 4 {
                self.at(ReadPhase::Command((k + 1) as u8))
            } else {
                self.waiting(ReadPhase::WaitRequest, now)
            },
            ReadPhase::WaitRequest => self.wait(
                status & ATA_BSY == 0 && status & ATA_DRQ != 0,
                self.at(ReadPhase::Packet(0)),
                now,
            ),
            ReadPhase::Packet(k) => if k < 5 {
                self.at(ReadPhase::Packet((k + 1) as u8))
            } else if self.mode == ReadMode::Interrupt {
                self.at(ReadPhase::Interrupt)
            } else {
                self.waiting(ReadPhase::WaitTransmit, now)
            },
            ReadPhase::Interrupt => self,
            ReadPhase::WaitTransmit => self.wait(status == 2, self.at(ReadPhase::Data(0)), now),
            ReadPhase::CountLow => ReadCommandView {
                phase: ReadPhase::CountHigh,
                byte_count: status as u16,
                ..self
            },
            ReadPhase::CountHigh => ReadCommandView {
                phase: ReadPhase::Data(0),
                byte_count: (self.byte_count + status * 0x100) as u16,
                ..self
            },
            ReadPhase::Data(k) => {
                let filled = ReadCommandView {
                    block: self.block.update(2 * k, (value % 0x100) as u8).update(
                        2 * k + 1,
                        (value / 0x100) as u8,
                    ),
                    ..self
                };
                if k < 1023 {
                    filled.at(ReadPhase::Data((k + 1) as u16))
                } else if self.mode == ReadMode::Interrupt {
                    filled.waiting(ReadPhase::WaitEnd, now)
                } else {
                    filled.waiting(ReadPhase::WaitComplete, now)
                }
            },
            ReadPhase::WaitComplete => self.wait(
                status == 3,
                self.waiting(ReadPhase::WaitEnd, now),
                now,
            ),
            ReadPhase::WaitEnd => self.wait(
                status & ATA_BSY == 0 && status & ATA_DRQ == 0,
                if status & ATA_ERR != 0 {
                    self.at(ReadPhase::Failed(DriveError::DeviceError))
                } else {
                    self.at(ReadPhase::Done)
                },
                now,
            ),
            ReadPhase::Done | ReadPhase::Failed(_) => self,
        }
    }

    /// The command after the awaited interrupt: the byte count is read
    /// next. An interrupt that is not awaited changes nothing.
    pub open spec fn after_interrupt(self) -> ReadCommandView {
        if self.phase == ReadPhase::Interrupt {
            self.at(ReadPhase::CountLow)
        } else {
            self
        }
    }

    /// The command after the values `values` came back, one after the
    /// other, all at `now`.
    pub open spec fn after_replies(self, values: Seq<u16>, now: u64) -> ReadCommandView
        decreases values.len(),
    {
        if values.len() == 0 {
            self
        } else {
            self.after_reply(values[0], now).after_replies(values.skip(1), now)
        }
    }

    /// The sector that the 1024 data words `words` carry: each word gives
    /// two bytes, the low one first.
    pub open spec fn unpacked(words: Seq<u16>) -> Seq<u8> {
        Seq::new(
            2048,
            |i: int|
                if i % 2 == 0 {
                    (words[i / 2] % 0x100) as u8
                } else {
                    (words[i / 2] / 0x100) as u8
                },
        )
    }

    /// The data phase fills the sector with the words that the drive hands
    /// over, each unpacked low byte first, and goes on to await the end of
    /// the command.
    pub proof fn lemma_data_phase(self, words: Seq<u16>, now: u64)
        requires
            self.phase == ReadPhase::Data(0),
            self.block.len() == 2048,
            words.len() == 1024,
        ensures
            self.after_replies(words, now).block == Self::unpacked(words),
            self.after_replies(words, now).phase == if self.mode == ReadMode::Interrupt {
                ReadPhase::WaitEnd
            } else {
                ReadPhase::WaitComplete
            },
            self.after_replies(words, now) == (ReadCommandView {
                block: self.after_replies(words, now).block,
                phase: self.after_replies(words, now).phase,
                started: now,
                ..self
            }),
    {
        assert(words.skip(0) =~= words);
        self.lemma_data_words(0, words, words, now);
        assert(self.after_replies(words, now).block =~= Self::unpacked(words));
    }

    proof fn lemma_data_words(self, done: int, all: Seq<u16>, rest: Seq<u16>, now: u64)
        requires
            0 <= done < 1024,
            self.phase == ReadPhase::Data(done as u16),
            self.block.len() == 2048,
            all.len() == 1024,
            rest == all.skip(done),
        ensures
            ({
                let end = self.after_replies(rest, now);
                &&& end.block.len() == 2048
                &&& forall|i: int| 0 <= i < 2 * done ==> end.block[i] == self.block[i]
                &&& forall|i: int| 2 * done <= i < 2048 ==> end.block[i] == Self::unpacked(all)[i]
                &&& end.phase == if self.mode == ReadMode::Interrupt {
                    ReadPhase::WaitEnd
                } else {
                    ReadPhase::WaitComplete
                }
                &&& end == (ReadCommandView {
                    block: end.block,
                    phase: end.phase,
                    started: now,
                    ..self
                })
            }),
        decreases 1024 - done,
    {
        let next = self.after_reply(rest[0], now);
        assert(rest[0] == all[done]);
        assert(rest.skip(1) =~= all.skip(done + 1));
        if done < 1023 {
            next.lemma_data_words(done + 1, all, rest.skip(1), now);
        } else {
            assert(rest.skip(1).len() == 0);
            assert(next.after_replies(rest.skip(1), now) == next);
        }
    }
}

/// One READ(12) of one sector, access by access.
#[derive(Debug, Clone, Copy)]
pub struct ReadCommand {
    base: u16,
    mode: ReadMode,
    phase: ReadPhase,
    words: [u16; 6],
    block: [u8; 2048],
    started: u64,
    timeout: u64,
    byte_count: u16,
}

impl View for ReadCommand {
    type V = ReadCommandView;

    closed spec fn view(&self) -> ReadCommandView {
        ReadCommandView {
            base: self.base,
            mode: self.mode,
            phase: self.phase,
            words: self.words@,
            block: self.block@,
            started: self.started,
            timeout: self.timeout,
            byte_count: self.byte_count,
        }
    }
}

fn low_byte(value: u16) -> (b: u8)
    ensures
        b == value % 0x100,
{
    let low: u16 = value & 0xff;
    assert(low == value % 0x100) by (bit_vector)
        requires
            low == value & 0xff,
    ;
    low as u8
}

fn high_byte(value: u16) -> (b: u8)
    ensures
        b == value / 0x100,
{
    let high: u16 = value >> 8;
    assert(high == value / 0x100) by (bit_vector)
        requires
            high == value >> 8,
    ;
    high as u8
}

impl ReadCommand {
    #[verifier::type_invariant]
    closed spec fn inv(&self) -> bool {
        &&& self.base <= ATA_MAX_BASE
        &&& match self.phase {
            ReadPhase::Command(k) => k < 5,
            ReadPhase::Packet(k) => k < 6,
            ReadPhase::Data(k) => k < 1024,
            ReadPhase::CountHigh => self.byte_count < 0x100,
            _ => true,
        }
    }

    /// The read of the sector `lba` on the bus of `bus`, about to wait for
    /// the drive from `now` on, no wait longer than `timeout` ticks.
    pub fn new(bus: &ATABus, lba: u32, mode: ReadMode, now: u64, timeout: u64) -> (command: Self)
        ensures
            command@ == (ReadCommandView {
                base: bus@.base_port,
                mode,
                phase: ReadPhase::WaitBusy,
                words: packet_words(SCSIPacket::spec_read_12(lba)@),
                block: Seq::new(2048, |i: int| 0u8),
                started: now,
                timeout,
                byte_count: 0,
            }),
    {
        let packet = SCSIPacket::read_12(lba);
        let raw = packet.serialize();
        let bytes = wire_as_slice(&raw);
        let mut words: [u16; 6] = [0u16;6];
        let mut k: usize = 0;
        while k < 6
            invariant
                k <= 6,
                bytes@.len() == 12,
                forall|j: int| 0 <= j < k ==> words@[j] == packet_words(bytes@)[j],
            decreases 6 - k,
        {
            words[k] = bytes[2 * k] as u16 + bytes[2 * k + 1] as u16 * 0x100;
            k += 1;
        }
        let command = ReadCommand {
            base: bus.base_port(),
            mode,
            phase: ReadPhase::WaitBusy,
            words,
            block: [0u8;2048],
            started: now,
            timeout,
            byte_count: 0,
        };
        assert(command.words@ =~= packet_words(SCSIPacket::spec_read_12(lba)@));
        assert(command.block@ =~= Seq::new(2048, |i: int| 0u8));
        command
    }

    /// What the command asks for.
    pub fn request(&self) -> (request: DriveRequest)
        ensures
            request == self@.request(),
    {
        proof {
            use_type_invariant(self);
        }
        match self.phase {
            ReadPhase::WaitBusy | ReadPhase::WaitRequest | ReadPhase::WaitEnd => DriveRequest::Io(
                PortRequest::Read8 { port: self.base + REG_COMMAND },
            ),
            ReadPhase::Command(k) => {
                let request = if k == 0 {
                    PortRequest::Write8 { port: self.base + REG_FEATURES, value: 0 }
                } else if k == 1 {
                    PortRequest::Write8 { port: self.base + REG_SECTOR_COUNT, value: 0 }
                } else if k == 2 {
                    PortRequest::Write8 { port: self.base + REG_LBA_MID, value: 0x00 }
                } else if k == 3 {
                    PortRequest::Write8 { port: self.base + REG_LBA_HI, value: 0x08 }
                } else {
                    PortRequest::Write8 { port: self.base + REG_COMMAND, value: ATA_CMD_PACKET }
                };
                DriveRequest::Io(request)
            },
            ReadPhase::Packet(k) => DriveRequest::Io(
                PortRequest::Write16 { port: self.base, value: self.words[k as usize] },
            ),
            ReadPhase::Interrupt => DriveRequest::AwaitInterrupt,
            ReadPhase::WaitTransmit | ReadPhase::WaitComplete => DriveRequest::Io(
                PortRequest::Read8 { port: self.base + REG_SECTOR_COUNT },
            ),
            ReadPhase::CountLow => DriveRequest::Io(
                PortRequest::Read8 { port: self.base + REG_LBA_MID },
            ),
            ReadPhase::CountHigh => DriveRequest::Io(
                PortRequest::Read8 { port: self.base + REG_LBA_HI },
            ),
            ReadPhase::Data(_) => DriveRequest::Io(PortRequest::Read16 { port: self.base }),
            ReadPhase::Done | ReadPhase::Failed(_) => DriveRequest::Finished,
        }
    }

    fn wait(&mut self, seen: bool, next: ReadPhase, restart: bool, now: u64)
        requires
            match next {
                ReadPhase::Command(k) => k < 5,
                ReadPhase::Packet(k) => k < 6,
                ReadPhase::Data(k) => k < 1024,
                ReadPhase::CountHigh => false,
                _ => true,
            },
        ensures
            final(self)@ == old(self)@.wait(
                seen,
                if restart {
                    old(self)@.waiting(next, now)
                } else {
                    old(self)@.at(next)
                },
                now,
            ),
    {
        proof {
            use_type_invariant(&*self);
        }
        if seen {
            self.phase = next;
            if restart {
                self.started = now;
            }
        } else if now > self.started && now - self.started > self.timeout {
            self.phase = ReadPhase::Failed(DriveError::Timeout);
        }
    }

    /// Takes what came back at `now` from the access that was out.
    pub fn reply(&mut self, value: u16, now: u64)
        ensures
            final(self)@ == old(self)@.after_reply(value, now),
    {
        proof {
            use_type_invariant(&*self);
        }
        let status = low_byte(value);
        match self.phase {
            ReadPhase::WaitBusy => {
                self.wait(status & ATA_BSY == 0, ReadPhase::Command(0), false, now);
            },
            ReadPhase::Command(k) => {
                if k < 4 {
                    self.phase = ReadPhase::Command(k + 1);
                } else {
                    self.phase = ReadPhase::WaitRequest;
                    self.started = now;
                }
            },
            ReadPhase::WaitRequest => {
                self.wait(
                    status & ATA_BSY == 0 && status & ATA_DRQ != 0,
                    ReadPhase::Packet(0),
                    false,
                    now,
                );
            },
            ReadPhase::Packet(k) => {
                if k < 5 {
                    self.phase = ReadPhase::Packet(k + 1);
                } else if self.mode == ReadMode::Interrupt {
                    self.phase = ReadPhase::Interrupt;
                } else {
                    self.phase = ReadPhase::WaitTransmit;
                    self.started = now;
                }
            },
            ReadPhase::Interrupt => {},
            ReadPhase::WaitTransmit => {
                self.wait(status == 2, ReadPhase::Data(0), false, now);
            },
            ReadPhase::CountLow => {
                self.byte_count = status as u16;
                self.phase = ReadPhase::CountHigh;
            },
            ReadPhase::CountHigh => {
                let low = self.byte_count;
                self.phase = ReadPhase::Data(0);
                self.byte_count = low + status as u16 * 0x100;
            },
            ReadPhase::Data(k) => {
                let at = 2 * k as usize;
                self.block[at] = low_byte(value);
                self.block[at + 1] = high_byte(value);
                if k < 1023 {
                    self.phase = ReadPhase::Data(k + 1);
                } else if self.mode == ReadMode::Interrupt {
                    self.phase = ReadPhase::WaitEnd;
                    self.started = now;
                } else {
                    self.phase = ReadPhase::WaitComplete;
                    self.started = now;
                }
            },
            ReadPhase::WaitComplete => {
                self.wait(status == 3, ReadPhase::WaitEnd, true, now);
            },
            ReadPhase::WaitEnd => {
                let next = if status & ATA_ERR != 0 {
                    ReadPhase::Failed(DriveError::DeviceError)
                } else {
                    ReadPhase::Done
                };
                self.wait(status & ATA_BSY == 0 && status & ATA_DRQ == 0, next, false, now);
            },
            ReadPhase::Done | ReadPhase::Failed(_) => {},
        }
    }

    /// Takes the interrupt of the drive.
    pub fn interrupt(&mut self)
        ensures
            final(self)@ == old(self)@.after_interrupt(),
    {
        proof {
            use_type_invariant(&*self);
        }
        if self.phase == ReadPhase::Interrupt {
            self.phase = ReadPhase::CountLow;
        }
    }

    /// The sector, once the command is done; the error, once it has failed;
    /// `None` while it runs.
    pub fn result(&self) -> (r: Option<Result<[u8; 2048], DriveError>>)
        ensures
            match self@.phase {
                ReadPhase::Done => r matches Some(Ok(block)) && block@ == self@.block,
                ReadPhase::Failed(e) => r matches Some(Err(f)) && f == e,
                _ => r is None,
            },
    {
        match self.phase {
            ReadPhase::Done => Some(Ok(self.block)),
            ReadPhase::Failed(e) => Some(Err(e)),
            _ => None,
        }
    }
}

impl ATABus {
    /// Begins the read of the sector `lba` that sleeps until the drive
    /// interrupts.
    pub fn read_block(&self, lba: u32, now: u64, timeout: u64) -> (command: ReadCommand)
        ensures
            command@ == (ReadCommandView {
                base: self@.base_port,
                mode: ReadMode::Interrupt,
                phase: ReadPhase::WaitBusy,
                words: packet_words(SCSIPacket::spec_read_12(lba)@),
                block: Seq::new(2048, |i: int| 0u8),
                started: now,
                timeout,
                byte_count: 0,
            }),
    {
        ReadCommand::new(self, lba, ReadMode::Interrupt, now, timeout)
    }

    /// Begins the read of the sector `lba` that polls the sector count
    /// register for the state of the transfer.
    pub fn sync_read_block(&self, lba: u32, now: u64, timeout: u64) -> (command: ReadCommand)
        ensures
            command@ == (ReadCommandView {
                base: self@.base_port,
                mode: ReadMode::Polled,
                phase: ReadPhase::WaitBusy,
                words: packet_words(SCSIPacket::spec_read_12(lba)@),
                block: Seq::new(2048, |i: int| 0u8),
                started: now,
                timeout,
                byte_count: 0,
            }),
    {
        ReadCommand::new(self, lba, ReadMode::Polled, now, timeout)
    }
}

} // verus!
