//! The ATAPI CD-ROM driver: how a drive is found, how one sector is read
//! with a SCSI READ(12) packet, and how readers take turns. The driver
//! decides; the owner of the ports performs the accesses it asks for and
//! hands back what was read.

use interrupt::InterruptFuture;
use vstd::prelude::*;
use vstd::string::StringExecFns;

pub use block::read_block;
pub use block::BlockPoll;
pub use block::BlockPollView;
pub use block::BlockRead;
pub use block::BlockReadView;
pub use block::BlockStateView;
pub use block::Drive;
pub use block::DriveView;
pub use command::DriveRequest;
pub use command::ReadCommand;
pub use command::ReadCommandView;
pub use command::ReadMode;
pub use command::ReadPhase;
pub use discovery::candidate_at;
pub use discovery::is_atapi;
pub use discovery::Discovery;
pub use discovery::DiscoveryView;
pub use discovery::ProbeStep;
pub use discovery::ProbeStepView;

pub mod block;
pub mod command;
pub mod discovery;
pub mod interrupt;
pub mod scsi;

verus! {


/// Size in bytes of a sector of a CD.
pub const CD_SECTOR_SIZE: usize = 2048;

/// Base port of the primary bus.
pub const ATA_BUS_PRIMARY: u16 = 0x1f0;

/// Base port of the secondary bus.
pub const ATA_BUS_SECONDARY: u16 = 0x170;

/// Drive-select byte of the master drive.
pub const ATA_DRIVE_MASTER: u8 = 0xa0;

/// Drive-select byte of the slave drive.
pub const ATA_DRIVE_SLAVE: u8 = 0xb0;

/// The PACKET command.
pub const ATA_CMD_PACKET: u8 = 0xa0;

/// Status bit: the last command failed.
pub const ATA_ERR: u8 = 0x01;

/// Status bit: the drive is ready to move data.
pub const ATA_DRQ: u8 = 0x08;

/// Status bit: overlapped service is requested.
pub const ATA_SRV: u8 = 0x10;

/// Status bit: the drive is faulty.
pub const ATA_DF: u8 = 0x20;

/// Status bit: the drive is spun up.
pub const ATA_RDY: u8 = 0x40;

/// Status bit: the drive is busy.
pub const ATA_BSY: u8 = 0x80;

/// Device control bit: the drive sends no interrupts.
pub const ATA_INTERRUPT_DISABLE: u8 = 0x02;

/// Device control bit: software reset.
pub const ATA_SRST: u8 = 0x04;

/// Signature of an ATAPI drive in the sector count register.
pub const ATAPI_SIG_SC: u8 = 0x01;

/// Signature of an ATAPI drive in the low address register.
pub const ATAPI_SIG_LBA_LO: u8 = 0x01;

/// Signature of an ATAPI drive in the middle address register.
pub const ATAPI_SIG_LBA_MI: u8 = 0x14;

/// Signature of an ATAPI drive in the high address register.
pub const ATAPI_SIG_LBA_HI: u8 = 0xeb;

/// Offset of the data register from the base port.
pub const REG_DATA: u16 = 0;

/// Offset of the features register (written) and the error register (read).
pub const REG_FEATURES: u16 = 1;

/// Offset of the sector count register.
pub const REG_SECTOR_COUNT: u16 = 2;

/// Offset of the low address register.
pub const REG_LBA_LO: u16 = 3;

/// Offset of the middle address register.
pub const REG_LBA_MID: u16 = 4;

/// Offset of the high address register.
pub const REG_LBA_HI: u16 = 5;

/// Offset of the drive select register.
pub const REG_DRIVE_SELECT: u16 = 6;

/// Offset of the command register (written) and the status register (read).
pub const REG_COMMAND: u16 = 7;

/// Offset of the device control register.
pub const REG_DCR: u16 = 0x206;

/// The largest base port whose registers all have a port number.
pub const ATA_MAX_BASE: u16 = 0xfdf9;

/// One access to an I/O port.
#[derive(Debug, Clone, Copy, PartialEq, Eq, Structural)]
pub enum PortRequest {
    /// Write the byte `value` to `port`.
    Write8 { port: u16, value: u8 },
    /// Write the word `value` to `port`.
    Write16 { port: u16, value: u16 },
    /// Read a byte from `port`.
    Read8 { port: u16 },
    /// Read a word from `port`.
    Read16 { port: u16 },
}

/// Why a sector was not read.
#[derive(Debug, Clone, Copy, PartialEq, Eq, Structural)]
pub enum DriveError {
    /// No ATAPI drive was found.
    NoDrive,
    /// The drive did not reach the awaited state in time.
    Timeout,
    /// The drive reported an error after the command.
    DeviceError,
    /// The read had ended before.
    Finished,
}

/// What a drive handle holds.
pub struct ATABusView {
    /// Base port of the bus.
    pub base_port: u16,
    /// Drive-select byte of the selected drive.
    pub current_drive: u8,
    /// The sector that was read last.
    pub block: Seq<u8>,
}

/// The handle of the selected drive of one bus, with the sector read last.
#[derive(Debug, Clone, Copy)]
pub struct ATABus {
    base_port: u16,
    current_drive: u8,
    block: [u8; 2048],
}

impl View for ATABus {
    type V = ATABusView;

    closed spec fn view(&self) -> ATABusView {
        ATABusView {
            base_port: self.base_port,
            current_drive: self.current_drive,
            block: self.block@,
        }
    }
}

impl ATABus {
    #[verifier::type_invariant]
    closed spec fn inv(&self) -> bool {
        self.base_port <= ATA_MAX_BASE
    }

    /// The handle of the bus at `port`, with no drive selected and an empty
    /// sector buffer.
    pub fn new(port: u16) -> (bus: Self)
        requires
            port <= ATA_MAX_BASE,
        ensures
            bus@ == (ATABusView {
                base_port: port,
                current_drive: 0,
                block: Seq::new(2048, |i: int| 0u8),
            }),
    {
        let bus = ATABus { base_port: port, current_drive: 0, block: [0u8;2048] };
        assert(bus.block@ =~= Seq::new(2048, |i: int| 0u8));
        bus
    }

    /// Notes `drive` as the selected drive.
    pub fn select_drive(&mut self, drive: u8)
        ensures
            final(self)@ == (ATABusView { current_drive: drive, ..old(self)@ }),
    {
        proof {
            use_type_invariant(&*self);
        }
        self.current_drive = drive;
    }

    /// Base port of the bus.
    pub fn base_port(&self) -> (port: u16)
        ensures
            port == self@.base_port,
            port <= ATA_MAX_BASE,
    {
        proof {
            use_type_invariant(self);
        }
        self.base_port
    }

    /// Drive-select byte of the selected drive.
    pub fn current_drive(&self) -> (drive: u8)
        ensures
            drive == self@.current_drive,
    {
        self.current_drive
    }

    /// The sector that was read last.
    pub fn block(&self) -> (block: &[u8; 2048])
        ensures
            block@ == self@.block,
    {
        &self.block
    }

    /// Keeps `block` as the sector read last.
    pub fn set_block(&mut self, block: [u8; 2048])
        ensures
            final(self)@ == (ATABusView { block: block@, ..old(self)@ }),
    {
        proof {
            use_type_invariant(&*self);
        }
        self.block = block;
    }
}

/// The name of the drive with the drive-select byte `drive`.
pub open spec fn drive_name(drive: u8) -> Seq<char> {
    if drive == ATA_DRIVE_MASTER {
        "master"@
    } else if drive == ATA_DRIVE_SLAVE {
        "slave"@
    } else {
        "bad"@
    }
}

/// The name of the bus at the base port `base`.
pub open spec fn bus_name(base: u16) -> Seq<char> {
    if base == ATA_BUS_PRIMARY {
        "primary"@
    } else if base == ATA_BUS_SECONDARY {
        "secondary"@
    } else {
        "bad"@
    }
}

/// What the driver reports of the drive it found, or did not find.
pub open spec fn init_report(drive: Option<ATABus>) -> Seq<char> {
    match drive {
        None => "No drive detected"@,
        Some(bus) => "Detected "@ + drive_name(bus@.current_drive) + " drive on "@ + bus_name(
            bus@.base_port,
        ) + " bus"@,
    }
}

/// Reports what discovery found and takes an interrupt that may have stayed
/// from before, so that the first read waits for its own.
pub fn init(drive: &Option<ATABus>, notifier: &mut InterruptFuture) -> (report: String)
    ensures
        report@ == init_report(*drive),
        final(notifier)@ == old(notifier)@.popped(),
{
    notifier.pop();
    match drive {
        None => String::from_str("No drive detected"),
        Some(bus) => {
            let drive_type = if bus.current_drive() == ATA_DRIVE_MASTER {
                "master"
            } else if bus.current_drive() == ATA_DRIVE_SLAVE {
                "slave"
            } else {
                "bad"
            };
            let bus_type = if bus.base_port() == ATA_BUS_PRIMARY {
                "primary"
            } else if bus.base_port() == ATA_BUS_SECONDARY {
                "secondary"
            } else {
                "bad"
            };
            String::from_str("Detected ").concat(drive_type).concat(" drive on ").concat(
                bus_type,
            ).concat(" bus")
        },
    }
}

} // verus!
