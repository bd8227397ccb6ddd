//! The SCSI READ(12) command descriptor block.

use vstd::pervasive::unreached;
use vstd::prelude::*;

verus! {

/// Operation code of READ(12).
pub const SCSI_READ_12: u8 = 0xa8;

/// Length in bytes of a packet on the wire.
pub const SCSI_PACKET_SIZE: usize = 12;

/// The big-endian value of four bytes, most significant first.
pub open spec fn be_value(b3: u8, b2: u8, b1: u8, b0: u8) -> int {
    b3 as int * 0x100_0000 + b2 as int * 0x1_0000 + b1 as int * 0x100 + b0 as int
}

/// A 12-byte packet command. Multi-byte fields are big-endian.
#[derive(Debug, Clone, Copy, PartialEq, Eq, Structural)]
pub struct SCSIPacket {
    /// Operation code.
    pub op_code: u8,
    /// Flags in front of the address.
    pub flags_lo: u8,
    /// Most significant byte of the address.
    pub lba_hi: u8,
    /// Second byte of the address.
    pub lba_mihi: u8,
    /// Third byte of the address.
    pub lba_milo: u8,
    /// Least significant byte of the address.
    pub lba_lo: u8,
    /// Most significant byte of the transfer length.
    pub transfer_length_hi: u8,
    /// Second byte of the transfer length.
    pub transfer_length_mihi: u8,
    /// Third byte of the transfer length.
    pub transfer_length_milo: u8,
    /// Least significant byte of the transfer length.
    pub transfer_length_lo: u8,
    /// Flags behind the transfer length.
    pub flags_hi: u8,
    /// Control byte.
    pub control: u8,
}

impl Default for SCSIPacket {
    /// An all-zero packet.
    fn default() -> (packet: Self)
        ensures
            packet@ == Seq::new(12, |i: int| 0u8),
    {
        SCSIPacket::new()
    }
}

impl View for SCSIPacket {
    type V = Seq<u8>;

    /// The packet as it travels: its twelve fields in declaration order.
    open spec fn view(&self) -> Seq<u8> {
        seq![
            self.op_code,
            self.flags_lo,
            self.lba_hi,
            self.lba_mihi,
            self.lba_milo,
            self.lba_lo,
            self.transfer_length_hi,
            self.transfer_length_mihi,
            self.transfer_length_milo,
            self.transfer_length_lo,
            self.flags_hi,
            self.control,
        ]
    }
}

impl SCSIPacket {
    /// The logical block address that the packet names.
    pub open spec fn lba(&self) -> int {
        be_value(self.lba_hi, self.lba_mihi, self.lba_milo, self.lba_lo)
    }

    /// The number of sectors that the packet asks for.
    pub open spec fn transfer_length(&self) -> int {
        be_value(
            self.transfer_length_hi,
            self.transfer_length_mihi,
            self.transfer_length_milo,
            self.transfer_length_lo,
        )
    }

    /// The packet that `bytes` spell, if there are exactly twelve of them.
    pub open spec fn spec_parse(bytes: Seq<u8>) -> Option<SCSIPacket> {
        if bytes.len() == 12 {
            Some(
                SCSIPacket {
                    op_code: bytes[0],
                    flags_lo: bytes[1],
                    lba_hi: bytes[2],
                    lba_mihi: bytes[3],
                    lba_milo: bytes[4],
                    lba_lo: bytes[5],
                    transfer_length_hi: bytes[6],
                    transfer_length_mihi: bytes[7],
                    transfer_length_milo: bytes[8],
                    transfer_length_lo: bytes[9],
                    flags_hi: bytes[10],
                    control: bytes[11],
                },
            )
        } else {
            None
        }
    }

    /// An all-zero packet.
    pub fn new() -> (packet: Self)
        ensures
            packet@ == Seq::new(12, |i: int| 0u8),
    {
        let packet = SCSIPacket {
            op_code: 0,
            flags_lo: 0,
            lba_hi: 0,
            lba_mihi: 0,
            lba_milo: 0,
            lba_lo: 0,
            transfer_length_hi: 0,
            transfer_length_mihi: 0,
            transfer_length_milo: 0,
            transfer_length_lo: 0,
            flags_hi: 0,
            control: 0,
        };
        assert(packet@ =~= Seq::new(12, |i: int| 0u8));
        packet
    }

    /// The READ(12) packet for one sector at `lba`: the operation code, the
    /// address and a length of one, everything else zero.
    pub open spec fn spec_read_12(lba: u32) -> SCSIPacket {
        SCSIPacket {
            op_code: SCSI_READ_12,
            flags_lo: 0,
            lba_hi: be_bytes(lba).0,
            lba_mihi: be_bytes(lba).1,
            lba_milo: be_bytes(lba).2,
            lba_lo: be_bytes(lba).3,
            transfer_length_hi: 0,
            transfer_length_mihi: 0,
            transfer_length_milo: 0,
            transfer_length_lo: 1,
            flags_hi: 0,
            control: 0,
        }
    }

    /// A READ(12) packet for one sector at `lba`.
    pub fn read_12(lba: u32) -> (packet: Self)
        ensures
            packet == Self::spec_read_12(lba),
            packet.lba() == lba,
            packet.transfer_length() == 1,
    {
        let mut packet = SCSIPacket::new();
        assert(packet@[0] == 0 && packet@[1] == 0 && packet@[10] == 0 && packet@[11] == 0);
        packet.op_code = SCSI_READ_12;
        packet.set_lba(lba);
        packet.set_transfer_length(1);
        packet
    }

    /// The twelve bytes of the packet in wire order.
    pub fn serialize(&self) -> (raw: heapless::Vec<u8, 12>)
        ensures
            wire_bytes(raw) == self@,
    {
        let bytes: [u8; 12] = [
            self.op_code,
            self.flags_lo,
            self.lba_hi,
            self.lba_mihi,
            self.lba_milo,
            self.lba_lo,
            self.transfer_length_hi,
            self.transfer_length_mihi,
            self.transfer_length_milo,
            self.transfer_length_lo,
            self.flags_hi,
            self.control,
        ];
        assert(bytes@ =~= self@);
        match wire_from_slice(bytes.as_slice()) {
            Ok(raw) => raw,
            Err(_) => unreached(),
        }
    }

    /// Reads a packet back from its wire bytes; `None` unless there are
    /// exactly twelve.
    pub fn parse(bytes: &[u8]) -> (packet: Option<Self>)
        ensures
            packet == Self::spec_parse(bytes@),
    {
        if bytes.len() != 12 {
            return None;
        }
        Some(
            SCSIPacket {
                op_code: bytes[0],
                flags_lo: bytes[1],
                lba_hi: bytes[2],
                lba_mihi: bytes[3],
                lba_milo: bytes[4],
                lba_lo: bytes[5],
                transfer_length_hi: bytes[6],
                transfer_length_mihi: bytes[7],
                transfer_length_milo: bytes[8],
                transfer_length_lo: bytes[9],
                flags_hi: bytes[10],
                control: bytes[11],
            },
        )
    }

    /// Reads a packet back from what `serialize` produced.
    pub fn deserialize(raw: &heapless::Vec<u8, 12>) -> (packet: Option<Self>)
        ensures
            packet == Self::spec_parse(wire_bytes(*raw)),
    {
        Self::parse(wire_as_slice(raw))
    }

    /// Parsing the wire form of a packet gives the packet back.
    pub proof fn lemma_parse_serialized(self)
        ensures
            Self::spec_parse(self@) == Some(self),
    {
    }

    /// Stores `lba` big-endian in the four address bytes.
    pub fn set_lba(&mut self, lba: u32)
        ensures
            final(self).lba() == lba,
            (final(self).lba_hi, final(self).lba_mihi, final(self).lba_milo, final(self).lba_lo)
                == be_bytes(lba),
            *final(self) == (SCSIPacket {
                lba_hi: final(self).lba_hi,
                lba_mihi: final(self).lba_mihi,
                lba_milo: final(self).lba_milo,
                lba_lo: final(self).lba_lo,
                ..*old(self)
            }),
    {
        let (b3, b2, b1, b0) = split_be(lba);
        self.lba_hi = b3;
        self.lba_mihi = b2;
        self.lba_milo = b1;
        self.lba_lo = b0;
    }

    /// Stores the sector count `l` big-endian in the four length bytes.
    pub fn set_transfer_length(&mut self, l: u32)
        ensures
            final(self).transfer_length() == l,
            (
                final(self).transfer_length_hi,
                final(self).transfer_length_mihi,
                final(self).transfer_length_milo,
                final(self).transfer_length_lo,
            ) == be_bytes(l),
            *final(self) == (SCSIPacket {
                transfer_length_hi: final(self).transfer_length_hi,
                transfer_length_mihi: final(self).transfer_length_mihi,
                transfer_length_milo: final(self).transfer_length_milo,
                transfer_length_lo: final(self).transfer_length_lo,
                ..*old(self)
            }),
    {
        let (b3, b2, b1, b0) = split_be(l);
        self.transfer_length_hi = b3;
        self.transfer_length_mihi = b2;
        self.transfer_length_milo = b1;
        self.transfer_length_lo = b0;
    }
}

/// Declares the fixed-capacity vector type of the heapless crate.
#[verifier::external_type_specification]
#[verifier::external_body]
#[verifier::reject_recursive_types(T)]
pub struct ExHeaplessVec<T, const N: usize>(heapless::Vec<T, N>);

/// The bytes that a twelve-byte heapless vector holds, first to last.
pub uninterp spec fn wire_bytes(v: heapless::Vec<u8, 12>) -> Seq<u8>;

/// `heapless::Vec::from_slice`: a vector holding a copy of `bytes`, or an
/// error when `bytes` is longer than the capacity of twelve.
#[verifier::external_body]
fn wire_from_slice(bytes: &[u8]) -> (r: Result<heapless::Vec<u8, 12>, ()>)
    ensures
        r is Ok <==> bytes@.len() <= 12,
        r is Ok ==> wire_bytes(r->Ok_0) == bytes@,
{
    heapless::Vec::from_slice(bytes)
}

/// `heapless::Vec::as_slice`: the contents of the vector as a slice.
#[verifier::external_body]
pub(crate) fn wire_as_slice(v: &heapless::Vec<u8, 12>) -> (bytes: &[u8])
    ensures
        bytes@ == wire_bytes(*v),
{
    v.as_slice()
}

/// The four bytes of `v`, most significant first.
pub open spec fn be_bytes(v: u32) -> (u8, u8, u8, u8) {
    (
        (v / 0x100_0000) as u8,
        (v / 0x1_0000 % 0x100) as u8,
        (v / 0x100 % 0x100) as u8,
        (v % 0x100) as u8,
    )
}

/// The four bytes of `v`, most significant first.
pub fn split_be(v: u32) -> (bytes: (u8, u8, u8, u8))
    ensures
        bytes == be_bytes(v),
        be_value(bytes.0, bytes.1, bytes.2, bytes.3) == v,
{
    let w3: u32 = (v >> 0x18) & 0xff;
    let w2: u32 = (v >> 0x10) & 0xff;
    let w1: u32 = (v >> 0x8) & 0xff;
    let w0: u32 = v & 0xff;
    assert(w3 == v / 0x100_0000 && w2 == v / 0x1_0000 % 0x100 && w1 == v / 0x100 % 0x100 && w0 == v
        % 0x100) by (bit_vector)
        requires
            w3 == (v >> 0x18) & 0xff,
            w2 == (v >> 0x10) & 0xff,
            w1 == (v >> 0x8) & 0xff,
            w0 == v & 0xff,
    ;
    (w3 as u8, w2 as u8, w1 as u8, w0 as u8)
}

} // verus!
