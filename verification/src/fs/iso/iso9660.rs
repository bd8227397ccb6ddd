//! The ISO-9660 on-disc records: both-endian numbers, directory records and
//! the primary volume descriptor, decoded byte by byte.

use vstd::prelude::*;
use vstd::slice::slice_subrange;
use vstd::slice::slice_to_vec;
use vstd::string::StringSliceAdditionalSpecFns;

verus! {

/// Size in bytes of a logical block.
pub const ISO_BLOCK_SIZE: u32 = 2048;

/// Block that holds the primary volume descriptor.
pub const ISO_PRIM_VOLDESC_BLOCK: u32 = 16;

/// Length of the recording date of a directory record.
pub const ISO_DATE_LEN: usize = 7;

/// Bytes of a directory record that come before its identifier.
pub const ISO_DIR_HEADER_LEN: usize = 33;

/// Offset of the root directory record in the primary volume descriptor.
pub const ISO_ROOT_DIR_OFFSET: usize = 156;

/// The little-endian value of the two bytes at `at`.
pub open spec fn le16(s: Seq<u8>, at: int) -> int {
    s[at] as int + s[at + 1] as int * 0x100
}

/// The big-endian value of the two bytes at `at`.
pub open spec fn be16(s: Seq<u8>, at: int) -> int {
    s[at] as int * 0x100 + s[at + 1] as int
}

/// The little-endian value of the four bytes at `at`.
pub open spec fn le32(s: Seq<u8>, at: int) -> int {
    s[at] as int + s[at + 1] as int * 0x100 + s[at + 2] as int * 0x1_0000 + s[at + 3] as int
        * 0x100_0000
}

/// The big-endian value of the four bytes at `at`.
pub open spec fn be32(s: Seq<u8>, at: int) -> int {
    s[at] as int * 0x100_0000 + s[at + 1] as int * 0x1_0000 + s[at + 2] as int * 0x100 + s[at
        + 3] as int
}

fn read_le16(bytes: &[u8], at: usize) -> (v: u16)
    requires
        at + 2 <= bytes@.len(),
    ensures
        v == le16(bytes@, at as int),
{
    let b0: u16 = bytes[at] as u16;
    let b1: u16 = bytes[at + 1] as u16;
    b0 + b1 * 0x100
}

fn read_be16(bytes: &[u8], at: usize) -> (v: u16)
    requires
        at + 2 <= bytes@.len(),
    ensures
        v == be16(bytes@, at as int),
{
    let b0: u16 = bytes[at] as u16;
    let b1: u16 = bytes[at + 1] as u16;
    b0 * 0x100 + b1
}

fn read_le32(bytes: &[u8], at: usize) -> (v: u32)
    requires
        at + 4 <= bytes@.len(),
    ensures
        v == le32(bytes@, at as int),
{
    let b0: u32 = bytes[at] as u32;
    let b1: u32 = bytes[at + 1] as u32;
    let b2: u32 = bytes[at + 2] as u32;
    let b3: u32 = bytes[at + 3] as u32;
    b0 + b1 * 0x100 + b2 * 0x1_0000 + b3 * 0x100_0000
}

fn read_be32(bytes: &[u8], at: usize) -> (v: u32)
    requires
        at + 4 <= bytes@.len(),
    ensures
        v == be32(bytes@, at as int),
{
    let b0: u32 = bytes[at] as u32;
    let b1: u32 = bytes[at + 1] as u32;
    let b2: u32 = bytes[at + 2] as u32;
    let b3: u32 = bytes[at + 3] as u32;
    b0 * 0x100_0000 + b1 * 0x1_0000 + b2 * 0x100 + b3
}

/// A 32-bit number stored twice: little-endian, then big-endian.
#[derive(Debug, Clone, Copy, PartialEq, Eq, Structural)]
pub struct MultiEndian32 {
    /// The little-endian copy.
    pub le: u32,
    /// The big-endian copy.
    pub be: u32,
}

/// A 16-bit number stored twice: little-endian, then big-endian.
#[derive(Debug, Clone, Copy, PartialEq, Eq, Structural)]
pub struct MultiEndian16 {
    /// The little-endian copy.
    pub le: u16,
    /// The big-endian copy.
    pub be: u16,
}

impl MultiEndian32 {
    /// That `self` is what the eight bytes at `at` hold.
    pub open spec fn decodes(&self, s: Seq<u8>, at: int) -> bool {
        self.le == le32(s, at) && self.be == be32(s, at + 4)
    }

    /// Decodes the pair at `at`; `None` when fewer than eight bytes are left.
    pub fn parse(bytes: &[u8], at: usize) -> (pair: Option<Self>)
        ensures
            pair is Some <==> at + 8 <= bytes@.len(),
            pair is Some ==> pair.unwrap().decodes(bytes@, at as int),
    {
        if at > bytes.len() || bytes.len() - at < 8 {
            return None;
        }
        Some(MultiEndian32 { le: read_le32(bytes, at), be: read_be32(bytes, at + 4) })
    }
}

impl MultiEndian16 {
    /// That `self` is what the four bytes at `at` hold.
    pub open spec fn decodes(&self, s: Seq<u8>, at: int) -> bool {
        self.le == le16(s, at) && self.be == be16(s, at + 2)
    }

    /// Decodes the pair at `at`; `None` when fewer than four bytes are left.
    pub fn parse(bytes: &[u8], at: usize) -> (pair: Option<Self>)
        ensures
            pair is Some <==> at + 4 <= bytes@.len(),
            pair is Some ==> pair.unwrap().decodes(bytes@, at as int),
    {
        if at > bytes.len() || bytes.len() - at < 4 {
            return None;
        }
        Some(MultiEndian16 { le: read_le16(bytes, at), be: read_be16(bytes, at + 2) })
    }
}

/// The flags of a directory record's file-type byte.
#[allow(non_camel_case_types)]
#[derive(Debug, Clone, Copy, PartialEq, Eq, Structural)]
pub enum IsoFileType {
    /// Hidden file.
    HIDDEN,
    /// Directory.
    ISDIR,
    /// Associated file.
    ASSOCIAT,
    /// Extended attributes describe the format.
    USEEXT,
    /// Extended attributes hold permissions.
    USEPERM,
    /// Not the last extent of the file.
    MULTIDIR,
}

impl IsoFileType {
    /// The bit that stands for the flag.
    pub open spec fn spec_bits(self) -> u8 {
        match self {
            IsoFileType::HIDDEN => 0x01,
            IsoFileType::ISDIR => 0x02,
            IsoFileType::ASSOCIAT => 0x04,
            IsoFileType::USEEXT => 0x08,
            IsoFileType::USEPERM => 0x10,
            IsoFileType::MULTIDIR => 0x80,
        }
    }

    /// The bit that stands for the flag.
    pub fn bits(self) -> (b: u8)
        ensures
            b == self.spec_bits(),
    {
        match self {
            IsoFileType::HIDDEN => 0x01,
            IsoFileType::ISDIR => 0x02,
            IsoFileType::ASSOCIAT => 0x04,
            IsoFileType::USEEXT => 0x08,
            IsoFileType::USEPERM => 0x10,
            IsoFileType::MULTIDIR => 0x80,
        }
    }
}

/// Whether a directory record begins at `at` and lies inside `sector` with
/// its identifier.
pub open spec fn record_fits(sector: Seq<u8>, at: int) -> bool {
    &&& 0 <= at
    &&& at + 33 <= sector.len()
    &&& at + 33 + sector[at + 32] <= sector.len()
}

/// An identifier without its version suffix: a trailing `;1` is dropped.
pub open spec fn spec_idf(id: Seq<u8>) -> Seq<u8> {
    if id.len() >= 2 && id[id.len() - 2] == 0x3b && id[id.len() - 1] == 0x31 {
        id.take(id.len() - 2)
    } else {
        id
    }
}

/// Whether the record at `at` ends the directory: it does not fit, or its
/// size or the length of its identifier is zero.
pub open spec fn ends_directory(sector: Seq<u8>, at: int) -> bool {
    !record_fits(sector, at) || sector[at] == 0 || sector[at + 32] == 0
}

/// The offset of the first record at or after `at` whose identifier, without
/// version suffix, is `name`. Records follow one another by their sizes.
pub open spec fn spec_find(sector: Seq<u8>, at: int, name: Seq<u8>) -> Option<int>
    decreases sector.len() + 0xff - at,
{
    if ends_directory(sector, at) {
        None
    } else if spec_idf(sector.subrange(at + 33, at + 33 + sector[at + 32])) == name {
        Some(at)
    } else {
        spec_find(sector, at + sector[at], name)
    }
}

/// A directory record.
#[derive(Debug, Clone, PartialEq, Eq)]
pub struct IsoDir {
    /// Length of the record.
    pub dir_size: u8,
    /// Length of the extended attribute record.
    pub ext_size: u8,
    /// First block of the extent.
    pub data_blk: MultiEndian32,
    /// Length of the extent in bytes.
    pub file_size: MultiEndian32,
    /// Recording date and time.
    pub date: [u8; 7],
    /// File-type flags, see `IsoFileType`.
    pub file_type: u8,
    /// Unit size for interleaved files.
    pub unit_size: u8,
    /// Gap size for interleaved files.
    pub gap_size: u8,
    /// Volume sequence number.
    pub vol_seq: MultiEndian16,
    /// Length of the identifier.
    pub idf_len: u8,
    /// The identifier as recorded.
    pub idf: Vec<u8>,
}

impl IsoDir {
    /// That `self` is the record that `sector` holds at `at`.
    pub open spec fn decodes(&self, sector: Seq<u8>, at: int) -> bool {
        &&& record_fits(sector, at)
        &&& self.dir_size == sector[at]
        &&& self.ext_size == sector[at + 1]
        &&& self.data_blk.decodes(sector, at + 2)
        &&& self.file_size.decodes(sector, at + 10)
        &&& self.date@ == sector.subrange(at + 18, at + 25)
        &&& self.file_type == sector[at + 25]
        &&& self.unit_size == sector[at + 26]
        &&& self.gap_size == sector[at + 27]
        &&& self.vol_seq.decodes(sector, at + 28)
        &&& self.idf_len == sector[at + 32]
        &&& self.idf@ == sector.subrange(at + 33, at + 33 + sector[at + 32])
    }

    /// Whether the record has the flag `t`.
    pub open spec fn spec_has_type(&self, t: IsoFileType) -> bool {
        self.file_type & t.spec_bits() != 0
    }

    /// Decodes the record at `at`; `None` when it does not lie inside
    /// `sector`.
    pub fn parse(sector: &[u8], at: usize) -> (record: Option<IsoDir>)
        ensures
            record is Some <==> record_fits(sector@, at as int),
            record is Some ==> record.unwrap().decodes(sector@, at as int),
    {
        let len = sector.len();
        if at > len || len - at < ISO_DIR_HEADER_LEN {
            return None;
        }
        let idf_len = sector[at + 32];
        if len - at - ISO_DIR_HEADER_LEN < idf_len as usize {
            return None;
        }
        let date: [u8; 7] = [
            sector[at + 18],
            sector[at + 19],
            sector[at + 20],
            sector[at + 21],
            sector[at + 22],
            sector[at + 23],
            sector[at + 24],
        ];
        assert(date@ =~= sector@.subrange(at + 18, at + 25));
        let idf = slice_to_vec(slice_subrange(sector, at + 33, at + 33 + idf_len as usize));
        Some(
            IsoDir {
                dir_size: sector[at],
                ext_size: sector[at + 1],
                data_blk: MultiEndian32 {
                    le: read_le32(sector, at + 2),
                    be: read_be32(sector, at + 6),
                },
                file_size: MultiEndian32 {
                    le: read_le32(sector, at + 10),
                    be: read_be32(sector, at + 14),
                },
                date,
                file_type: sector[at + 25],
                unit_size: sector[at + 26],
                gap_size: sector[at + 27],
                vol_seq: MultiEndian16 {
                    le: read_le16(sector, at + 28),
                    be: read_be16(sector, at + 30),
                },
                idf_len,
                idf,
            },
        )
    }

    /// The identifier without its version suffix.
    pub fn get_idf(&self) -> (idf: &[u8])
        ensures
            idf@ == spec_idf(self.idf@),
    {
        let len = self.idf.len();
        if len >= 2 && self.idf[len - 2] == 0x3b && self.idf[len - 1] == 0x31 {
            slice_subrange(self.idf.as_slice(), 0, len - 2)
        } else {
            self.idf.as_slice()
        }
    }

    /// Whether the record has the flag `t`.
    pub fn has_type(&self, t: IsoFileType) -> (b: bool)
        ensures
            b == self.spec_has_type(t),
    {
        self.file_type & t.bits() != 0
    }

    /// The record that follows `self` where `self` lies at `at`: the one at
    /// `at` plus the size of `self`. `None` when `self` ends the directory,
    /// with a size or an identifier length of zero, or the next record does
    /// not lie inside `sector`.
    pub fn next_entry(&self, sector: &[u8], at: usize) -> (next: Option<IsoDir>)
        ensures
            next is Some <==> self.dir_size != 0 && self.idf_len != 0 && record_fits(
                sector@,
                at + self.dir_size,
            ),
            next is Some ==> next.unwrap().decodes(sector@, at + self.dir_size),
    {
        let step = self.dir_size as usize;
        if step == 0 || self.idf_len == 0 || at > sector.len() || sector.len() - at < step {
            return None;
        }
        IsoDir::parse(sector, at + step)
    }

    /// Whether the identifier, without version suffix, is `name` byte for
    /// byte.
    pub fn matches_bytes(&self, name: &[u8]) -> (b: bool)
        ensures
            b == (spec_idf(self.idf@) == name@),
    {
        bytes_equal(self.get_idf(), name)
    }

    /// Whether the identifier, without version suffix, is the UTF-8 form of
    /// `path`.
    pub fn matches(&self, path: &str) -> (b: bool)
        ensures
            b == (spec_idf(self.idf@) == path.spec_bytes()),
    {
        self.matches_bytes(path.as_bytes())
    }
}

/// The primary volume descriptor: the numbers of the volume and the record
/// of its root directory.
#[derive(Debug, Clone, PartialEq, Eq)]
pub struct IsoPrimVolDesc {
    /// Type of the descriptor, 1 for a primary one.
    pub vol_desc_type: u8,
    /// Standard identifier, `CD001` on a valid volume.
    pub std_identifier: [u8; 5],
    /// Version of the descriptor.
    pub vol_desc_version: u8,
    /// Number of logical blocks in the volume.
    pub vol_blk_count: MultiEndian32,
    /// Number of volumes in the set.
    pub vol_set_size: MultiEndian16,
    /// Number of this volume in the set.
    pub vol_seq_num: MultiEndian16,
    /// Size in bytes of a logical block.
    pub vol_blk_size: MultiEndian16,
    /// Length in bytes of the path table.
    pub path_table_size: MultiEndian32,
    /// Block of the little-endian path table.
    pub le_path_table_blk: u32,
    /// Block of the optional little-endian path table.
    pub le_opt_path_table_blk: u32,
    /// Block of the big-endian path table.
    pub be_path_table_blk: u32,
    /// Block of the optional big-endian path table.
    pub be_opt_path_table_blk: u32,
    /// Record of the root directory.
    pub root_dir: IsoDir,
    /// Version of the file structure.
    pub file_struct_version: u8,
}

/// The five bytes `CD001`.
pub open spec fn iso_signature() -> Seq<u8> {
    seq![0x43u8, 0x44u8, 0x30u8, 0x30u8, 0x31u8]
}

impl IsoPrimVolDesc {
    /// That `self` is the descriptor that `sector` holds.
    pub open spec fn decodes(&self, sector: Seq<u8>) -> bool {
        &&& sector.len() >= 2048
        &&& self.vol_desc_type == sector[0]
        &&& self.std_identifier@ == sector.subrange(1, 6)
        &&& self.vol_desc_version == sector[6]
        &&& self.vol_blk_count.decodes(sector, 80)
        &&& self.vol_set_size.decodes(sector, 120)
        &&& self.vol_seq_num.decodes(sector, 124)
        &&& self.vol_blk_size.decodes(sector, 128)
        &&& self.path_table_size.decodes(sector, 132)
        &&& self.le_path_table_blk == le32(sector, 140)
        &&& self.le_opt_path_table_blk == le32(sector, 144)
        &&& self.be_path_table_blk == be32(sector, 148)
        &&& self.be_opt_path_table_blk == be32(sector, 152)
        &&& self.root_dir.decodes(sector, 156)
        &&& self.file_struct_version == sector[881]
    }

    /// Whether the standard identifier is `CD001`.
    pub open spec fn spec_is_iso(&self) -> bool {
        self.std_identifier@ == iso_signature()
    }

    /// Decodes the descriptor; `None` when `sector` is shorter than a block.
    pub fn parse(sector: &[u8]) -> (desc: Option<IsoPrimVolDesc>)
        ensures
            desc is Some <==> sector@.len() >= 2048,
            desc is Some ==> desc.unwrap().decodes(sector@),
    {
        if sector.len() < 2048 {
            return None;
        }
        let std_identifier: [u8; 5] = [sector[1], sector[2], sector[3], sector[4], sector[5]];
        assert(std_identifier@ =~= sector@.subrange(1, 6));
        let root_dir = match IsoDir::parse(sector, ISO_ROOT_DIR_OFFSET) {
            Some(root_dir) => root_dir,
            None => {
                return None;
            },
        };
        Some(
            IsoPrimVolDesc {
                vol_desc_type: sector[0],
                std_identifier,
                vol_desc_version: sector[6],
                vol_blk_count: MultiEndian32 {
                    le: read_le32(sector, 80),
                    be: read_be32(sector, 84),
                },
                vol_set_size: MultiEndian16 {
                    le: read_le16(sector, 120),
                    be: read_be16(sector, 122),
                },
                vol_seq_num: MultiEndian16 {
                    le: read_le16(sector, 124),
                    be: read_be16(sector, 126),
                },
                vol_blk_size: MultiEndian16 {
                    le: read_le16(sector, 128),
                    be: read_be16(sector, 130),
                },
                path_table_size: MultiEndian32 {
                    le: read_le32(sector, 132),
                    be: read_be32(sector, 136),
                },
                le_path_table_blk: read_le32(sector, 140),
                le_opt_path_table_blk: read_le32(sector, 144),
                be_path_table_blk: read_be32(sector, 148),
                be_opt_path_table_blk: read_be32(sector, 152),
                root_dir,
                file_struct_version: sector[881],
            },
        )
    }

    /// Whether the standard identifier is `CD001`.
    pub fn is_iso(&self) -> (b: bool)
        ensures
            b == self.spec_is_iso(),
    {
        let id = &self.std_identifier;
        let b = id[0] == 0x43 && id[1] == 0x44 && id[2] == 0x30 && id[3] == 0x30 && id[4] == 0x31;
        proof {
            if b {
                assert(self.std_identifier@ =~= iso_signature());
            } else {
                assert(iso_signature()[0] == 0x43 && iso_signature()[1] == 0x44
                    && iso_signature()[2] == 0x30 && iso_signature()[3] == 0x30
                    && iso_signature()[4] == 0x31);
            }
        }
        b
    }
}

/// The block `lba` of `medium`, where the medium holds it in full.
pub open spec fn spec_sector(medium: Seq<u8>, lba: int) -> Option<Seq<u8>> {
    if 0 <= lba && (lba + 1) * 2048 <= medium.len() {
        Some(medium.subrange(lba * 2048, (lba + 1) * 2048))
    } else {
        None
    }
}

/// The block `lba` of `medium`; `None` where the medium ends before the end
/// of the block.
pub fn sector_at(medium: &[u8], lba: u32) -> (sector: Option<&[u8]>)
    ensures
        sector is Some <==> spec_sector(medium@, lba as int) is Some,
        sector is Some ==> sector.unwrap()@ == spec_sector(medium@, lba as int).unwrap(),
{
    let len: u64 = medium.len() as u64;
    let start: u64 = lba as u64 * 2048;
    if len < 2048 || start > len - 2048 {
        return None;
    }
    Some(slice_subrange(medium, start as usize, start as usize + 2048))
}

/// Whether two byte strings are equal.
pub fn bytes_equal(a: &[u8], b: &[u8]) -> (eq: bool)
    ensures
        eq == (a@ == b@),
{
    if a.len() != b.len() {
        return false;
    }
    let mut i: usize = 0;
    while i < a.len()
        invariant
            i <= a@.len(),
            a@.len() == b@.len(),
            forall|j: int| 0 <= j < i ==> a@[j] == b@[j],
        decreases a@.len() - i,
    {
        if a[i] != b[i] {
            return false;
        }
        i += 1;
    }
    assert(a@ =~= b@);
    true
}

/// The first record of the directory `sector` whose identifier, without
/// version suffix, is `name`; `None` when the directory ends before one is
/// found.
pub fn find_entry(sector: &[u8], name: &[u8]) -> (found: Option<IsoDir>)
    ensures
        found is Some <==> spec_find(sector@, 0, name@) is Some,
        found is Some ==> found.unwrap().decodes(sector@, spec_find(sector@, 0, name@).unwrap()),
{
    let mut at: usize = 0;
    loop
        invariant
            spec_find(sector@, at as int, name@) == spec_find(sector@, 0, name@),
        decreases sector@.len() - at,
    {
        let record = match IsoDir::parse(sector, at) {
            Some(record) => record,
            None => {
                return None;
            },
        };
        if record.dir_size == 0 || record.idf_len == 0 {
            return None;
        }
        if record.matches_bytes(name) {
            return Some(record);
        }
        let step = record.dir_size as usize;
        if sector.len() - at < step {
            assert(spec_find(sector@, at + step, name@) is None);
            return None;
        }
        at = at + step;
    }
}

} // verus!
