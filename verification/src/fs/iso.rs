//! The ISO-9660 file system: a path is resolved from the root directory
//! down, one directory block after the other.

use crate::fd::FDId;
use crate::fd::FDTable;
use crate::fd::FDTableView;
use crate::fd::FDt;
use crate::fs::path::components;
use crate::fs::path::split_path;
use crate::fs::path::views;
use crate::fs::FileSystem;
use fd::IsoFD;
use iso9660::find_entry;
use iso9660::iso_signature;
use iso9660::le32;
use iso9660::record_fits;
use iso9660::sector_at;
use iso9660::spec_find;
use iso9660::spec_sector;
use iso9660::IsoDir;
use iso9660::IsoFileType;
use iso9660::IsoPrimVolDesc;
use iso9660::ISO_PRIM_VOLDESC_BLOCK;
use vstd::prelude::*;
use vstd::slice::slice_to_vec;
use vstd::string::StringSliceAdditionalSpecFns;
use vstd::utf8::encode_utf8;

pub mod fd;
pub mod iso9660;

verus! {

/// The open flags of a read-only open, the only ones that the file system
/// takes.
pub const O_RDONLY: u32 = 0;

/// The upper-case form of a string, as `str::to_uppercase` of the standard
/// library gives it.
pub uninterp spec fn uppercase_of(s: Seq<char>) -> Seq<char>;

/// `str::to_uppercase`: the upper-case form of `s`, a function of its
/// characters alone.
#[verifier::external_body]
fn to_uppercase(s: &str) -> (upper: String)
    ensures
        upper@ == uppercase_of(s@),
{
    s.to_uppercase()
}

/// The names that a path asks for, directory by directory: the UTF-8 bytes
/// of its components in upper case.
pub open spec fn iso_names(path: Seq<char>) -> Seq<Seq<u8>> {
    Seq::new(components(path).len(), |i: int| encode_utf8(uppercase_of(components(path)[i])))
}

/// Why a path was not resolved.
#[derive(Debug, Clone, Copy, PartialEq, Eq, Structural)]
pub enum OpenError {
    /// The flags ask for more than reading.
    NotReadOnly,
    /// A block that the walk needs is not there in full.
    Unreadable,
    /// The volume descriptor does not carry `CD001`.
    NotIso,
    /// A directory holds no record of the name.
    NotFound,
    /// A name that is not the last one names no directory.
    NotADirectory,
    /// The walk had ended before.
    Finished,
}

/// Where a walk stands.
#[derive(Debug, Clone, Copy, PartialEq, Eq, Structural)]
pub enum OpenPhase {
    /// It waits for the block of the volume descriptor.
    Descriptor,
    /// It waits for the block of the directory that holds the next name.
    Directory,
    /// It has ended.
    Finished,
}

/// What a walk asks for or ends with.
#[derive(Debug, Clone)]
pub enum OpenStep {
    /// Read this block and hand it to `advance`.
    Read(u32),
    /// The record that the path names.
    Found(IsoDir),
    /// The path names nothing.
    Failed(OpenError),
}

/// An `OpenStep` with the place of the record in the block for the record.
pub enum StepView {
    /// Read this block.
    Read(u32),
    /// The record at this offset of the block.
    Found(int),
    /// The path names nothing.
    Failed(OpenError),
}

impl OpenStep {
    /// That the step is `view`, with the record that `sector` holds at the
    /// place that `view` gives.
    pub open spec fn shows(&self, view: StepView, sector: Seq<u8>) -> bool {
        match view {
            StepView::Read(lba) => *self matches OpenStep::Read(l) && l == lba,
            StepView::Found(at) => *self matches OpenStep::Found(record) && record.decodes(
                sector,
                at,
            ),
            StepView::Failed(e) => *self matches OpenStep::Failed(f) && f == e,
        }
    }
}

/// The first step of a walk: flags other than `O_RDONLY` end it.
pub open spec fn first_step(flags: u32) -> StepView {
    if flags != O_RDONLY {
        StepView::Failed(OpenError::NotReadOnly)
    } else {
        StepView::Read(ISO_PRIM_VOLDESC_BLOCK)
    }
}

/// What a walk holds.
pub struct IsoOpenView {
    /// The names to find, directory by directory.
    pub names: Seq<Seq<u8>>,
    /// How many of them are found.
    pub next: int,
    /// Where the walk stands.
    pub phase: OpenPhase,
}

/// The walk from the volume descriptor to the record that a path names.
/// The caller, who can read the disc, runs it: read the block that a step
/// asks for and hand it to `advance`, until a step ends the walk.
pub struct IsoOpen {
    names: Vec<Vec<u8>>,
    next: usize,
    phase: OpenPhase,
}

/// The contents of the byte strings of `names`.
pub open spec fn name_views(names: Seq<Vec<u8>>) -> Seq<Seq<u8>> {
    Seq::new(names.len(), |i: int| names[i]@)
}

impl View for IsoOpen {
    type V = IsoOpenView;

    closed spec fn view(&self) -> IsoOpenView {
        IsoOpenView { names: name_views(self.names@), next: self.next as int, phase: self.phase }
    }
}

impl IsoOpenView {
    /// The walk after it has ended.
    pub open spec fn finished(self) -> IsoOpenView {
        IsoOpenView { phase: OpenPhase::Finished, ..self }
    }

    /// What a walk makes of the block it waited for: the step, and the walk
    /// after it.
    ///
    /// The volume descriptor must carry `CD001`; it gives the block of the
    /// root directory. A directory block is searched for the next name. The
    /// record of the last name is the result, whatever its kind; the record
    /// of any other name must be a directory, whose block is read next. A
    /// path without names gives the first record of the root directory.
    pub open spec fn advance(self, sector: Seq<u8>) -> (StepView, IsoOpenView) {
        match self.phase {
            OpenPhase::Finished => (StepView::Failed(OpenError::Finished), self),
            OpenPhase::Descriptor => {
                if sector.len() < 2048 {
                    (StepView::Failed(OpenError::Unreadable), self.finished())
                } else if sector.subrange(1, 6) != iso_signature() {
                    (StepView::Failed(OpenError::NotIso), self.finished())
                } else {
                    (
                        StepView::Read(le32(sector, 158) as u32),
                        IsoOpenView { phase: OpenPhase::Directory, next: 0, ..self },
                    )
                }
            },
            OpenPhase::Directory => {
                if self.names.len() == 0 {
                    if record_fits(sector, 0) {
                        (StepView::Found(0), self.finished())
                    } else {
                        (StepView::Failed(OpenError::Unreadable), self.finished())
                    }
                } else {
                    match spec_find(sector, 0, self.names[self.next]) {
                        None => (StepView::Failed(OpenError::NotFound), self.finished()),
                        Some(at) => {
                            if self.next + 1 >= self.names.len() {
                                (StepView::Found(at), self.finished())
                            } else if sector[at + 25] & 0x02 != 0 {
                                (
                                    StepView::Read(le32(sector, at + 2) as u32),
                                    IsoOpenView { next: self.next + 1, ..self },
                                )
                            } else {
                                (StepView::Failed(OpenError::NotADirectory), self.finished())
                            }
                        },
                    }
                }
            },
        }
    }

    /// The end of the walk that is about to read block `lba` of `medium`:
    /// the block and the offset in it of the record found, or why none was.
    pub open spec fn run(self, medium: Seq<u8>, lba: u32) -> Result<(u32, int), OpenError>
        decreases
            (if self.phase is Descriptor {
                1int
            } else {
                0int
            }),
            self.names.len() - self.next,
    {
        match spec_sector(medium, lba as int) {
            None => Err(OpenError::Unreadable),
            Some(sector) => {
                let (step, after) = self.advance(sector);
                match step {
                    StepView::Read(next) => after.run(medium, next),
                    StepView::Found(at) => Ok((lba, at)),
                    StepView::Failed(e) => Err(e),
                }
            },
        }
    }
}

/// Where opening `path` with `flags` finds its record on `medium`: the
/// block of the directory and the offset of the record in it, or why there
/// is none.
pub open spec fn spec_locate(medium: Seq<u8>, path: Seq<char>, flags: u32) -> Result<
    (u32, int),
    OpenError,
> {
    if flags != O_RDONLY {
        Err(OpenError::NotReadOnly)
    } else {
        (IsoOpenView { names: iso_names(path), next: 0, phase: OpenPhase::Descriptor }).run(
            medium,
            ISO_PRIM_VOLDESC_BLOCK,
        )
    }
}

/// What opening `path` with `flags` on `medium` finds: the first block and
/// the size of the file, as its record tells them, or why there is none.
pub open spec fn spec_open(medium: Seq<u8>, path: Seq<char>, flags: u32) -> Result<
    (u32, u32),
    OpenError,
> {
    match spec_locate(medium, path, flags) {
        Ok((lba, at)) => {
            let sector = spec_sector(medium, lba as int).unwrap();
            Ok((le32(sector, at + 2) as u32, le32(sector, at + 10) as u32))
        },
        Err(e) => Err(e),
    }
}

/// What opening `path` with `flags` on `medium` does to the table of open
/// descriptors, and what it returns: a descriptor at the start of the file
/// enters the table under the next identifier, which is returned; where the
/// path names nothing, the table stays and nothing is returned.
pub open spec fn spec_open_in(table: FDTableView, medium: Seq<u8>, path: Seq<char>, flags: u32) -> (
    FDTableView,
    Option<FDId>,
) {
    match spec_open(medium, path, flags) {
        Ok((lba, size)) => (
            table.with_new(FDt::Iso(IsoFD::at_start(FDId(table.next_id), lba, size))),
            Some(FDId(table.next_id)),
        ),
        Err(_) => (table, None),
    }
}

/// Opens the file that `record` records: a descriptor at its start enters
/// `fds` under the next identifier, which is returned.
pub fn open_record(record: &IsoDir, fds: &mut FDTable) -> (id: FDId)
    ensures
        id == FDId(old(fds)@.next_id),
        final(fds)@ == old(fds)@.with_new(
            FDt::Iso(IsoFD::at_start(id, record.data_blk.le, record.file_size.le)),
        ),
{
    let id = fds.allocate();
    let fd = IsoFD::new(record, id);
    fds.register_fd(FDt::Iso(fd));
    id
}

/// Two paths with the same components open the same file.
pub proof fn lemma_open_by_components(medium: Seq<u8>, p: Seq<char>, q: Seq<char>, flags: u32)
    requires
        components(p) == components(q),
    ensures
        spec_open(medium, p, flags) == spec_open(medium, q, flags),
{
    assert(iso_names(p) =~= iso_names(q));
}

/// Slashes in front of a path, behind it, or doubled inside it do not change
/// what the path opens.
pub proof fn lemma_open_ignores_extra_slashes(
    medium: Seq<u8>,
    a: Seq<char>,
    b: Seq<char>,
    flags: u32,
)
    ensures
        spec_open(medium, seq!['/'] + a, flags) == spec_open(medium, a, flags),
        spec_open(medium, a + seq!['/'], flags) == spec_open(medium, a, flags),
        spec_open(medium, a + seq!['/', '/'] + b, flags) == spec_open(
            medium,
            a + seq!['/'] + b,
            flags,
        ),
{
    crate::fs::path::lemma_leading_slash(a);
    crate::fs::path::lemma_trailing_slash(a);
    crate::fs::path::lemma_doubled_slash(a, b);
    lemma_open_by_components(medium, seq!['/'] + a, a, flags);
    lemma_open_by_components(medium, a + seq!['/'], a, flags);
    lemma_open_by_components(medium, a + seq!['/', '/'] + b, a + seq!['/'] + b, flags);
}

/// Two paths whose components are the same in upper case open the same
/// file: the case of a path does not count.
pub proof fn lemma_open_ignores_case(medium: Seq<u8>, p: Seq<char>, q: Seq<char>, flags: u32)
    requires
        components(p).len() == components(q).len(),
        forall|i: int|
            0 <= i < components(p).len() ==> uppercase_of(#[trigger] components(p)[i])
                == uppercase_of(components(q)[i]),
    ensures
        spec_open(medium, p, flags) == spec_open(medium, q, flags),
{
    assert(iso_names(p) =~= iso_names(q));
}

/// A file that is opened, closed and opened again gets a new identifier,
/// and its second descriptor begins at the same block with the same size.
pub proof fn lemma_reopen(table: FDTableView, medium: Seq<u8>, path: Seq<char>, flags: u32)
    requires
        spec_open(medium, path, flags) is Ok,
    ensures
        ({
            let (opened, first) = spec_open_in(table, medium, path, flags);
            let closed = opened.without(first.unwrap().0);
            let (reopened, second) = spec_open_in(closed, medium, path, flags);
            &&& first is Some && second is Some
            &&& first.unwrap() != second.unwrap()
            &&& opened.entries[first.unwrap().0] matches FDt::Iso(a)
            &&& reopened.entries[second.unwrap().0] matches FDt::Iso(b)
            &&& a@.lba == b@.lba && a@.size == b@.size
            &&& a@.fd == first.unwrap() && b@.fd == second.unwrap()
        }),
{
    broadcast use IsoFD::lemma_at_start;

}

impl IsoOpen {
    /// While names are left to find, the next one is among them.
    #[verifier::type_invariant]
    closed spec fn inv(&self) -> bool {
        self.names@.len() == 0 || self.next < self.names@.len()
    }

    /// Begins the walk for `path`. Flags other than `O_RDONLY` end it at
    /// once; else the first step asks for the volume descriptor.
    pub fn new(path: &str, flags: u32) -> (r: (IsoOpen, OpenStep))
        ensures
            r.1.shows(first_step(flags), Seq::empty()),
            flags != O_RDONLY ==> r.0@.phase is Finished,
            flags == O_RDONLY ==> r.0@ == (IsoOpenView {
                names: iso_names(path@),
                next: 0,
                phase: OpenPhase::Descriptor,
            }),
    {
        let mut names: Vec<Vec<u8>> = Vec::new();
        if flags != O_RDONLY {
            return (
                IsoOpen { names, next: 0, phase: OpenPhase::Finished },
                OpenStep::Failed(OpenError::NotReadOnly),
            );
        }
        let parts = split_path(path);
        let mut i: usize = 0;
        while i < parts.len()
            invariant
                i <= parts@.len(),
                views(parts@) == components(path@),
                names@.len() == i,
                forall|k: int| 0 <= k < i ==> names@[k]@ == iso_names(path@)[k],
            decreases parts@.len() - i,
        {
            assert(views(parts@)[i as int] == parts@[i as int]@);
            let upper = to_uppercase(parts[i].as_str());
            let name = slice_to_vec(upper.as_str().as_bytes());
            names.push(name);
            i += 1;
        }
        let walk = IsoOpen { names, next: 0, phase: OpenPhase::Descriptor };
        assert(walk@.names =~= iso_names(path@));
        (walk, OpenStep::Read(ISO_PRIM_VOLDESC_BLOCK))
    }

    /// Takes the block that the last step asked for and makes the next
    /// step.
    pub fn advance(&mut self, sector: &[u8]) -> (step: OpenStep)
        ensures
            final(self)@ == old(self)@.advance(sector@).1,
            step.shows(old(self)@.advance(sector@).0, sector@),
    {
        proof {
            use_type_invariant(&*self);
        }
        match self.phase {
            OpenPhase::Finished => OpenStep::Failed(OpenError::Finished),
            OpenPhase::Descriptor => {
                let desc = match IsoPrimVolDesc::parse(sector) {
                    Some(desc) => desc,
                    None => {
                        self.phase = OpenPhase::Finished;
                        return OpenStep::Failed(OpenError::Unreadable);
                    },
                };
                if !desc.is_iso() {
                    self.phase = OpenPhase::Finished;
                    return OpenStep::Failed(OpenError::NotIso);
                }
                self.phase = OpenPhase::Directory;
                self.next = 0;
                OpenStep::Read(desc.root_dir.data_blk.le)
            },
            OpenPhase::Directory => {
                if self.names.len() == 0 {
                    self.phase = OpenPhase::Finished;
                    return match IsoDir::parse(sector, 0) {
                        Some(record) => OpenStep::Found(record),
                        None => OpenStep::Failed(OpenError::Unreadable),
                    };
                }
                let record = match find_entry(sector, self.names[self.next].as_slice()) {
                    Some(record) => record,
                    None => {
                        self.phase = OpenPhase::Finished;
                        return OpenStep::Failed(OpenError::NotFound);
                    },
                };
                if self.next + 1 >= self.names.len() {
                    self.phase = OpenPhase::Finished;
                    OpenStep::Found(record)
                } else if record.has_type(IsoFileType::ISDIR) {
                    self.next = self.next + 1;
                    OpenStep::Read(record.data_blk.le)
                } else {
                    self.phase = OpenPhase::Finished;
                    OpenStep::Failed(OpenError::NotADirectory)
                }
            },
        }
    }
}

/// Reads the primary volume descriptor of `medium`; `None` where its block
/// is not there in full.
pub fn get_prim_vol_desc(medium: &[u8]) -> (desc: Option<IsoPrimVolDesc>)
    ensures
        desc is Some <==> spec_sector(medium@, 16) is Some,
        desc is Some ==> desc.unwrap().decodes(spec_sector(medium@, 16).unwrap()),
{
    match sector_at(medium, ISO_PRIM_VOLDESC_BLOCK) {
        Some(sector) => IsoPrimVolDesc::parse(sector),
        None => None,
    }
}

/// The ISO-9660 file system.
#[derive(Debug, Clone, Copy)]
pub struct IsoFS {}

impl IsoFS {
    /// Resolves `path` on `medium`: the record that it names, or why it
    /// names none.
    pub fn resolve(&self, medium: &[u8], path: &str, flags: u32) -> (r: Result<
        IsoDir,
        OpenError,
    >)
        ensures
            match spec_locate(medium@, path@, flags) {
                Ok((lba, at)) => r matches Ok(record) && record.decodes(
                    spec_sector(medium@, lba as int).unwrap(),
                    at,
                ),
                Err(e) => r matches Err(f) && f == e,
            },
    {
        let (mut walk, mut step) = IsoOpen::new(path, flags);
        let mut lba: u32 = match step {
            OpenStep::Read(lba) => lba,
            OpenStep::Found(record) => {
                return Ok(record);
            },
            OpenStep::Failed(e) => {
                return Err(e);
            },
        };
        loop
            invariant
                walk@.run(medium@, lba) == spec_locate(medium@, path@, flags),
            decreases
                    (if walk@.phase is Descriptor {
                        1int
                    } else {
                        0int
                    }),
                    walk@.names.len() - walk@.next,
        {
            let sector = match sector_at(medium, lba) {
                Some(sector) => sector,
                None => {
                    return Err(OpenError::Unreadable);
                },
            };
            match walk.advance(sector) {
                OpenStep::Read(next) => {
                    lba = next;
                },
                OpenStep::Found(record) => {
                    return Ok(record);
                },
                OpenStep::Failed(e) => {
                    return Err(e);
                },
            }
        }
    }
}

impl FileSystem for IsoFS {
    /// Nothing can be out of order.
    open spec fn wf(&self) -> bool {
        true
    }

    /// Opens the file that `path` names on `medium`: a fresh descriptor at
    /// its start enters `fds`. `None`, and no change, when the path names
    /// nothing.
    fn open(&mut self, medium: &[u8], fds: &mut FDTable, path: &str, flags: u32) -> (r: Option<
        FDId,
    >)
        ensures
            (final(fds)@, r) == spec_open_in(old(fds)@, medium@, path@, flags),
    {
        let record = match self.resolve(medium, path, flags) {
            Ok(record) => record,
            Err(_) => {
                return None;
            },
        };
        Some(open_record(&record, fds))
    }
}

} // verus!
