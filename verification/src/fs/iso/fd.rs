//! Descriptors of files on an ISO-9660 volume.

use super::iso9660::sector_at;
use super::iso9660::IsoDir;
use crate::fd::FDId;
use crate::fd::FileDescriptor;
use vstd::prelude::*;

verus! {

/// `whence` of `lseek`: from the start of the file.
pub const SEEK_SET: u32 = 0;

/// `whence` of `lseek`: from the current offset.
pub const SEEK_CUR: u32 = 1;

/// `whence` of `lseek`: from the end of the file.
pub const SEEK_END: u32 = 2;

/// What a descriptor holds.
pub struct IsoFDView {
    /// Identifier of the descriptor.
    pub fd: FDId,
    /// Offset of the next byte to read.
    pub offset: u32,
    /// First block of the file.
    pub lba: u32,
    /// Length of the file in bytes.
    pub size: u32,
}

/// A descriptor of a file that lies in consecutive blocks. The offset never
/// passes the size.
#[derive(Debug, Clone, Copy)]
pub struct IsoFD {
    fd: FDId,
    offset: u32,
    lba: u32,
    size: u32,
}

impl View for IsoFD {
    type V = IsoFDView;

    closed spec fn view(&self) -> IsoFDView {
        IsoFDView { fd: self.fd, offset: self.offset, lba: self.lba, size: self.size }
    }
}

/// The length of what can be read of `medium`: its blocks that are there in
/// full and have a 32-bit number.
pub open spec fn readable_len(medium: Seq<u8>) -> int {
    min(medium.len() as int / 2048, 0x1_0000_0000) * 2048
}

/// The `n` bytes of `medium` from `from` on.
pub open spec fn bytes_at(medium: Seq<u8>, from: int, n: int) -> Seq<u8> {
    Seq::new(n as nat, |i: int| medium[from + i])
}

/// The smaller of two numbers.
pub open spec fn min(a: int, b: int) -> int {
    if a <= b {
        a
    } else {
        b
    }
}

/// `x` brought into the range from `lo` to `hi`.
pub open spec fn clamp(x: int, lo: int, hi: int) -> int {
    if x < lo {
        lo
    } else if x > hi {
        hi
    } else {
        x
    }
}

/// Where an `lseek` with `whence` counts from; `None` for an unknown
/// `whence`.
pub open spec fn seek_base(whence: u32, offset: int, size: int) -> Option<int> {
    if whence == SEEK_SET {
        Some(0int)
    } else if whence == SEEK_CUR {
        Some(offset)
    } else if whence == SEEK_END {
        Some(size)
    } else {
        None
    }
}

impl IsoFD {
    #[verifier::type_invariant]
    closed spec fn inv(&self) -> bool {
        self.offset <= self.size
    }

    /// Position on the medium of the byte at the offset.
    pub open spec fn position(&self) -> int {
        self@.lba * 2048 + self@.offset
    }

    /// How many bytes a read of `count` asks for: no more than are left in
    /// the file, nor than a return value can tell.
    pub open spec fn wanted(&self, count: int) -> int {
        min(min(count, self@.size - self@.offset), isize::MAX as int)
    }

    /// How many bytes a read of `count` gets from `medium`: those it asks
    /// for, as far as they lie in whole blocks of the medium.
    pub open spec fn readable(&self, medium: Seq<u8>, count: int) -> int {
        clamp(readable_len(medium) - self.position(), 0, self.wanted(count))
    }

    /// What `read` does: it copies the bytes it gets to the front of the
    /// buffer, moves the offset past them and returns their number, or -1
    /// where it asks for some and gets none.
    pub open spec fn read_result(
        &self,
        medium: Seq<u8>,
        buf: Seq<u8>,
        count: int,
        after: IsoFD,
        filled: Seq<u8>,
        read: int,
    ) -> bool {
        let n = self.readable(medium, count);
        &&& read == if n == 0 && self.wanted(count) > 0 {
            -1
        } else {
            n
        }
        &&& after@ == (IsoFDView { offset: (self@.offset + n) as u32, ..self@ })
        &&& after@.offset <= after@.size
        &&& filled == bytes_at(medium, self.position(), n) + buf.skip(n)
    }

    /// What `lseek` does: it moves the offset to the place asked for,
    /// brought into the file, and returns it; for an unknown `whence` it
    /// changes nothing and returns -1.
    pub open spec fn lseek_result(&self, offset: int, whence: u32, after: IsoFD, r: int) -> bool {
        match seek_base(whence, self@.offset as int, self@.size as int) {
            Some(base) => {
                &&& r == clamp(base + offset, 0, self@.size as int)
                &&& after@ == (IsoFDView { offset: r as u32, ..self@ })
            },
            None => r == -1 && after@ == self@,
        }
    }

    /// The descriptor `fd` at the start of a file of `size` bytes from block
    /// `lba` on.
    pub closed spec fn at_start(fd: FDId, lba: u32, size: u32) -> IsoFD {
        IsoFD { fd, offset: 0, lba, size }
    }

    /// What a descriptor at the start of a file holds.
    pub broadcast proof fn lemma_at_start(fd: FDId, lba: u32, size: u32)
        ensures
            (#[trigger] Self::at_start(fd, lba, size))@ == (IsoFDView { fd, offset: 0, lba, size }),
    {
    }

    /// A poll of the offset never finds it past the size: a fresh
    /// descriptor begins at zero, and `read` and `lseek` leave the offset
    /// inside the file.
    pub proof fn lemma_offset_within_size(
        before: IsoFD,
        after: IsoFD,
        medium: Seq<u8>,
        buf: Seq<u8>,
        filled: Seq<u8>,
        count: int,
        offset: int,
        whence: u32,
        r: int,
    )
        requires
            before@.offset <= before@.size,
        ensures
            before.read_result(medium, buf, count, after, filled, r) ==> after@.offset
                <= after@.size,
            before.lseek_result(offset, whence, after, r) ==> after@.offset <= after@.size,
            Self::at_start(before@.fd, before@.lba, before@.size)@.offset == 0,
    {
    }

    /// Seeking twice to the same place from the start gives the same offset
    /// as seeking once.
    pub proof fn lemma_seek_set_twice(
        before: IsoFD,
        between: IsoFD,
        after: IsoFD,
        offset: int,
        first: int,
        second: int,
    )
        requires
            before.lseek_result(offset, SEEK_SET, between, first),
            between.lseek_result(offset, SEEK_SET, after, second),
        ensures
            first == second,
            after@ == between@,
    {
    }

    /// A read at the end of the file reads nothing and returns zero.
    pub proof fn lemma_read_at_end(
        before: IsoFD,
        after: IsoFD,
        medium: Seq<u8>,
        buf: Seq<u8>,
        filled: Seq<u8>,
        count: int,
        r: int,
    )
        requires
            0 <= count,
            before@.offset == before@.size,
            before.read_result(medium, buf, count, after, filled, r),
        ensures
            r == 0,
            after@ == before@,
            filled =~= buf,
    {
    }

    /// A read that asks for bytes of a file that lies on the medium in full
    /// gets as many as it asks for or the file has left, whichever is less,
    /// and they are the bytes of the file from the offset on, block
    /// boundaries or not.
    pub proof fn lemma_read_is_contiguous(
        before: IsoFD,
        after: IsoFD,
        medium: Seq<u8>,
        buf: Seq<u8>,
        filled: Seq<u8>,
        count: int,
        r: int,
    )
        requires
            0 <= count <= buf.len(),
            count <= isize::MAX,
            before@.offset <= before@.size,
            before@.lba * 2048 + before@.size <= readable_len(medium),
            before.read_result(medium, buf, count, after, filled, r),
        ensures
            r == min(count, before@.size - before@.offset),
            after@.offset == before@.offset + r,
            filled.len() == buf.len(),
            forall|i: int|
                0 <= i < r ==> filled[i] == medium[before@.lba * 2048 + before@.offset + i],
            forall|i: int| r <= i < buf.len() ==> filled[i] == buf[i],
    {
    }

    /// A descriptor `fd` at the start of the file that `entry` records.
    pub fn new(entry: &IsoDir, fd: FDId) -> (r: IsoFD)
        ensures
            r == Self::at_start(fd, entry.data_blk.le, entry.file_size.le),
            r@ == (IsoFDView { fd, offset: 0, lba: entry.data_blk.le, size: entry.file_size.le }),
    {
        IsoFD { fd, offset: 0, lba: entry.data_blk.le, size: entry.file_size.le }
    }

    /// The offset of the next byte to read.
    pub fn offset(&self) -> (offset: u32)
        ensures
            offset == self@.offset,
            offset <= self@.size,
    {
        proof {
            use_type_invariant(self);
        }
        self.offset
    }

    /// The first block of the file.
    pub fn lba(&self) -> (lba: u32)
        ensures
            lba == self@.lba,
    {
        self.lba
    }

    /// The length of the file in bytes.
    pub fn size(&self) -> (size: u32)
        ensures
            size == self@.size,
    {
        self.size
    }

    /// The block that holds the byte at the offset, for a read of `count`
    /// bytes; `None` when such a read asks for nothing or the block has no
    /// number.
    pub fn next_block(&self, count: usize) -> (block: Option<u32>)
        ensures
            block is Some <==> self.wanted(count as int) > 0 && self@.lba + self@.offset / 2048
                <= u32::MAX,
            block is Some ==> block.unwrap() == self@.lba + self@.offset / 2048,
    {
        proof {
            use_type_invariant(self);
        }
        if count == 0 || self.offset >= self.size {
            return None;
        }
        self.lba.checked_add(self.offset / 2048)
    }

    /// Copies bytes of `sector`, the block that holds the byte at the
    /// offset, to `buf` from `at` on: as many as `count` allows, the file
    /// has left and the block holds behind the offset. Moves the offset past
    /// them and returns their number.
    pub fn copy_from(&mut self, sector: &[u8], buf: &mut Vec<u8>, at: usize, count: usize) -> (n:
        usize)
        requires
            sector@.len() == 2048,
            at + count <= old(buf)@.len(),
        ensures
            n == min(
                min(count as int, old(self)@.size - old(self)@.offset),
                2048 - old(self)@.offset % 2048,
            ),
            final(self)@ == (IsoFDView { offset: (old(self)@.offset + n) as u32, ..old(self)@ }),
            final(self)@.offset <= final(self)@.size,
            final(buf)@ == old(buf)@.take(at as int) + sector@.subrange(
                old(self)@.offset as int % 2048,
                old(self)@.offset as int % 2048 + n,
            ) + old(buf)@.skip(at + n),
    {
        proof {
            use_type_invariant(&*self);
        }
        let start: usize = (self.offset % 2048) as usize;
        let left: u32 = self.size - self.offset;
        let mut n: usize = 2048 - start;
        if left < 2048 && (left as usize) < n {
            n = left as usize;
        }
        if count < n {
            n = count;
        }
        let len = buf.len();
        let mut i: usize = 0;
        while i < n
            invariant
                i <= n,
                at + n <= len,
                len == buf@.len(),
                start + n <= 2048,
                sector@.len() == 2048,
                at + n <= buf@.len(),
                buf@.len() == old(buf)@.len(),
                buf@ == old(buf)@.take(at as int) + sector@.subrange(start as int, start + i)
                    + old(buf)@.skip(at + i),
            decreases n - i,
        {
            buf.set(at + i, sector[start + i]);
            assert(buf@ =~= old(buf)@.take(at as int) + sector@.subrange(
                start as int,
                start + i + 1,
            ) + old(buf)@.skip(at + i + 1));
            i += 1;
        }
        self.offset = self.offset + n as u32;
        n
    }
}

/// What a read asks for or ends with.
#[derive(Debug, Clone, Copy, PartialEq, Eq, Structural)]
pub enum ReadStep {
    /// Read this block and hand it to `advance`.
    Read(u32),
    /// The read has ended with this result: the number of bytes read, or -1.
    Done(isize),
}

/// What a read in progress holds.
pub struct IsoReadView {
    /// The descriptor as the read has moved it.
    pub fd: IsoFDView,
    /// How many bytes the read asks for.
    pub goal: int,
    /// How many bytes it has got.
    pub done: int,
    /// Whether a block could not be read.
    pub failed: bool,
}

/// A read through a descriptor, block by block. The caller, who can read
/// the disc, runs it: read the block that a step asks for and hand it to
/// `advance`, until a step ends the read; then keep the descriptor as the
/// read leaves it.
pub struct IsoRead {
    fd: IsoFD,
    goal: usize,
    done: usize,
    failed: bool,
}

impl View for IsoRead {
    type V = IsoReadView;

    closed spec fn view(&self) -> IsoReadView {
        IsoReadView {
            fd: self.fd@,
            goal: self.goal as int,
            done: self.done as int,
            failed: self.failed,
        }
    }
}

impl IsoReadView {
    /// What the read returns when it ends here: the bytes it has got, or -1
    /// where it asked for some and got none.
    pub open spec fn outcome(self) -> int {
        if self.done == 0 && self.goal > 0 {
            -1
        } else {
            self.done
        }
    }

    /// Whether the read goes on: it has not failed, bytes are missing, and
    /// the block that holds the next one has a number.
    pub open spec fn goes_on(self) -> bool {
        !self.failed && self.done < self.goal && self.fd.lba + self.fd.offset / 2048 <= u32::MAX
    }

    /// What the read asks for next.
    pub open spec fn step(self) -> ReadStep {
        if self.goes_on() {
            ReadStep::Read((self.fd.lba + self.fd.offset / 2048) as u32)
        } else {
            ReadStep::Done(self.outcome() as isize)
        }
    }

    /// How many bytes the read takes from the block it asked for: those that
    /// are missing, as far as the block holds them behind the offset.
    pub open spec fn chunk(self) -> int {
        min(self.goal - self.done, 2048 - self.fd.offset % 2048)
    }

    /// The read after it was handed the block it asked for, or was told
    /// that the block cannot be read.
    pub open spec fn advanced(self, got: bool) -> IsoReadView {
        if !self.goes_on() {
            self
        } else if !got {
            IsoReadView { failed: true, ..self }
        } else {
            IsoReadView {
                fd: IsoFDView { offset: (self.fd.offset + self.chunk()) as u32, ..self.fd },
                done: self.done + self.chunk(),
                ..self
            }
        }
    }
}

impl IsoRead {
    #[verifier::type_invariant]
    closed spec fn inv(&self) -> bool {
        &&& self.done <= self.goal <= isize::MAX
        &&& self.fd@.offset <= self.fd@.size
        &&& self.goal - self.done <= self.fd@.size - self.fd@.offset
    }

    /// What the read asks for next.
    pub fn step(&self) -> (step: ReadStep)
        ensures
            step == self@.step(),
    {
        proof {
            use_type_invariant(self);
        }
        if !self.failed && self.done < self.goal {
            match self.fd.next_block(self.goal - self.done) {
                Some(block) => {
                    return ReadStep::Read(block);
                },
                None => {},
            }
        }
        if self.done == 0 && self.goal > 0 {
            ReadStep::Done(-1)
        } else {
            ReadStep::Done(self.done as isize)
        }
    }

    /// Takes the block that the last step asked for, or `None` where it
    /// could not be read, copies what the read takes from it to `buf` behind
    /// the bytes it has got, and makes the next step. A read that has ended
    /// stays as it is.
    pub fn advance(&mut self, sector: Option<&[u8]>, buf: &mut Vec<u8>) -> (step: ReadStep)
        requires
            sector matches Some(block) ==> block@.len() == 2048,
            old(self)@.goal <= old(buf)@.len(),
        ensures
            final(self)@ == old(self)@.advanced(sector is Some),
            step == final(self)@.step(),
            final(buf)@ == if old(self)@.goes_on() && sector is Some {
                old(buf)@.take(old(self)@.done) + sector.unwrap()@.subrange(
                    old(self)@.fd.offset as int % 2048,
                    old(self)@.fd.offset as int % 2048 + old(self)@.chunk(),
                ) + old(buf)@.skip(old(self)@.done + old(self)@.chunk())
            } else {
                old(buf)@
            },
    {
        proof {
            use_type_invariant(&*self);
        }
        if let ReadStep::Read(_) = self.step() {
            match sector {
                Some(block) => {
                    let mut fd = self.fd;
                    let n = fd.copy_from(block, buf, self.done, self.goal - self.done);
                    self.done = self.done + n;
                    self.fd = fd;
                },
                None => {
                    self.failed = true;
                },
            }
        }
        self.step()
    }

    /// The descriptor as the read has moved it.
    pub fn descriptor(&self) -> (fd: IsoFD)
        ensures
            fd@ == self@.fd,
    {
        self.fd
    }
}

impl IsoFD {
    /// Begins a read of up to `count` bytes from the offset on.
    pub fn begin_read(&self, count: usize) -> (read: IsoRead)
        ensures
            read@ == (IsoReadView {
                fd: self@,
                goal: self.wanted(count as int),
                done: 0,
                failed: false,
            }),
    {
        proof {
            use_type_invariant(self);
        }
        let left: u64 = (self.size - self.offset) as u64;
        let mut goal: usize = count;
        if count as u64 > left {
            goal = left as usize;
        }
        if goal > isize::MAX as usize {
            goal = isize::MAX as usize;
        }
        IsoRead { fd: *self, goal, done: 0, failed: false }
    }
}

impl FileDescriptor for IsoFD {
    fn get_fd(&self) -> (id: FDId)
        ensures
            id == self@.fd,
    {
        self.fd
    }

    /// The medium cannot be written: always -1.
    fn write(&mut self, buf: &[u8], count: usize) -> (written: isize)
        ensures
            written == -1,
            *final(self) == *old(self),
    {
        -1
    }

    fn read(&mut self, medium: &[u8], buf: &mut Vec<u8>, count: usize) -> (read: isize)
        ensures
            old(self).read_result(
                medium@,
                old(buf)@,
                count as int,
                *final(self),
                final(buf)@,
                read as int,
            ),
    {
        proof {
            use_type_invariant(&*self);
        }
        let ghost start = old(self).position();
        let ghost goal = old(self).wanted(count as int);
        let mut walk = self.begin_read(count);
        let mut step = walk.step();
        assert(buf@ =~= bytes_at(medium@, start, 0) + old(buf)@.skip(0));
        let mut read: isize = 0;
        loop
            invariant
                step == walk@.step(),
                walk@.goal == goal <= count <= old(buf)@.len(),
                0 <= walk@.done <= goal,
                walk@.fd == (IsoFDView {
                    offset: (old(self)@.offset + walk@.done) as u32,
                    ..old(self)@
                }),
                old(self)@.offset + walk@.done <= old(self)@.size,
                goal == old(self).wanted(count as int),
                start == old(self).position(),
                walk@.done > 0 ==> start + walk@.done <= readable_len(medium@),
                walk@.failed ==> walk@.done == old(self).readable(medium@, count as int),
                buf@.len() == old(buf)@.len(),
                buf@ == bytes_at(medium@, start, walk@.done) + old(buf)@.skip(walk@.done),
            ensures
                walk@.done == old(self).readable(medium@, count as int),
                read == walk@.outcome(),
                walk@.goal == goal,
                walk@.fd == (IsoFDView {
                    offset: (old(self)@.offset + walk@.done) as u32,
                    ..old(self)@
                }),
                old(self)@.offset + walk@.done <= old(self)@.size,
                buf@ == bytes_at(medium@, start, walk@.done) + old(buf)@.skip(walk@.done),
            decreases
                    (if walk@.failed {
                        0int
                    } else {
                        1int
                    }),
                    goal - walk@.done,
        {
            let block = match step {
                ReadStep::Read(block) => block,
                ReadStep::Done(outcome) => {
                    read = outcome;
                    break ;
                },
            };
            let ghost before = walk@;
            let sector = sector_at(medium, block);
            step = walk.advance(sector, buf);
            proof {
                if sector is Some {
                    let n = before.chunk();
                    assert(block * 2048 + before.fd.offset as int % 2048 == start + before.done);
                    assert(sector.unwrap()@ == medium@.subrange(block * 2048, block * 2048 + 2048));
                    assert(buf@ =~= bytes_at(medium@, start, before.done + n) + old(buf)@.skip(
                        before.done + n,
                    ));
                }
            }
        }
        *self = walk.descriptor();
        read
    }

    fn lseek(&mut self, offset: i64, whence: u32) -> (r: i64)
        ensures
            old(self).lseek_result(offset as int, whence, *final(self), r as int),
    {
        proof {
            use_type_invariant(&*self);
        }
        let base: i64 = if whence == SEEK_SET {
            0
        } else if whence == SEEK_CUR {
            self.offset as i64
        } else if whence == SEEK_END {
            self.size as i64
        } else {
            return -1;
        };
        let place: u32 = if offset <= -base {
            0
        } else if offset >= self.size as i64 - base {
            self.size
        } else {
            (base + offset) as u32
        };
        self.offset = place;
        place as i64
    }
}

} // verus!
