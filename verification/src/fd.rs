//! File descriptors: their identifiers, what every descriptor can do, and
//! the table that owns the open ones.

use crate::fs::iso::fd::IsoFD;
use std::collections::BTreeMap;
use vstd::prelude::*;

verus! {

/// Identifier of an open descriptor.
#[derive(Debug, Clone, Copy, PartialEq, Eq, PartialOrd, Ord, Structural)]
pub struct FDId(pub u32);

/// The identifier that follows `id`; after the last one comes zero again.
pub open spec fn next_fd(id: u32) -> u32 {
    if id == u32::MAX {
        0
    } else {
        (id + 1) as u32
    }
}

impl FDId {
    /// Takes the next identifier from `counter` and moves the counter on.
    /// Identifiers are handed out in increasing order and not reused until
    /// the counter has gone round.
    pub fn new(counter: &mut u32) -> (id: Self)
        ensures
            id.0 == *old(counter),
            *final(counter) == next_fd(*old(counter)),
    {
        let id = FDId(*counter);
        *counter = counter.wrapping_add(1);
        id
    }
}

/// What every descriptor can do. `medium` is the content of the disc that
/// the descriptor reads from, block after block.
pub trait FileDescriptor {
    /// The identifier of the descriptor.
    fn get_fd(&self) -> FDId;

    /// Writes `count` bytes of `buf`; the number written, or -1.
    fn write(&mut self, buf: &[u8], count: usize) -> isize;

    /// Reads up to `count` bytes into the front of `buf`; the number read,
    /// or -1.
    fn read(&mut self, medium: &[u8], buf: &mut Vec<u8>, count: usize) -> isize
        requires
            count <= old(buf)@.len(),
    ;

    /// Moves the offset; the new offset, or -1.
    fn lseek(&mut self, offset: i64, whence: u32) -> i64;
}

/// An open descriptor of any kind.
#[derive(Debug, Clone, Copy)]
pub enum FDt {
    /// A file on an ISO-9660 volume.
    Iso(IsoFD),
}

impl FDt {
    /// The identifier of the descriptor.
    pub open spec fn spec_fd(&self) -> FDId {
        match *self {
            FDt::Iso(fd) => fd@.fd,
        }
    }

    /// What `read` does, whatever the kind of the descriptor.
    pub open spec fn read_result(
        &self,
        medium: Seq<u8>,
        buf: Seq<u8>,
        count: int,
        after: FDt,
        filled: Seq<u8>,
        read: int,
    ) -> bool {
        match (*self, after) {
            (FDt::Iso(before), FDt::Iso(after)) => before.read_result(
                medium,
                buf,
                count,
                after,
                filled,
                read,
            ),
        }
    }

    /// What `lseek` does, whatever the kind of the descriptor.
    pub open spec fn lseek_result(&self, offset: int, whence: u32, after: FDt, r: int) -> bool {
        match (*self, after) {
            (FDt::Iso(before), FDt::Iso(after)) => before.lseek_result(offset, whence, after, r),
        }
    }
}

impl FileDescriptor for FDt {
    fn get_fd(&self) -> (id: FDId)
        ensures
            id == self.spec_fd(),
    {
        match self {
            FDt::Iso(fd) => fd.get_fd(),
        }
    }

    fn write(&mut self, buf: &[u8], count: usize) -> (written: isize)
        ensures
            written == -1,
            *final(self) == *old(self),
    {
        match self {
            FDt::Iso(fd) => fd.write(buf, count),
        }
    }

    fn read(&mut self, medium: &[u8], buf: &mut Vec<u8>, count: usize) -> (read: isize)
        ensures
            old(self).read_result(
                medium@,
                old(buf)@,
                count as int,
                *final(self),
                final(buf)@,
                read as int,
            ),
    {
        match self {
            FDt::Iso(fd) => fd.read(medium, buf, count),
        }
    }

    fn lseek(&mut self, offset: i64, whence: u32) -> (r: i64)
        ensures
            old(self).lseek_result(offset as int, whence, *final(self), r as int),
    {
        match self {
            FDt::Iso(fd) => fd.lseek(offset, whence),
        }
    }
}

/// What a table holds.
pub struct FDTableView {
    /// The open descriptors by their identifiers.
    pub entries: Map<u32, FDt>,
    /// The identifier that the next descriptor gets.
    pub next_id: u32,
}

impl FDTableView {
    /// The table after `fd` has entered it under the next identifier.
    pub open spec fn with_new(self, fd: FDt) -> FDTableView {
        FDTableView {
            entries: self.entries.insert(self.next_id, fd),
            next_id: next_fd(self.next_id),
        }
    }

    /// The table after the descriptor `id` has left it.
    pub open spec fn without(self, id: u32) -> FDTableView {
        FDTableView { entries: self.entries.remove(id), ..self }
    }
}

/// The open descriptors, ordered by identifier, each under its own.
pub struct FDTable {
    table: BTreeMap<u32, FDt>,
    next_id: u32,
}

impl View for FDTable {
    type V = FDTableView;

    closed spec fn view(&self) -> FDTableView {
        FDTableView { entries: self.table@, next_id: self.next_id }
    }
}

impl FDTable {
    /// Puts `fd` under `key`, in place of what was there.
    fn put(&mut self, key: u32, fd: FDt)
        ensures
            final(self)@ == (FDTableView {
                entries: old(self)@.entries.insert(key, fd),
                ..old(self)@
            }),
    {
        broadcast use vstd::laws_cmp::group_laws_cmp;

        self.table.insert(key, fd);
    }

    /// An empty table whose first identifier is zero.
    pub fn new() -> (table: Self)
        ensures
            table@.entries == Map::<u32, FDt>::empty(),
            table@.next_id == 0,
    {
        FDTable { table: BTreeMap::new(), next_id: 0 }
    }

    /// Takes the identifier for the next descriptor.
    pub fn allocate(&mut self) -> (id: FDId)
        ensures
            id.0 == old(self)@.next_id,
            final(self)@ == (FDTableView { next_id: next_fd(old(self)@.next_id), ..old(self)@ }),
    {
        let mut counter = self.next_id;
        let id = FDId::new(&mut counter);
        self.next_id = counter;
        id
    }

    /// Puts `fd` into the table under its identifier, in place of what was
    /// there.
    pub fn register_fd(&mut self, fd: FDt)
        ensures
            final(self)@ == (FDTableView {
                entries: old(self)@.entries.insert(fd.spec_fd().0, fd),
                ..old(self)@
            }),
    {
        let id = fd.get_fd();
        self.put(id.0, fd);
    }

    /// Takes the descriptor `id` out of the table and returns it; `None`,
    /// and no change, when it is not there.
    pub fn unregister_fd(&mut self, id: FDId) -> (fd: Option<FDt>)
        ensures
            final(self)@ == old(self)@.without(id.0),
            fd == if old(self)@.entries.contains_key(id.0) {
                Some(old(self)@.entries[id.0])
            } else {
                None
            },
    {
        broadcast use vstd::laws_cmp::group_laws_cmp;
        broadcast use vstd::std_specs::btree::group_btree_axioms;

        self.table.remove(&id.0)
    }

    /// The descriptor `id`, when it is open.
    pub fn get(&self, id: FDId) -> (fd: Option<FDt>)
        ensures
            fd == if self@.entries.contains_key(id.0) {
                Some(self@.entries[id.0])
            } else {
                None
            },
    {
        broadcast use vstd::laws_cmp::group_laws_cmp;
        broadcast use vstd::std_specs::btree::group_btree_axioms;

        match self.table.get(&id.0) {
            Some(fd) => Some(*fd),
            None => None,
        }
    }

    /// Reads from the descriptor `id` as its own `read` does; -1, and no
    /// change, when it is not open.
    pub fn read(&mut self, id: FDId, medium: &[u8], buf: &mut Vec<u8>, count: usize) -> (read:
        isize)
        requires
            count <= old(buf)@.len(),
        ensures
            final(self)@.next_id == old(self)@.next_id,
            final(self)@.entries.dom() == old(self)@.entries.dom(),
            forall|other: u32| other != id.0 ==> final(self)@.entries[other] == old(
                self,
            )@.entries[other],
            match old(self)@.entries.contains_key(id.0) {
                true => old(self)@.entries[id.0].read_result(
                    medium@,
                    old(buf)@,
                    count as int,
                    final(self)@.entries[id.0],
                    final(buf)@,
                    read as int,
                ),
                false => read == -1 && final(buf)@ == old(buf)@ && final(self)@ == old(self)@,
            },
    {
        let mut fd = match self.get(id) {
            Some(fd) => fd,
            None => {
                return -1;
            },
        };
        let read = fd.read(medium, buf, count);
        self.put(id.0, fd);
        assert(self@.entries.dom() =~= old(self)@.entries.dom());
        read
    }

    /// Writes to the descriptor `id`: -1 in every case, since no kind of
    /// descriptor can be written.
    pub fn write(&mut self, id: FDId, buf: &[u8], count: usize) -> (written: isize)
        ensures
            written == -1,
            final(self)@ == old(self)@,
    {
        let mut fd = match self.get(id) {
            Some(fd) => fd,
            None => {
                return -1;
            },
        };
        fd.write(buf, count)
    }

    /// Moves the offset of the descriptor `id` as its own `lseek` does; -1,
    /// and no change, when it is not open.
    pub fn lseek(&mut self, id: FDId, offset: i64, whence: u32) -> (r: i64)
        ensures
            final(self)@.next_id == old(self)@.next_id,
            final(self)@.entries.dom() == old(self)@.entries.dom(),
            forall|other: u32| other != id.0 ==> final(self)@.entries[other] == old(
                self,
            )@.entries[other],
            match old(self)@.entries.contains_key(id.0) {
                true => old(self)@.entries[id.0].lseek_result(
                    offset as int,
                    whence,
                    final(self)@.entries[id.0],
                    r as int,
                ),
                false => r == -1 && final(self)@ == old(self)@,
            },
    {
        let mut fd = match self.get(id) {
            Some(fd) => fd,
            None => {
                return -1;
            },
        };
        let r = fd.lseek(offset, whence);
        self.put(id.0, fd);
        assert(self@.entries.dom() =~= old(self)@.entries.dom());
        r
    }

    /// Closes the descriptor `id`: it leaves the table. Whether it was open.
    pub fn close(&mut self, id: FDId) -> (closed: bool)
        ensures
            closed == old(self)@.entries.contains_key(id.0),
            final(self)@ == old(self)@.without(id.0),
    {
        self.unregister_fd(id).is_some()
    }
}

} // verus!
