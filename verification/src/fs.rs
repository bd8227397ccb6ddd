//! File systems: what every file system can do, and the mount table that
//! sends a path to the file system that holds it.

use crate::fd::FDId;
use crate::fd::FDTable;
use crate::fd::FDTableView;
use crate::fs::iso::spec_open_in;
use crate::fs::iso::IsoFS;
use crate::fs::path::components;
use crate::fs::path::rooted;
use crate::fs::path::split_path;
use crate::fs::path::views;
use prefix_tree_map::PrefixTreeMap;
use prefix_tree_map::PrefixTreeMapBuilder;
use vstd::prelude::*;
use vstd::string::StringExecFns;

pub mod iso;
pub mod path;

verus! {

/// What every file system can do. `medium` is the content of the disc,
/// block after block; open descriptors live in `fds`.
pub trait FileSystem {
    /// That the file system is in order, as every one is that its own
    /// functions made.
    spec fn wf(&self) -> bool;

    /// Opens the file that `path` names; its descriptor, or `None`.
    fn open(&mut self, medium: &[u8], fds: &mut FDTable, path: &str, flags: u32) -> Option<FDId>
        requires
            old(self).wf(),
    ;
}

/// A mounted file system of any kind.
#[derive(Clone, Copy)]
pub enum FSt {
    /// An ISO-9660 volume.
    Iso(IsoFS),
}

/// Declares the builder type of the prefix_tree_map crate.
#[verifier::external_type_specification]
#[verifier::external_body]
#[verifier::reject_recursive_types(E)]
#[verifier::reject_recursive_types(W)]
#[verifier::reject_recursive_types(V)]
pub struct ExPrefixTreeMapBuilder<E, W, V>(PrefixTreeMapBuilder<E, W, V>);

/// Declares the map type of the prefix_tree_map crate.
#[verifier::external_type_specification]
#[verifier::external_body]
#[verifier::reject_recursive_types(E)]
#[verifier::reject_recursive_types(W)]
#[verifier::reject_recursive_types(V)]
pub struct ExPrefixTreeMap<E, W, V>(PrefixTreeMap<E, W, V>);

/// The values that a builder holds, each under the key it was inserted
/// with.
pub uninterp spec fn builder_mounts(builder: PrefixTreeMapBuilder<String, String, usize>) -> Map<
    Seq<Seq<char>>,
    usize,
>;

/// The values that a built map holds, each under its key.
pub uninterp spec fn tree_mounts(tree: PrefixTreeMap<String, String, usize>) -> Map<
    Seq<Seq<char>>,
    usize,
>;

/// The table without mounts.
pub open spec fn no_mounts() -> Map<Seq<Seq<char>>, usize> {
    Map::empty()
}

/// `PrefixTreeMapBuilder::new`: a builder that holds nothing.
#[verifier::external_body]
fn builder_new() -> (fresh: PrefixTreeMapBuilder<String, String, usize>)
    ensures
        builder_mounts(fresh) == no_mounts(),
{
    PrefixTreeMapBuilder::new()
}

/// `PrefixTreeMapBuilder::insert_exact`: `value` stands under `key` from now
/// on, in place of what stood there; the other keys keep their values.
#[verifier::external_body]
fn builder_insert_exact(
    builder: &mut PrefixTreeMapBuilder<String, String, usize>,
    key: Vec<String>,
    value: usize,
)
    ensures
        builder_mounts(*final(builder)) == builder_mounts(*old(builder)).insert(
            views(key@),
            value,
        ),
{
    builder.insert_exact(key, value)
}

/// `Clone::clone` of a builder: a builder that holds the same.
#[verifier::external_body]
fn builder_clone(builder: &PrefixTreeMapBuilder<String, String, usize>) -> (copy:
    PrefixTreeMapBuilder<String, String, usize>)
    ensures
        builder_mounts(copy) == builder_mounts(*builder),
{
    builder.clone()
}

/// `PrefixTreeMapBuilder::build`: the map that holds what the builder held.
#[verifier::external_body]
fn builder_build(builder: PrefixTreeMapBuilder<String, String, usize>) -> (tree: PrefixTreeMap<
    String,
    String,
    usize,
>)
    ensures
        tree_mounts(tree) == builder_mounts(builder),
{
    builder.build()
}

/// `PrefixTreeMap::find_exact`: the value that stands under exactly `key`,
/// if one does.
#[verifier::external_body]
fn tree_find_exact(tree: &PrefixTreeMap<String, String, usize>, key: &Vec<String>) -> (value:
    Option<usize>)
    ensures
        value == if tree_mounts(*tree).contains_key(views(key@)) {
            Some(tree_mounts(*tree)[views(key@)])
        } else {
            None
        },
{
    tree.find_exact(key.as_slice()).copied()
}

/// The length of the longest beginning of `parts`, no longer than `k`, that
/// is a key of `table`.
pub open spec fn mount_cut(table: Map<Seq<Seq<char>>, usize>, parts: Seq<Seq<char>>, k: int)
    -> Option<int>
    decreases k,
{
    if k < 0 {
        None
    } else if table.contains_key(parts.take(k)) {
        Some(k)
    } else if k == 0 {
        None
    } else {
        mount_cut(table, parts, k - 1)
    }
}

/// `mount_cut` gives a beginning that is mounted, and no longer beginning up
/// to `k` is; it gives none only where none is mounted.
pub proof fn lemma_mount_cut(table: Map<Seq<Seq<char>>, usize>, parts: Seq<Seq<char>>, k: int)
    ensures
        match mount_cut(table, parts, k) {
            Some(j) => 0 <= j <= k && table.contains_key(parts.take(j)) && forall|l: int|
                j < l <= k ==> !table.contains_key(#[trigger] parts.take(l)),
            None => forall|l: int| 0 <= l <= k ==> !table.contains_key(#[trigger] parts.take(l)),
        },
    decreases k,
{
    if k > 0 && !table.contains_key(parts.take(k)) {
        lemma_mount_cut(table, parts, k - 1);
    }
}

/// What the mount table makes of a path: the index of the file system that
/// is mounted at the longest beginning of the path, and the rest of the path
/// behind it, each component behind one slash.
pub open spec fn spec_resolve(table: Map<Seq<Seq<char>>, usize>, path: Seq<char>) -> Option<
    (usize, Seq<char>),
> {
    let parts = components(path);
    match mount_cut(table, parts, parts.len() as int) {
        Some(j) => Some((table[parts.take(j)], rooted(parts.skip(j)))),
        None => None,
    }
}

/// What a mount table holds.
pub struct VirtualFSView {
    /// The index of the file system mounted at a path, by the components of
    /// the path.
    pub table: Map<Seq<Seq<char>>, usize>,
    /// How many file systems are mounted.
    pub count: nat,
}

/// The mount table: file systems by the paths they are mounted at.
pub struct VirtualFS {
    map_builder: PrefixTreeMapBuilder<String, String, usize>,
    map: Option<PrefixTreeMap<String, String, usize>>,
    mounts: Vec<FSt>,
}

impl View for VirtualFS {
    type V = VirtualFSView;

    closed spec fn view(&self) -> VirtualFSView {
        VirtualFSView { table: builder_mounts(self.map_builder), count: self.mounts@.len() }
    }
}

impl VirtualFS {
    /// A table without mounts.
    pub fn empty() -> (vfs: Self)
        ensures
            vfs.wf(),
            vfs@.table == no_mounts(),
            vfs@.count == 0,
    {
        VirtualFS { map_builder: builder_new(), map: None, mounts: Vec::new() }
    }

    /// The table at boot: an ISO-9660 volume at `/` and another at
    /// `/mnt/iso`.
    pub fn new() -> (vfs: Self)
        ensures
            vfs.wf(),
            vfs@.table == no_mounts().insert(components("/"@), 0).insert(
                components("/mnt/iso"@),
                1,
            ),
            vfs@.count == 2,
    {
        let mut vfs = VirtualFS::empty();
        vfs.mount("/", FSt::Iso(IsoFS {  }));
        vfs.mount("/mnt/iso", FSt::Iso(IsoFS {  }));
        vfs
    }

    /// The mounted file system number `index`, in the order of mounting.
    pub fn filesystem(&self, index: usize) -> (fs: Option<FSt>)
        ensures
            fs is Some <==> index < self@.count,
    {
        if index < self.mounts.len() {
            Some(self.mounts[index])
        } else {
            None
        }
    }

    /// Mounts `fs` at `path`, in place of what was mounted there.
    pub fn mount(&mut self, path: &str, fs: FSt)
        requires
            old(self).wf(),
        ensures
            final(self).wf(),
            final(self)@.table == old(self)@.table.insert(components(path@), old(self)@.count as usize),
            final(self)@.count == old(self)@.count + 1,
    {
        let index = self.mounts.len();
        self.mounts.push(fs);
        builder_insert_exact(&mut self.map_builder, split_path(path), index);
        self.map = Some(builder_build(builder_clone(&self.map_builder)));
    }

    /// Finds the file system for `path`: the one mounted at the longest
    /// beginning of the path, with the rest of the path behind the mount
    /// point. `None` when no beginning of the path is mounted.
    pub fn resolve(&self, path: &str) -> (r: Option<(usize, String)>)
        requires
            self.wf(),
        ensures
            match spec_resolve(self@.table, path@) {
                Some((index, rest)) => r matches Some((i, s)) && i == index && s@ == rest && index
                    < self@.count,
                None => r is None,
            },
    {
        let tree = match &self.map {
            Some(tree) => tree,
            None => {
                proof {
                    lemma_mount_cut(
                        self@.table,
                        components(path@),
                        components(path@).len() as int,
                    );
                }
                return None;
            },
        };
        let mut parts = split_path(path);
        let ghost all = components(path@);
        let mut rest = String::from_str("");
        proof {
            reveal_strlit("");
            assert(views(parts@).take(parts@.len() as int) =~= views(parts@));
            assert(rest@ =~= rooted(all.skip(all.len() as int)));
        }
        loop
            invariant
                self.wf(),
                self.map == Some(*tree),
                all == components(path@),
                parts@.len() <= all.len(),
                views(parts@) == all.take(parts@.len() as int),
                rest@ == rooted(all.skip(parts@.len() as int)),
                mount_cut(self@.table, all, parts@.len() as int) == mount_cut(
                    self@.table,
                    all,
                    all.len() as int,
                ),
            decreases parts@.len(),
        {
            match tree_find_exact(tree, &parts) {
                Some(index) => {
                    return Some((index, rest));
                },
                None => {},
            }
            let ghost before = parts@;
            let last = match parts.pop() {
                Some(last) => last,
                None => {
                    return None;
                },
            };
            let ghost k = parts@.len() as int;
            proof {
                reveal_strlit("/");
                assert(views(parts@) =~= all.take(k));
                assert(views(before)[k] == last@);
                assert(all.skip(k)[0] == last@);
                assert(all.skip(k).skip(1) =~= all.skip(k + 1));
            }
            rest = String::from_str("/").concat(last.as_str()).concat(rest.as_str());
            assert(rest@ =~= rooted(all.skip(k)));
        }
    }
}

impl FileSystem for VirtualFS {
    /// The built map holds what the builder holds, and every mounted path
    /// leads to a mounted file system.
    closed spec fn wf(&self) -> bool {
        &&& self.map matches Some(tree) ==> tree_mounts(tree) == builder_mounts(self.map_builder)
        &&& self.map is None ==> builder_mounts(self.map_builder) == no_mounts()
        &&& forall|key: Seq<Seq<char>>| #[trigger]
            builder_mounts(self.map_builder).contains_key(key) ==> builder_mounts(
                self.map_builder,
            )[key] < self.mounts@.len()
    }

    /// Opens `path` on the file system that `resolve` finds for it, under
    /// the rest of the path. `None`, and no change, when no beginning of
    /// the path is mounted.
    fn open(&mut self, medium: &[u8], fds: &mut FDTable, path: &str, flags: u32) -> (r: Option<
        FDId,
    >)
        ensures
            final(self).wf(),
            final(self)@ == old(self)@,
            (final(fds)@, r) == spec_open_through(
                old(self)@.table,
                old(fds)@,
                medium@,
                path@,
                flags,
            ),
    {
        let (index, rest) = match self.resolve(path) {
            Some(found) => found,
            None => {
                return None;
            },
        };
        match self.mounts[index] {
            FSt::Iso(mut fs) => fs.open(medium, fds, rest.as_str(), flags),
        }
    }
}

/// What opening `path` through the mount table does: what opening the rest
/// of the path does on the file system that the path resolves to.
pub open spec fn spec_open_through(
    table: Map<Seq<Seq<char>>, usize>,
    fds: FDTableView,
    medium: Seq<u8>,
    path: Seq<char>,
    flags: u32,
) -> (FDTableView, Option<FDId>) {
    match spec_resolve(table, path) {
        Some((index, rest)) => spec_open_in(fds, medium, rest, flags),
        None => (fds, None),
    }
}

} // verus!
