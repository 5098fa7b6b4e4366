//! The in-memory file entity and the closed set of file kinds.

use vstd::prelude::*;

use crate::errno::Errno;
use crate::path::{clone_bytes, Path};
use crate::perm::{Gid, Uid};

verus! {

/// A node number inside one backend.
///
/// The kernel never interprets its bits; the backend guarantees that the
/// value denotes a unique, reachable node.
pub type INode = u64;

/// A file mode: a kind pattern in the upper bits and permission bits below.
pub type Mode = u32;

/// File kind bits of a mode: socket.
pub const S_IFSOCK: Mode = 0o140000;
/// File kind bits of a mode: symbolic link.
pub const S_IFLNK: Mode = 0o120000;
/// File kind bits of a mode: regular file.
pub const S_IFREG: Mode = 0o100000;
/// File kind bits of a mode: block device.
pub const S_IFBLK: Mode = 0o060000;
/// File kind bits of a mode: directory.
pub const S_IFDIR: Mode = 0o040000;
/// File kind bits of a mode: character device.
pub const S_IFCHR: Mode = 0o020000;
/// File kind bits of a mode: FIFO.
pub const S_IFIFO: Mode = 0o010000;

/// Directory entry type as reported to directory listings: block device.
pub const DT_BLK: u8 = 6;
/// Directory entry type as reported to directory listings: char device.
pub const DT_CHR: u8 = 2;
/// Directory entry type as reported to directory listings: directory.
pub const DT_DIR: u8 = 4;
/// Directory entry type as reported to directory listings: FIFO.
pub const DT_FIFO: u8 = 1;
/// Directory entry type as reported to directory listings: symbolic link.
pub const DT_LNK: u8 = 10;
/// Directory entry type as reported to directory listings: regular file.
pub const DT_REG: u8 = 8;
/// Directory entry type as reported to directory listings: socket.
pub const DT_SOCK: u8 = 12;
/// Directory entry type as reported to directory listings: unknown.
pub const DT_UNKNOWN: u8 = 0;

/// The closed set of file kinds.
#[derive(Copy, Clone, Debug, Eq, PartialEq, Structural)]
pub enum FileType {
    /// A regular file storing data.
    Regular,
    /// A directory, containing other files.
    Directory,
    /// A symbolic link, pointing to another file.
    Link,
    /// A named pipe.
    Fifo,
    /// A Unix domain socket.
    Socket,
    /// A block device file.
    BlockDevice,
    /// A character device file.
    CharDevice,
}

/// The mode bit-pattern of a file kind.
pub open spec fn spec_kind_to_mode(t: FileType) -> Mode {
    match t {
        FileType::Socket => S_IFSOCK,
        FileType::Link => S_IFLNK,
        FileType::Regular => S_IFREG,
        FileType::BlockDevice => S_IFBLK,
        FileType::Directory => S_IFDIR,
        FileType::CharDevice => S_IFCHR,
        FileType::Fifo => S_IFIFO,
    }
}

/// The file kind a mode denotes, if any.
///
/// Only the kind bits of the mode are considered. The reserved all-zero
/// pattern is a legacy alias of `Regular`.
pub open spec fn spec_kind_of_mode(mode: Mode) -> Option<FileType> {
    if mode & 0o770000 == S_IFSOCK {
        Some(FileType::Socket)
    } else if mode & 0o770000 == S_IFLNK {
        Some(FileType::Link)
    } else if mode & 0o770000 == S_IFREG || mode & 0o770000 == 0 {
        Some(FileType::Regular)
    } else if mode & 0o770000 == S_IFBLK {
        Some(FileType::BlockDevice)
    } else if mode & 0o770000 == S_IFDIR {
        Some(FileType::Directory)
    } else if mode & 0o770000 == S_IFCHR {
        Some(FileType::CharDevice)
    } else if mode & 0o770000 == S_IFIFO {
        Some(FileType::Fifo)
    } else {
        None
    }
}

/// The directory-listing type code of a file kind.
pub open spec fn spec_kind_to_dirent_type(t: FileType) -> u8 {
    match t {
        FileType::Socket => DT_SOCK,
        FileType::Link => DT_LNK,
        FileType::Regular => DT_REG,
        FileType::BlockDevice => DT_BLK,
        FileType::Directory => DT_DIR,
        FileType::CharDevice => DT_CHR,
        FileType::Fifo => DT_FIFO,
    }
}

impl FileType {
    /// Returns the kind denoted by the kind bits of `mode`, or `None` when
    /// no kind matches.
    pub fn from_mode(mode: Mode) -> (r: Option<Self>)
        ensures
            r == spec_kind_of_mode(mode),
    {
        let kind_bits = mode & 0o770000;
        if kind_bits == S_IFSOCK {
            Some(Self::Socket)
        } else if kind_bits == S_IFLNK {
            Some(Self::Link)
        } else if kind_bits == S_IFREG || kind_bits == 0 {
            Some(Self::Regular)
        } else if kind_bits == S_IFBLK {
            Some(Self::BlockDevice)
        } else if kind_bits == S_IFDIR {
            Some(Self::Directory)
        } else if kind_bits == S_IFCHR {
            Some(Self::CharDevice)
        } else if kind_bits == S_IFIFO {
            Some(Self::Fifo)
        } else {
            None
        }
    }

    /// Returns the mode bit-pattern of the kind.
    pub fn to_mode(&self) -> (r: Mode)
        ensures
            r == spec_kind_to_mode(*self),
    {
        match self {
            Self::Socket => S_IFSOCK,
            Self::Link => S_IFLNK,
            Self::Regular => S_IFREG,
            Self::BlockDevice => S_IFBLK,
            Self::Directory => S_IFDIR,
            Self::CharDevice => S_IFCHR,
            Self::Fifo => S_IFIFO,
        }
    }

    /// Returns the type code used in directory listings.
    pub fn to_dirent_type(&self) -> (r: u8)
        ensures
            r == spec_kind_to_dirent_type(*self),
    {
        match self {
            Self::Socket => DT_SOCK,
            Self::Link => DT_LNK,
            Self::Regular => DT_REG,
            Self::BlockDevice => DT_BLK,
            Self::Directory => DT_DIR,
            Self::CharDevice => DT_CHR,
            Self::Fifo => DT_FIFO,
        }
    }
}

/// Mapping a kind to its mode bit-pattern and back yields the kind again:
/// the mapping is a bijection over the seven kinds, up to the reserved
/// all-zero pattern aliasing `Regular`.
pub proof fn lemma_kind_mode_round_trip(t: FileType)
    ensures
        spec_kind_of_mode(spec_kind_to_mode(t)) == Some(t),
{
    let m = spec_kind_to_mode(t);
    assert(m & 0o770000 == m) by (bit_vector)
        requires
            m == 0o140000 || m == 0o120000 || m == 0o100000 || m == 0o060000 || m == 0o040000
                || m == 0o020000 || m == 0o010000,
    ;
}

/// Two distinct kinds never share a mode bit-pattern.
pub proof fn lemma_kind_mode_injective(a: FileType, b: FileType)
    ensures
        spec_kind_to_mode(a) == spec_kind_to_mode(b) ==> a == b,
{
}

/// Two distinct kinds never share a directory-listing type code.
pub proof fn lemma_kind_dirent_type_injective(a: FileType, b: FileType)
    ensures
        spec_kind_to_dirent_type(a) == spec_kind_to_dirent_type(b) ==> a == b,
{
}

/// A timestamp in seconds, as a clock source reports it.
pub type Timestamp = u64;

/// Where a file's persistent state lives.
#[derive(Copy, Clone, Debug, Eq, PartialEq, Structural)]
pub enum FileLocation {
    /// The file lives on a mounted filesystem.
    Filesystem {
        /// The id of the mount point holding the file.
        mountpoint_id: u32,
        /// The file's node on that filesystem.
        inode: INode,
    },
    /// The file lives nowhere persistent, such as an anonymous pipe.
    Virtual {
        /// The id of the file among the virtual ones.
        id: u32,
    },
}

impl FileLocation {
    /// Returns the id of the mount point holding the file, or `None` for
    /// a virtual location, which no mount point holds.
    pub fn get_mountpoint_id(&self) -> (r: Option<u32>)
        ensures
            r == (match *self {
                FileLocation::Filesystem { mountpoint_id, .. } => Some(mountpoint_id),
                FileLocation::Virtual { .. } => None::<u32>,
            }),
    {
        match self {
            Self::Filesystem { mountpoint_id, .. } => Some(*mountpoint_id),
            Self::Virtual { .. } => None,
        }
    }

    /// The node number the location denotes: the node on the filesystem,
    /// or the virtual id.
    pub open spec fn spec_inode(self) -> INode {
        match self {
            FileLocation::Filesystem { inode, .. } => inode,
            FileLocation::Virtual { id } => id as INode,
        }
    }

    /// Returns the node number the location denotes.
    pub fn get_inode(&self) -> (r: INode)
        ensures
            r == self.spec_inode(),
    {
        match self {
            Self::Filesystem { inode, .. } => *inode,
            Self::Virtual { id } => *id as INode,
        }
    }
}

/// One child of a directory: the node it points to and its kind.
#[derive(Copy, Clone, Debug, Eq, PartialEq, Structural)]
pub struct DirEntry {
    /// The entry's node.
    pub inode: INode,
    /// The entry's kind.
    pub entry_type: FileType,
}

/// The name-to-entry mapping a directory's bindings form: keys unique,
/// insertion order irrelevant.
pub open spec fn map_of(s: Seq<(Vec<u8>, DirEntry)>) -> Map<Seq<u8>, DirEntry>
    decreases s.len(),
{
    if s.len() == 0 {
        Map::empty()
    } else {
        map_of(s.drop_last()).insert(s.last().0@, s.last().1)
    }
}

/// No two bindings share a name.
pub open spec fn unique_keys(s: Seq<(Vec<u8>, DirEntry)>) -> bool {
    forall|i: int, j: int| 0 <= i < j < s.len() ==> s[i].0@ != s[j].0@
}

/// A name is bound exactly when some binding holds it.
pub proof fn lemma_map_of_contains(s: Seq<(Vec<u8>, DirEntry)>, k: Seq<u8>)
    ensures
        map_of(s).contains_key(k) <==> exists|i: int| 0 <= i < s.len() && s[i].0@ == k,
    decreases s.len(),
{
    if s.len() > 0 {
        lemma_map_of_contains(s.drop_last(), k);
        if map_of(s).contains_key(k) {
            if s.last().0@ != k {
                let i = choose|i: int| 0 <= i < s.drop_last().len() && s.drop_last()[i].0@ == k;
                assert(s[i].0@ == k);
            }
        }
        if exists|i: int| 0 <= i < s.len() && s[i].0@ == k {
            let i = choose|i: int| 0 <= i < s.len() && s[i].0@ == k;
            if i < s.len() - 1 {
                assert(s.drop_last()[i].0@ == k);
            }
        }
    }
}

/// Under unique names, each binding is what the mapping returns.
pub proof fn lemma_map_of_get(s: Seq<(Vec<u8>, DirEntry)>, i: int)
    requires
        unique_keys(s),
        0 <= i < s.len(),
    ensures
        map_of(s).contains_key(s[i].0@),
        map_of(s)[s[i].0@] == s[i].1,
    decreases s.len(),
{
    if i < s.len() - 1 {
        assert(s.drop_last()[i] == s[i]);
        lemma_map_of_get(s.drop_last(), i);
        assert(s[i].0@ != s.last().0@);
    }
}

/// The bindings of a directory to its children, keyed by name.
#[derive(Debug)]
pub struct DirEntries {
    /// The bindings, each name at most once.
    pub entries: Vec<(Vec<u8>, DirEntry)>,
}

impl DirEntries {
    /// The mapping the bindings form.
    pub open spec fn view(self) -> Map<Seq<u8>, DirEntry> {
        map_of(self.entries@)
    }

    /// No two bindings share a name.
    pub open spec fn wf(self) -> bool {
        unique_keys(self.entries@)
    }

    /// Creates an empty set of bindings.
    pub fn new() -> (r: Self)
        ensures
            r.wf(),
            r@ == Map::<Seq<u8>, DirEntry>::empty(),
            r.entries@.len() == 0,
    {
        DirEntries { entries: Vec::new() }
    }

    /// The number of bindings.
    pub fn len(&self) -> (r: usize)
        ensures
            r == self.entries@.len(),
    {
        self.entries.len()
    }

    /// Tells whether there are no bindings.
    pub fn is_empty(&self) -> (r: bool)
        requires
            self.wf(),
        ensures
            r <==> self@ == Map::<Seq<u8>, DirEntry>::empty(),
            r <==> self.entries@.len() == 0,
    {
        proof {
            if self.entries@.len() > 0 {
                lemma_map_of_get(self.entries@, 0);
            } else {
                assert(self@ =~= Map::<Seq<u8>, DirEntry>::empty());
            }
        }
        self.entries.len() == 0
    }

    /// Returns the entry bound to `name`, if any.
    pub fn get(&self, name: &[u8]) -> (r: Option<&DirEntry>)
        requires
            self.wf(),
        ensures
            r is Some <==> self@.contains_key(name@),
            r is Some ==> *r->0 == self@[name@],
    {
        let mut i: usize = 0;
        while i < self.entries.len()
            invariant
                self.wf(),
                i <= self.entries@.len(),
                forall|k: int| 0 <= k < i ==> self.entries@[k].0@ != name@,
            decreases self.entries@.len() - i,
        {
            if bytes_eq(self.entries[i].0.as_slice(), name) {
                proof {
                    lemma_map_of_get(self.entries@, i as int);
                }
                return Some(&self.entries[i].1);
            }
            i += 1;
        }
        proof {
            lemma_map_of_contains(self.entries@, name@);
        }
        None
    }

    /// Binds `name` to `entry`, replacing any binding the name had.
    pub fn insert(&mut self, name: Vec<u8>, entry: DirEntry)
        requires
            old(self).wf(),
        ensures
            final(self).wf(),
            final(self)@ == old(self)@.insert(name@, entry),
    {
        let mut i: usize = 0;
        while i < self.entries.len()
            invariant
                self.wf(),
                self.entries@ == old(self).entries@,
                i <= self.entries@.len(),
                forall|k: int| 0 <= k < i ==> self.entries@[k].0@ != name@,
            decreases self.entries@.len() - i,
        {
            if bytes_eq(self.entries[i].0.as_slice(), name.as_slice()) {
                self.entries[i] = (name, entry);
                proof {
                    lemma_map_of_update(old(self).entries@, i as int, name, entry);
                }
                return ;
            }
            i += 1;
        }
        self.entries.push((name, entry));
        proof {
            assert(self.entries@.drop_last() =~= old(self).entries@);
            lemma_map_of_contains(old(self).entries@, name@);
        }
    }

    /// Drops the binding of `name`; does nothing when the name is not
    /// bound.
    pub fn remove(&mut self, name: &[u8])
        requires
            old(self).wf(),
        ensures
            final(self).wf(),
            final(self)@ == old(self)@.remove(name@),
    {
        let mut i: usize = 0;
        while i < self.entries.len()
            invariant
                self.wf(),
                self.entries@ == old(self).entries@,
                i <= self.entries@.len(),
                forall|k: int| 0 <= k < i ==> self.entries@[k].0@ != name@,
            decreases self.entries@.len() - i,
        {
            if bytes_eq(self.entries[i].0.as_slice(), name) {
                self.entries.remove(i);
                proof {
                    lemma_map_of_remove(old(self).entries@, i as int);
                    assert forall|a: int, b: int|
                        0 <= a < b < self.entries@.len() implies self.entries@[a].0@
                        != self.entries@[b].0@ by {
                        let oa = if a < i { a } else { a + 1 };
                        let ob = if b < i { b } else { b + 1 };
                        assert(self.entries@[a] == old(self).entries@[oa]);
                        assert(self.entries@[b] == old(self).entries@[ob]);
                    }
                }
                return ;
            }
            i += 1;
        }
        proof {
            lemma_map_of_contains(self.entries@, name@);
            assert(self@ =~= self@.remove(name@));
        }
    }

    /// Returns the binding at `index`, in insertion order.
    pub fn entry_at(&self, index: usize) -> (r: (&Vec<u8>, &DirEntry))
        requires
            index < self.entries@.len(),
        ensures
            *r.0 == self.entries@[index as int].0,
            *r.1 == self.entries@[index as int].1,
    {
        (&self.entries[index].0, &self.entries[index].1)
    }

    /// Returns a copy of the bindings.
    pub fn duplicate(&self) -> (r: Self)
        requires
            self.wf(),
        ensures
            r.wf(),
            r@ == self@,
            r.entries@.len() == self.entries@.len(),
    {
        let mut entries: Vec<(Vec<u8>, DirEntry)> = Vec::new();
        let mut i: usize = 0;
        while i < self.entries.len()
            invariant
                i <= self.entries@.len(),
                entries@.len() == i,
                forall|k: int|
                    0 <= k < i ==> (#[trigger] entries@[k]).0@ == self.entries@[k].0@
                        && entries@[k].1 == self.entries@[k].1,
            decreases self.entries@.len() - i,
        {
            let name = clone_bytes(&self.entries[i].0);
            let entry = self.entries[i].1;
            entries.push((name, entry));
            i += 1;
        }
        let r = DirEntries { entries };
        proof {
            lemma_map_of_congruence(r.entries@, self.entries@);
        }
        r
    }
}

/// Replacing the binding at `i` by one with the same name updates the
/// mapping at that name.
pub proof fn lemma_map_of_update(s: Seq<(Vec<u8>, DirEntry)>, i: int, name: Vec<u8>, entry: DirEntry)
    requires
        unique_keys(s),
        0 <= i < s.len(),
        s[i].0@ == name@,
    ensures
        unique_keys(s.update(i, (name, entry))),
        map_of(s.update(i, (name, entry))) == map_of(s).insert(name@, entry),
    decreases s.len(),
{
    let t = s.update(i, (name, entry));
    if i == s.len() - 1 {
        assert(t.drop_last() =~= s.drop_last());
        assert(map_of(t) =~= map_of(s).insert(name@, entry));
    } else {
        assert(t.drop_last() =~= s.drop_last().update(i, (name, entry)));
        lemma_map_of_update(s.drop_last(), i, name, entry);
        assert(s.last().0@ != name@);
        assert(t.last() == s.last());
        assert(map_of(t) =~= map_of(s).insert(name@, entry));
    }
}

/// Dropping the binding at `i` removes its name from the mapping.
pub proof fn lemma_map_of_remove(s: Seq<(Vec<u8>, DirEntry)>, i: int)
    requires
        unique_keys(s),
        0 <= i < s.len(),
    ensures
        map_of(s.remove(i)) == map_of(s).remove(s[i].0@),
    decreases s.len(),
{
    let t = s.remove(i);
    if i == s.len() - 1 {
        assert(t =~= s.drop_last());
        lemma_map_of_contains(s.drop_last(), s[i].0@);
        assert(map_of(t) =~= map_of(s).remove(s[i].0@));
    } else {
        assert(t.drop_last() =~= s.drop_last().remove(i));
        lemma_map_of_remove(s.drop_last(), i);
        assert(t.last() == s.last());
        assert(s[i].0@ != s.last().0@);
        assert(map_of(t) =~= map_of(s).remove(s[i].0@));
    }
}

/// Bindings equal name-by-name and entry-by-entry form equal mappings.
pub proof fn lemma_map_of_congruence(a: Seq<(Vec<u8>, DirEntry)>, b: Seq<(Vec<u8>, DirEntry)>)
    requires
        a.len() == b.len(),
        forall|k: int| 0 <= k < a.len() ==> (#[trigger] a[k]).0@ == b[k].0@ && a[k].1 == b[k].1,
    ensures
        map_of(a) == map_of(b),
        unique_keys(b) ==> unique_keys(a),
    decreases a.len(),
{
    if a.len() > 0 {
        lemma_map_of_congruence(a.drop_last(), b.drop_last());
        assert(map_of(a) =~= map_of(b));
    }
}

/// What a file's content is, kind by kind, as a mathematical value.
pub enum ContentView {
    /// A regular file's bytes live on its backend, not here.
    Regular,
    /// A directory: the name-to-entry mapping of its children.
    Directory(Map<Seq<u8>, DirEntry>),
    /// A symbolic link: its target path.
    Link(Seq<u8>),
    /// A named pipe.
    Fifo,
    /// A Unix domain socket.
    Socket,
    /// A block device and its numbers.
    BlockDevice {
        /// The device's major number.
        major: u32,
        /// The device's minor number.
        minor: u32,
    },
    /// A character device and its numbers.
    CharDevice {
        /// The device's major number.
        major: u32,
        /// The device's minor number.
        minor: u32,
    },
}

/// The file kind a content view belongs to.
pub open spec fn spec_view_kind(c: ContentView) -> FileType {
    match c {
        ContentView::Regular => FileType::Regular,
        ContentView::Directory(_) => FileType::Directory,
        ContentView::Link(_) => FileType::Link,
        ContentView::Fifo => FileType::Fifo,
        ContentView::Socket => FileType::Socket,
        ContentView::BlockDevice { .. } => FileType::BlockDevice,
        ContentView::CharDevice { .. } => FileType::CharDevice,
    }
}

/// The kind-specific payload of a file.
#[derive(Debug)]
pub enum FileContent {
    /// The file is a regular file.
    Regular,
    /// The file is a directory holding the given children.
    Directory(DirEntries),
    /// The file is a link to the given target path.
    Link(Vec<u8>),
    /// The file is a named pipe.
    Fifo,
    /// The file is a socket.
    Socket,
    /// The file is a block device.
    BlockDevice {
        /// The device's major number.
        major: u32,
        /// The device's minor number.
        minor: u32,
    },
    /// The file is a character device.
    CharDevice {
        /// The device's major number.
        major: u32,
        /// The device's minor number.
        minor: u32,
    },
}

impl FileContent {
    /// The content as a mathematical value.
    pub open spec fn view(self) -> ContentView {
        match self {
            FileContent::Regular => ContentView::Regular,
            FileContent::Directory(d) => ContentView::Directory(d@),
            FileContent::Link(target) => ContentView::Link(target@),
            FileContent::Fifo => ContentView::Fifo,
            FileContent::Socket => ContentView::Socket,
            FileContent::BlockDevice { major, minor } => ContentView::BlockDevice { major, minor },
            FileContent::CharDevice { major, minor } => ContentView::CharDevice { major, minor },
        }
    }

    /// A directory's bindings carry each name at most once.
    pub open spec fn wf(self) -> bool {
        match self {
            FileContent::Directory(d) => d.wf(),
            _ => true,
        }
    }

    /// The file kind the content belongs to.
    pub open spec fn spec_as_type(self) -> FileType {
        match self {
            FileContent::Regular => FileType::Regular,
            FileContent::Directory(_) => FileType::Directory,
            FileContent::Link(_) => FileType::Link,
            FileContent::Fifo => FileType::Fifo,
            FileContent::Socket => FileType::Socket,
            FileContent::BlockDevice { .. } => FileType::BlockDevice,
            FileContent::CharDevice { .. } => FileType::CharDevice,
        }
    }

    /// Returns the file kind the content belongs to.
    pub fn as_type(&self) -> (r: FileType)
        ensures
            r == self.spec_as_type(),
    {
        match self {
            Self::Regular => FileType::Regular,
            Self::Directory(_) => FileType::Directory,
            Self::Link(_) => FileType::Link,
            Self::Fifo => FileType::Fifo,
            Self::Socket => FileType::Socket,
            Self::BlockDevice { .. } => FileType::BlockDevice,
            Self::CharDevice { .. } => FileType::CharDevice,
        }
    }

    /// Returns a copy of the content.
    pub fn try_clone(&self) -> (r: Result<Self, Errno>)
        requires
            self.wf(),
        ensures
            r is Ok,
            r is Ok ==> (r->Ok_0)@ == self@ && (r->Ok_0).wf(),
    {
        Ok(
            match self {
                Self::Regular => Self::Regular,
                Self::Directory(entries) => Self::Directory(entries.duplicate()),
                Self::Link(target) => Self::Link(clone_bytes(target)),
                Self::Fifo => Self::Fifo,
                Self::Socket => Self::Socket,
                Self::BlockDevice { major, minor } => Self::BlockDevice {
                    major: *major,
                    minor: *minor,
                },
                Self::CharDevice { major, minor } => Self::CharDevice {
                    major: *major,
                    minor: *minor,
                },
            },
        )
    }
}

/// Compares two byte strings for equality.
pub fn bytes_eq(a: &[u8], b: &[u8]) -> (r: bool)
    ensures
        r == (a@ == b@),
{
    if a.len() != b.len() {
        proof {
            assert(a@ != b@);
        }
        return false;
    }
    let mut i: usize = 0;
    while i < a.len()
        invariant
            i <= a@.len(),
            a@.len() == b@.len(),
            forall|k: int| 0 <= k < i ==> a@[k] == b@[k],
        decreases a@.len() - i,
    {
        if a[i] != b[i] {
            return false;
        }
        i += 1;
    }
    proof {
        assert(a@ =~= b@);
    }
    true
}

/// A file's state as a mathematical value.
pub struct FileView {
    /// The file's name.
    pub name: Seq<u8>,
    /// Whether the parent path is absolute.
    pub parent_absolute: bool,
    /// The parent path's components.
    pub parent_parts: Seq<Seq<u8>>,
    /// The number of hard links.
    pub hard_links_count: u16,
    /// The number of blocks allocated for the file.
    pub blocks_count: u64,
    /// The file's size in bytes.
    pub size: u64,
    /// The owning user.
    pub uid: Uid,
    /// The owning group.
    pub gid: Gid,
    /// The permission bits.
    pub mode: Mode,
    /// When the metadata last changed.
    pub ctime: Timestamp,
    /// When the content last changed.
    pub mtime: Timestamp,
    /// When the file was last accessed.
    pub atime: Timestamp,
    /// Where the file's persistent state lives.
    pub location: FileLocation,
    /// The kind-specific payload.
    pub content: ContentView,
    /// Whether removal was deferred to the last reference's release.
    pub deferred_remove: bool,
    /// Whether the deferred removal has been performed.
    pub removed: bool,
}

/// The in-memory representation of any node: its metadata and its
/// kind-specific payload. A file never owns its storage channel; every
/// operation resolves it afresh through the file's location.
#[derive(Debug)]
pub struct File {
    /// The file's name.
    pub name: Vec<u8>,
    /// The path of the file's parent directory.
    pub parent_path: Path,
    /// The number of hard links to the file's node.
    pub hard_links_count: u16,
    /// The number of blocks allocated on the backend for the file.
    pub blocks_count: u64,
    /// The file's size in bytes.
    pub size: u64,
    /// The owning user.
    pub uid: Uid,
    /// The owning group.
    pub gid: Gid,
    /// The file's permission bits.
    pub mode: Mode,
    /// When the metadata last changed.
    pub ctime: Timestamp,
    /// When the content last changed.
    pub mtime: Timestamp,
    /// When the file was last accessed.
    pub atime: Timestamp,
    /// Where the file's persistent state lives.
    pub location: FileLocation,
    /// The kind-specific payload.
    pub content: FileContent,
    /// Whether the file is to be removed once no longer used.
    pub deferred_remove: bool,
    /// Whether the deferred removal has been performed.
    pub removed: bool,
}

impl File {
    /// The file's state as a mathematical value.
    pub open spec fn view(self) -> FileView {
        FileView {
            name: self.name@,
            parent_absolute: self.parent_path.absolute,
            parent_parts: self.parent_path.spec_parts(),
            hard_links_count: self.hard_links_count,
            blocks_count: self.blocks_count,
            size: self.size,
            uid: self.uid,
            gid: self.gid,
            mode: self.mode,
            ctime: self.ctime,
            mtime: self.mtime,
            atime: self.atime,
            location: self.location,
            content: self.content@,
            deferred_remove: self.deferred_remove,
            removed: self.removed,
        }
    }

    /// The file's directory bindings, when a directory, are well-formed.
    pub open spec fn wf(self) -> bool {
        self.content.wf()
    }

    /// Creates a file with the given name, ownership, permission bits,
    /// location and content; the content determines the file's kind. The
    /// file starts with one hard link, no bytes, and all three timestamps
    /// at `now`.
    pub fn new(
        name: Vec<u8>,
        uid: Uid,
        gid: Gid,
        mode: Mode,
        location: FileLocation,
        content: FileContent,
        now: Timestamp,
    ) -> (r: Self)
        requires
            content.wf(),
        ensures
            r.wf(),
            r@ == (FileView {
                name: name@,
                parent_absolute: true,
                parent_parts: Seq::<Seq<u8>>::empty(),
                hard_links_count: 1u16,
                blocks_count: 0u64,
                size: 0u64,
                uid,
                gid,
                mode,
                ctime: now,
                mtime: now,
                atime: now,
                location,
                content: content@,
                deferred_remove: false,
                removed: false,
            }),
    {
        File {
            name,
            parent_path: Path::root(),
            hard_links_count: 1,
            blocks_count: 0,
            size: 0,
            uid,
            gid,
            mode,
            ctime: now,
            mtime: now,
            atime: now,
            location,
            content,
            deferred_remove: false,
            removed: false,
        }
    }

    /// Returns the name of the file.
    pub fn get_name(&self) -> (r: &Vec<u8>)
        ensures
            r@ == self@.name,
    {
        &self.name
    }

    /// Returns the path of the file's parent directory.
    pub fn get_parent_path(&self) -> (r: &Path)
        ensures
            r.absolute == self@.parent_absolute,
            r.spec_parts() == self@.parent_parts,
    {
        &self.parent_path
    }

    /// Returns the file's own path: the parent path with the file's name
    /// appended, or the parent path itself when the name is empty, as it
    /// is for a filesystem root.
    pub fn get_path(&self) -> (r: Path)
        ensures
            r.absolute == self@.parent_absolute,
            r.spec_parts() == (if self@.name.len() == 0 {
                self@.parent_parts
            } else {
                self@.parent_parts.push(self@.name)
            }),
    {
        let mut path = self.parent_path.duplicate();
        if self.name.len() != 0 {
            path.push(clone_bytes(&self.name));
        }
        path
    }

    /// Sets the file's parent path, which must be absolute.
    pub fn set_parent_path(&mut self, parent_path: Path)
        ensures
            final(self)@ == (FileView {
                parent_absolute: parent_path.absolute,
                parent_parts: parent_path.spec_parts(),
                ..old(self)@
            }),
    {
        self.parent_path = parent_path;
    }

    /// Returns the file's full mode: the kind bits joined with the
    /// permission bits.
    pub fn get_mode(&self) -> (r: Mode)
        ensures
            r == self.mode | spec_kind_to_mode(self.content.spec_as_type()),
    {
        self.mode | self.content.as_type().to_mode()
    }

    /// Returns the permission bits of the file.
    pub fn get_permissions(&self) -> (r: Mode)
        ensures
            r == self.mode & 0o7777,
    {
        self.mode & 0o7777
    }

    /// Sets the permission bits of the file and records the metadata
    /// change at `now`.
    pub fn set_permissions(&mut self, mode: Mode, now: Timestamp)
        ensures
            final(self)@ == (FileView { mode: mode & 0o7777, ctime: now, ..old(self)@ }),
    {
        self.mode = mode & 0o7777;
        self.ctime = now;
    }

    /// Returns the location at which the file is stored.
    pub fn get_location(&self) -> (r: &FileLocation)
        ensures
            *r == self@.location,
    {
        &self.location
    }

    /// Returns the number of hard links.
    pub fn get_hard_links_count(&self) -> (r: u16)
        ensures
            r == self@.hard_links_count,
    {
        self.hard_links_count
    }

    /// Sets the number of hard links and records the metadata change at
    /// `now`.
    pub fn set_hard_links_count(&mut self, count: u16, now: Timestamp)
        ensures
            final(self)@ == (FileView { hard_links_count: count, ctime: now, ..old(self)@ }),
    {
        self.hard_links_count = count;
        self.ctime = now;
    }

    /// Returns the file's size in bytes.
    pub fn get_size(&self) -> (r: u64)
        ensures
            r == self@.size,
    {
        self.size
    }

    /// Sets the file's size in bytes.
    pub fn set_size(&mut self, size: u64)
        ensures
            final(self)@ == (FileView { size, ..old(self)@ }),
    {
        self.size = size;
    }

    /// Returns the owning user.
    pub fn get_uid(&self) -> (r: Uid)
        ensures
            r == self@.uid,
    {
        self.uid
    }

    /// Sets the owning user and records the metadata change at `now`.
    pub fn set_uid(&mut self, uid: Uid, now: Timestamp)
        ensures
            final(self)@ == (FileView { uid, ctime: now, ..old(self)@ }),
    {
        self.uid = uid;
        self.ctime = now;
    }

    /// Returns the owning group.
    pub fn get_gid(&self) -> (r: Gid)
        ensures
            r == self@.gid,
    {
        self.gid
    }

    /// Sets the owning group and records the metadata change at `now`.
    pub fn set_gid(&mut self, gid: Gid, now: Timestamp)
        ensures
            final(self)@ == (FileView { gid, ctime: now, ..old(self)@ }),
    {
        self.gid = gid;
        self.ctime = now;
    }

    /// Tells whether the directory is empty.
    ///
    /// Fails with a not-a-directory error when the file is no directory.
    pub fn is_empty_directory(&self) -> (r: Result<bool, Errno>)
        requires
            self.wf(),
        ensures
            r is Ok <==> self.content is Directory,
            r is Err ==> r == Err::<bool, Errno>(Errno::NotADirectory),
            r is Ok ==> (r->Ok_0 <==> self@.content->Directory_0 == Map::<
                Seq<u8>,
                DirEntry,
            >::empty()),
    {
        match &self.content {
            FileContent::Directory(entries) => Ok(entries.is_empty()),
            _ => Err(Errno::NotADirectory),
        }
    }

    /// Binds `name` to `entry` among the directory's children.
    ///
    /// Fails with a not-a-directory error when the file is no directory.
    pub fn add_entry(&mut self, name: Vec<u8>, entry: DirEntry) -> (r: Result<(), Errno>)
        requires
            old(self).wf(),
        ensures
            final(self).wf(),
            r is Ok <==> old(self).content is Directory,
            r is Err ==> r == Err::<(), Errno>(Errno::NotADirectory) && *final(self) == *old(self),
            r is Ok ==> final(self)@ == (FileView {
                content: ContentView::Directory(
                    old(self)@.content->Directory_0.insert(name@, entry),
                ),
                ..old(self)@
            }),
    {
        match &mut self.content {
            FileContent::Directory(entries) => {
                entries.insert(name, entry);
                Ok(())
            },
            _ => Err(Errno::NotADirectory),
        }
    }

    /// Drops the binding of `name` among the directory's children; absent
    /// names are left alone.
    ///
    /// Fails with a not-a-directory error when the file is no directory.
    pub fn remove_entry(&mut self, name: &[u8]) -> (r: Result<(), Errno>)
        requires
            old(self).wf(),
        ensures
            final(self).wf(),
            r is Ok <==> old(self).content is Directory,
            r is Err ==> r == Err::<(), Errno>(Errno::NotADirectory) && *final(self) == *old(self),
            r is Ok ==> final(self)@ == (FileView {
                content: ContentView::Directory(old(self)@.content->Directory_0.remove(name@)),
                ..old(self)@
            }),
    {
        match &mut self.content {
            FileContent::Directory(entries) => {
                entries.remove(name);
                Ok(())
            },
            _ => Err(Errno::NotADirectory),
        }
    }

    /// Returns the directory entry describing this file: its node and its
    /// kind.
    pub fn as_dir_entry(&self) -> (r: DirEntry)
        ensures
            r == (DirEntry {
                inode: self@.location.spec_inode(),
                entry_type: self.content.spec_as_type(),
            }),
    {
        DirEntry { inode: self.location.get_inode(), entry_type: self.get_type() }
    }

    /// Returns the file's content.
    pub fn get_content(&self) -> (r: &FileContent)
        ensures
            r@ == self@.content,
            *r == self.content,
    {
        &self.content
    }

    /// Returns the kind of the file.
    pub fn get_type(&self) -> (r: FileType)
        ensures
            r == self.content.spec_as_type(),
    {
        self.content.as_type()
    }

    /// Defers removal of the file: it stays usable, and is removed when it
    /// is no longer used.
    pub fn defer_remove(&mut self)
        ensures
            final(self)@ == (FileView { deferred_remove: true, ..old(self)@ }),
    {
        self.deferred_remove = true;
    }
}

/// Whether the identity `(uid, gid)` may read `file`: the superuser
/// always may; otherwise the owner bit decides for the owner, the group
/// bit for the group, and the other bit for everyone else.
pub open spec fn spec_can_read(uid: Uid, gid: Gid, file: File) -> bool {
    ||| uid == crate::perm::ROOT_UID
    ||| gid == crate::perm::ROOT_GID
    ||| (file.mode & crate::perm::S_IRUSR != 0 && file.uid == uid)
    ||| (file.mode & crate::perm::S_IRGRP != 0 && file.gid == gid)
    ||| file.mode & crate::perm::S_IROTH != 0
}

/// Whether the identity `(uid, gid)` may write `file`, shaped as the read
/// check over the write bits.
pub open spec fn spec_can_write(uid: Uid, gid: Gid, file: File) -> bool {
    ||| uid == crate::perm::ROOT_UID
    ||| gid == crate::perm::ROOT_GID
    ||| (file.mode & crate::perm::S_IWUSR != 0 && file.uid == uid)
    ||| (file.mode & crate::perm::S_IWGRP != 0 && file.gid == gid)
    ||| file.mode & crate::perm::S_IWOTH != 0
}

/// Whether the identity `(uid, gid)` may execute `file`: as the read
/// check over the execute bits, except that the superuser's bypass is
/// denied on regular files — a regular file with no execute bit is not
/// executable even for the superuser.
pub open spec fn spec_can_execute(uid: Uid, gid: Gid, file: File) -> bool {
    ||| (!(file.content is Regular) && (uid == crate::perm::ROOT_UID || gid
        == crate::perm::ROOT_GID))
    ||| (file.mode & crate::perm::S_IXUSR != 0 && file.uid == uid)
    ||| (file.mode & crate::perm::S_IXGRP != 0 && file.gid == gid)
    ||| file.mode & crate::perm::S_IXOTH != 0
}

impl crate::perm::AccessProfile {
    /// The ids the profile presents: the effective pair or the real pair.
    pub open spec fn spec_ids(self, effective: bool) -> (Uid, Gid) {
        if effective {
            (self.euid, self.egid)
        } else {
            (self.uid, self.gid)
        }
    }

    fn check_read_access_impl(uid: Uid, gid: Gid, file: &File) -> (r: bool)
        ensures
            r == spec_can_read(uid, gid, *file),
    {
        if uid == crate::perm::ROOT_UID || gid == crate::perm::ROOT_GID {
            return true;
        }
        if file.mode & crate::perm::S_IRUSR != 0 && file.uid == uid {
            return true;
        }
        if file.mode & crate::perm::S_IRGRP != 0 && file.gid == gid {
            return true;
        }
        file.mode & crate::perm::S_IROTH != 0
    }

    /// Tells whether the agent may read the file, under its effective ids
    /// when `effective`, its real ids otherwise.
    pub fn check_read_access(&self, file: &File, effective: bool) -> (r: bool)
        ensures
            r == spec_can_read(self.spec_ids(effective).0, self.spec_ids(effective).1, *file),
    {
        let (uid, gid) = if effective {
            (self.get_euid(), self.get_egid())
        } else {
            (self.get_uid(), self.get_gid())
        };
        Self::check_read_access_impl(uid, gid, file)
    }

    /// Tells whether the agent may read the file, under its effective
    /// ids: the preferred general-purpose check.
    pub fn can_read_file(&self, file: &File) -> (r: bool)
        ensures
            r == spec_can_read(self.euid, self.egid, *file),
    {
        self.check_read_access(file, true)
    }

    /// Tells whether the agent may list the directory's children, not
    /// including access to their contents and metadata.
    pub fn can_list_directory(&self, file: &File) -> (r: bool)
        ensures
            r == spec_can_read(self.euid, self.egid, *file),
    {
        self.can_read_file(file)
    }

    fn check_write_access_impl(uid: Uid, gid: Gid, file: &File) -> (r: bool)
        ensures
            r == spec_can_write(uid, gid, *file),
    {
        if uid == crate::perm::ROOT_UID || gid == crate::perm::ROOT_GID {
            return true;
        }
        if file.mode & crate::perm::S_IWUSR != 0 && file.uid == uid {
            return true;
        }
        if file.mode & crate::perm::S_IWGRP != 0 && file.gid == gid {
            return true;
        }
        file.mode & crate::perm::S_IWOTH != 0
    }

    /// Tells whether the agent may write the file, under its effective
    /// ids when `effective`, its real ids otherwise.
    pub fn check_write_access(&self, file: &File, effective: bool) -> (r: bool)
        ensures
            r == spec_can_write(self.spec_ids(effective).0, self.spec_ids(effective).1, *file),
    {
        let (uid, gid) = if effective {
            (self.get_euid(), self.get_egid())
        } else {
            (self.get_uid(), self.get_gid())
        };
        Self::check_write_access_impl(uid, gid, file)
    }

    /// Tells whether the agent may write the file, under its effective
    /// ids.
    pub fn can_write_file(&self, file: &File) -> (r: bool)
        ensures
            r == spec_can_write(self.euid, self.egid, *file),
    {
        self.check_write_access(file, true)
    }

    /// Tells whether the agent may modify the directory's entries:
    /// creating, deleting and renaming children take both write and
    /// search rights on the directory.
    pub fn can_write_directory(&self, file: &File) -> (r: bool)
        ensures
            r == (spec_can_write(self.euid, self.egid, *file) && spec_can_execute(
                self.euid,
                self.egid,
                *file,
            )),
    {
        self.can_write_file(file) && self.can_execute_file(file)
    }

    fn check_execute_access_impl(uid: Uid, gid: Gid, file: &File) -> (r: bool)
        ensures
            r == spec_can_execute(uid, gid, *file),
    {
        if !(matches!(file.content, FileContent::Regular)) && (uid == crate::perm::ROOT_UID || gid
            == crate::perm::ROOT_GID) {
            return true;
        }
        if file.mode & crate::perm::S_IXUSR != 0 && file.uid == uid {
            return true;
        }
        if file.mode & crate::perm::S_IXGRP != 0 && file.gid == gid {
            return true;
        }
        file.mode & crate::perm::S_IXOTH != 0
    }

    /// Tells whether the agent may execute the file, under its effective
    /// ids when `effective`, its real ids otherwise.
    pub fn check_execute_access(&self, file: &File, effective: bool) -> (r: bool)
        ensures
            r == spec_can_execute(self.spec_ids(effective).0, self.spec_ids(effective).1, *file),
    {
        let (uid, gid) = if effective {
            (self.get_euid(), self.get_egid())
        } else {
            (self.get_uid(), self.get_gid())
        };
        Self::check_execute_access_impl(uid, gid, file)
    }

    /// Tells whether the agent may execute the file, under its effective
    /// ids.
    pub fn can_execute_file(&self, file: &File) -> (r: bool)
        ensures
            r == spec_can_execute(self.euid, self.egid, *file),
    {
        self.check_execute_access(file, true)
    }

    /// Tells whether the agent may reach the directory's children when it
    /// knows their names.
    pub fn can_search_directory(&self, file: &File) -> (r: bool)
        ensures
            r == spec_can_execute(self.euid, self.egid, *file),
    {
        self.can_execute_file(file)
    }

    /// Tells whether the agent may set the file's permission bits: the
    /// effective user must be the superuser or the file's owner.
    pub fn can_set_file_permissions(&self, file: &File) -> (r: bool)
        ensures
            r == (self.euid == crate::perm::ROOT_UID || self.euid == file.uid),
    {
        let euid = self.get_euid();
        euid == crate::perm::ROOT_UID || euid == file.get_uid()
    }
}

/// The superuser bypasses read and write checks on every file and execute
/// checks on every non-regular file; on a regular file without a single
/// execute bit, not even the superuser may execute.
pub proof fn lemma_root_bypass(uid: Uid, gid: Gid, file: File)
    requires
        uid == crate::perm::ROOT_UID || gid == crate::perm::ROOT_GID,
    ensures
        spec_can_read(uid, gid, file),
        spec_can_write(uid, gid, file),
        !(file.content is Regular) ==> spec_can_execute(uid, gid, file),
        file.content is Regular && file.mode & 0o111 == 0 ==> !spec_can_execute(uid, gid, file),
{
    let m = file.mode;
    assert(m & 0o111 == 0 ==> m & 0o100 == 0 && m & 0o010 == 0 && m & 0o001 == 0)
        by (bit_vector);
}

} // verus!
