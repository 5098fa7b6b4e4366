//! The backend contract every storage driver implements, and the
//! process-wide registry of backend types used to auto-detect and
//! instantiate backends.

use vstd::prelude::*;

use crate::channel::Channel;
use crate::errno::Errno;
use crate::file::{ContentView, DirEntry, File, FileContent, INode, Mode};
use crate::memfs::MemFs;
use crate::path::Path;
use crate::perm::{Gid, Uid};

verus! {

/// Statistics about a filesystem, as a caller of a filesystem-statistics
/// call receives them.
#[derive(Copy, Clone, Debug, PartialEq, Eq, Structural)]
pub struct Statfs {
    /// Type of filesystem.
    pub f_type: u32,
    /// Optimal transfer block size.
    pub f_bsize: u32,
    /// Total data blocks in the filesystem.
    pub f_blocks: i64,
    /// Free blocks in the filesystem.
    pub f_bfree: i64,
    /// Free blocks available to an unprivileged user.
    pub f_bavail: i64,
    /// Total nodes in the filesystem.
    pub f_files: i64,
    /// Free nodes in the filesystem.
    pub f_ffree: i64,
    /// Filesystem id; reserved, always zero.
    pub f_fsid: u64,
    /// Maximum length of file names.
    pub f_namelen: u32,
    /// Fragment size.
    pub f_frsize: u32,
    /// Mount flags of the filesystem.
    pub f_flags: u32,
}

/// The name of the in-memory temporary filesystem.
pub open spec fn tmpfs_name() -> Seq<u8> {
    seq![116u8, 109u8, 112u8, 102u8, 115u8]
}

/// The name of the process-information filesystem.
pub open spec fn procfs_name() -> Seq<u8> {
    seq![112u8, 114u8, 111u8, 99u8, 102u8, 115u8]
}

/// The name of the on-disk filesystem whose directory-entry format this
/// crate carries.
pub open spec fn ext2_name() -> Seq<u8> {
    seq![101u8, 120u8, 116u8, 50u8]
}

/// Builds the name of the in-memory temporary filesystem.
pub fn name_tmpfs() -> (r: Vec<u8>)
    ensures
        r@ == tmpfs_name(),
{
    let mut v: Vec<u8> = Vec::new();
    v.push(116u8);
    v.push(109u8);
    v.push(112u8);
    v.push(102u8);
    v.push(115u8);
    proof {
        assert(v@ =~= tmpfs_name());
    }
    v
}

/// Builds the name of the process-information filesystem.
pub fn name_procfs() -> (r: Vec<u8>)
    ensures
        r@ == procfs_name(),
{
    let mut v: Vec<u8> = Vec::new();
    v.push(112u8);
    v.push(114u8);
    v.push(111u8);
    v.push(99u8);
    v.push(102u8);
    v.push(115u8);
    proof {
        assert(v@ =~= procfs_name());
    }
    v
}

/// Builds the name of the on-disk filesystem.
pub fn name_ext2() -> (r: Vec<u8>)
    ensures
        r@ == ext2_name(),
{
    let mut v: Vec<u8> = Vec::new();
    v.push(101u8);
    v.push(120u8);
    v.push(116u8);
    v.push(50u8);
    proof {
        assert(v@ =~= ext2_name());
    }
    v
}

/// The contract every storage backend implements: the operations the core
/// calls to look nodes up, materialize files, create, link, flush, remove
/// and move bytes. Every operation takes the backend's I/O channel
/// explicitly; a backend holds no channel of its own.
pub trait Filesystem: Sized {
    /// What the backend asks of its own state; every operation keeps it.
    spec fn inv(&self) -> bool;

    /// Returns the name of the filesystem.
    fn get_name(&self) -> (r: Vec<u8>);

    /// Tells whether the filesystem is mounted read-only.
    fn is_readonly(&self) -> (r: bool);

    /// Tells the kernel whether it must cache files.
    fn must_cache(&self) -> (r: bool);

    /// Returns statistics about the filesystem; the filesystem id is
    /// reserved and always zero.
    fn get_stat(&self, io: &mut Channel) -> (r: Result<Statfs, Errno>)
        requires
            self.inv(),
        ensures
            r is Ok ==> (r->Ok_0).f_fsid == 0,
    ;

    /// Returns the node of the filesystem's root.
    fn get_root_inode(&self, io: &mut Channel) -> (r: Result<INode, Errno>)
        requires
            self.inv(),
    ;

    /// Looks up the node bound to `name` under `parent`, the root when
    /// `parent` is absent; fails when the parent is not a directory.
    fn get_inode(&mut self, io: &mut Channel, parent: Option<INode>, name: &[u8]) -> (r: Result<
        INode,
        Errno,
    >)
        requires
            old(self).inv(),
        ensures
            final(self).inv(),
    ;

    /// Materializes the file entity of an existing node under `name`.
    fn load_file(&mut self, io: &mut Channel, inode: INode, name: Vec<u8>) -> (r: Result<
        File,
        Errno,
    >)
        requires
            old(self).inv(),
        ensures
            final(self).inv(),
            r is Ok ==> (r->Ok_0).wf(),
    ;

    /// Creates a file under the parent node; the content determines the
    /// new file's kind. Returns the new file.
    fn add_file(
        &mut self,
        io: &mut Channel,
        parent_inode: INode,
        name: Vec<u8>,
        uid: Uid,
        gid: Gid,
        mode: Mode,
        content: FileContent,
    ) -> (r: Result<File, Errno>)
        requires
            old(self).inv(),
            content.wf(),
        ensures
            final(self).inv(),
            r is Ok ==> (r->Ok_0).wf(),
    ;

    /// Adds a hard link; fails as unsupported on a backend without
    /// hard-link support.
    fn add_link(&mut self, io: &mut Channel, parent_inode: INode, name: &[u8], inode: INode) -> (r:
        Result<(), Errno>)
        requires
            old(self).inv(),
        ensures
            final(self).inv(),
    ;

    /// Flushes a file's in-memory metadata changes to the backend's
    /// persistent representation.
    fn update_inode(&mut self, io: &mut Channel, file: &File) -> (r: Result<(), Errno>)
        requires
            old(self).inv(),
        ensures
            final(self).inv(),
    ;

    /// Removes a directory entry and decrements its node's link count;
    /// returns the links left, zero meaning the node was reclaimed.
    fn remove_file(&mut self, io: &mut Channel, parent_inode: INode, name: &[u8]) -> (r: Result<
        u16,
        Errno,
    >)
        requires
            old(self).inv(),
        ensures
            final(self).inv(),
    ;

    /// Reads a byte range of the node into the front of `buf`; returns
    /// the number of bytes transferred, never more than `buf` holds.
    fn read_node(&mut self, io: &mut Channel, inode: INode, off: u64, buf: &mut Vec<u8>) -> (r:
        Result<u64, Errno>)
        requires
            old(self).inv(),
        ensures
            final(self).inv(),
            final(buf)@.len() == old(buf)@.len(),
            r is Ok ==> r->Ok_0 <= old(buf)@.len(),
    ;

    /// Writes a byte range into the node; a size update at the file
    /// entity must follow.
    fn write_node(&mut self, io: &mut Channel, inode: INode, off: u64, buf: &[u8]) -> (r: Result<
        (),
        Errno,
    >)
        requires
            old(self).inv(),
        ensures
            final(self).inv(),
    ;
}

/// A live backend instance of one of the backends this crate ships: the
/// closed set the mount table dispatches over.
#[derive(Debug)]
pub enum FsInstance {
    /// An in-memory temporary filesystem.
    Mem(MemFs),
}

impl FsInstance {
    /// The in-memory backend behind the instance.
    pub open spec fn as_mem(self) -> MemFs {
        match self {
            FsInstance::Mem(m) => m,
        }
    }

    /// The backend's directories bind each name at most once.
    pub open spec fn wf(self) -> bool {
        self.as_mem().wf()
    }

    /// Binds the instance to the mount point holding it.
    pub fn set_mountpoint_id(&mut self, id: u32)
        ensures
            final(self).as_mem() == (MemFs { mountpoint_id: id, ..old(self).as_mem() }),
    {
        match self {
            FsInstance::Mem(m) => m.set_mountpoint_id(id),
        }
    }

    /// Sets the timestamp the backend gives to nodes created or changed
    /// from now on.
    pub fn set_time(&mut self, now: u64)
        ensures
            final(self).as_mem() == (MemFs { now, ..old(self).as_mem() }),
    {
        match self {
            FsInstance::Mem(m) => m.set_time(now),
        }
    }

    /// Tells whether the backend rejects writes.
    pub fn is_readonly(&self) -> (r: bool)
        ensures
            r == self.as_mem().readonly,
    {
        match self {
            FsInstance::Mem(m) => m.is_readonly(),
        }
    }

    /// Returns the node of the backend's root.
    pub fn get_root_inode(&self, _io: &mut Channel) -> (r: Result<INode, Errno>)
        ensures
            *final(_io) == *old(_io),
            r == Ok::<INode, Errno>(1u64),
    {
        match self {
            FsInstance::Mem(m) => m.get_root_inode(),
        }
    }

    /// Looks up the node bound to `name` under `parent`, the root when
    /// `parent` is absent.
    pub fn get_inode(&self, _io: &mut Channel, parent: Option<INode>, name: &[u8]) -> (r: Result<
        INode,
        Errno,
    >)
        requires
            self.wf(),
        ensures
            *final(_io) == *old(_io),
            r == self.as_mem().spec_get_inode(parent, name@),
    {
        match self {
            FsInstance::Mem(m) => m.get_inode(parent, name),
        }
    }

    /// Materializes the file entity of the node `inode` under `name`.
    pub fn load_file(&self, _io: &mut Channel, inode: INode, name: Vec<u8>) -> (r: Result<
        File,
        Errno,
    >)
        requires
            self.wf(),
        ensures
            *final(_io) == *old(_io),
            self.as_mem().load_file_post(inode, name@, r),
    {
        match self {
            FsInstance::Mem(m) => m.load_file(inode, name),
        }
    }

    /// Creates a file under the parent node; the content determines the
    /// new file's kind.
    pub fn add_file(
        &mut self,
        _io: &mut Channel,
        parent_inode: INode,
        name: Vec<u8>,
        uid: Uid,
        gid: Gid,
        mode: Mode,
        content: FileContent,
    ) -> (r: Result<File, Errno>)
        requires
            old(self).wf(),
            content.wf(),
        ensures
            *final(_io) == *old(_io),
            final(self).wf(),
            MemFs::add_file_post(
                old(self).as_mem(),
                final(self).as_mem(),
                parent_inode,
                name@,
                uid,
                gid,
                mode,
                content@,
                r,
            ),
    {
        match self {
            FsInstance::Mem(m) => m.add_file(parent_inode, name, uid, gid, mode, content),
        }
    }

    /// Adds a hard link named `name` under the parent node to `inode`.
    pub fn add_link(&mut self, _io: &mut Channel, parent_inode: INode, name: &[u8], inode: INode) -> (r:
        Result<(), Errno>)
        requires
            old(self).wf(),
        ensures
            *final(_io) == *old(_io),
            final(self).wf(),
            MemFs::add_link_post(
                old(self).as_mem(),
                final(self).as_mem(),
                parent_inode,
                name@,
                inode,
                r,
            ),
    {
        match self {
            FsInstance::Mem(m) => m.add_link(parent_inode, name, inode),
        }
    }

    /// Flushes a file's in-memory metadata changes to its node.
    pub fn update_inode(&mut self, _io: &mut Channel, file: &File) -> (r: Result<(), Errno>)
        requires
            old(self).wf(),
        ensures
            *final(_io) == *old(_io),
            final(self).wf(),
            MemFs::update_inode_post(old(self).as_mem(), final(self).as_mem(), file@, r),
    {
        match self {
            FsInstance::Mem(m) => m.update_inode(file),
        }
    }

    /// Removes a directory entry and decrements its node's link count;
    /// returns the links left.
    pub fn remove_file(&mut self, _io: &mut Channel, parent_inode: INode, name: &[u8]) -> (r:
        Result<u16, Errno>)
        requires
            old(self).wf(),
        ensures
            *final(_io) == *old(_io),
            final(self).wf(),
            MemFs::remove_file_post(
                old(self).as_mem(),
                final(self).as_mem(),
                parent_inode,
                name@,
                r,
            ),
    {
        match self {
            FsInstance::Mem(m) => m.remove_file(parent_inode, name),
        }
    }

    /// Reads a byte range of the node into the front of `buf`.
    pub fn read_node(&self, _io: &mut Channel, inode: INode, off: u64, buf: &mut Vec<u8>) -> (r:
        Result<u64, Errno>)
        ensures
            *final(_io) == *old(_io),
            self.as_mem().spec_node(inode) is None ==> r == Err::<u64, Errno>(Errno::NotFound)
                && final(buf)@ == old(buf)@,
            self.as_mem().spec_node(inode) is Some ==> ({
                let data = self.as_mem().spec_node(inode)->0.data@;
                let n = crate::channel::spec_read_count(data, off as int, old(buf)@.len() as int);
                &&& n <= usize::MAX
                &&& r == Ok::<u64, Errno>(n as u64)
                &&& final(buf)@ == crate::channel::spec_read_data(
                    data,
                    off as int,
                    old(buf)@.len() as int,
                ) + old(buf)@.subrange(n as int, old(buf)@.len() as int)
            }),
    {
        match self {
            FsInstance::Mem(m) => m.read_node(inode, off, buf),
        }
    }

    /// Writes a byte range into the node; a size update at the file
    /// entity must follow.
    pub fn write_node(&mut self, _io: &mut Channel, inode: INode, off: u64, buf: &[u8]) -> (r:
        Result<(), Errno>)
        requires
            old(self).wf(),
        ensures
            *final(_io) == *old(_io),
            final(self).wf(),
            MemFs::write_node_post(
                old(self).as_mem(),
                final(self).as_mem(),
                inode,
                off,
                buf@,
                r,
            ),
    {
        match self {
            FsInstance::Mem(m) => m.write_node(inode, off, buf),
        }
    }
}

/// Whether a channel's leading bytes carry the on-disk filesystem's
/// superblock signature: its magic, little-endian at the magic's offset
/// inside the superblock.
pub open spec fn spec_ext2_detects(chan: Seq<u8>) -> bool {
    chan.len() >= 1082 && chan[1080] == 0x53u8 && chan[1081] == 0xEFu8
}

/// The contract every backend type implements: its name, the probe that
/// recognizes the backend's format on a channel, and the constructor that
/// mounts a live backend instance.
pub trait FilesystemType: Sized {
    /// The backend type's name.
    spec fn spec_name(&self) -> Seq<u8>;

    /// Whether the probe recognizes the format on the given bytes.
    spec fn spec_detects(&self, chan: Seq<u8>) -> bool;

    /// Returns the name of the backend type.
    fn get_name(&self) -> (r: Vec<u8>)
        ensures
            r@ == self.spec_name(),
    ;

    /// Probes the channel's leading bytes for the backend's format.
    fn detect(&self, io: &Channel) -> (r: Result<bool, Errno>)
        ensures
            r == Ok::<bool, Errno>(self.spec_detects(io.data@)),
    ;

    /// Constructs a live backend instance to mount at `mountpath`.
    fn load_filesystem(&self, io: &Channel, mountpath: Path, readonly: bool) -> (r: Result<
        FsInstance,
        Errno,
    >)
        ensures
            r is Ok ==> (r->Ok_0).wf(),
    ;
}

/// The backend types this crate ships: the closed set the registry
/// stores.
#[derive(Copy, Clone, Debug, PartialEq, Eq, Structural)]
pub enum FsTypeHandle {
    /// The on-disk filesystem: detectable by its superblock magic; its
    /// driver lives outside this core, which carries its directory-entry
    /// codec.
    Ext2,
    /// The in-memory temporary filesystem: mountable, never detected on a
    /// channel, since it leaves no on-disk signature.
    Tmpfs,
    /// The process-information filesystem: its contents come from the
    /// process subsystem outside this core.
    Procfs,
}

impl FilesystemType for FsTypeHandle {
    open spec fn spec_name(&self) -> Seq<u8> {
        match *self {
            FsTypeHandle::Ext2 => ext2_name(),
            FsTypeHandle::Tmpfs => tmpfs_name(),
            FsTypeHandle::Procfs => procfs_name(),
        }
    }

    open spec fn spec_detects(&self, chan: Seq<u8>) -> bool {
        match *self {
            FsTypeHandle::Ext2 => spec_ext2_detects(chan),
            FsTypeHandle::Tmpfs => false,
            FsTypeHandle::Procfs => false,
        }
    }

    fn get_name(&self) -> (r: Vec<u8>) {
        match self {
            FsTypeHandle::Ext2 => name_ext2(),
            FsTypeHandle::Tmpfs => name_tmpfs(),
            FsTypeHandle::Procfs => name_procfs(),
        }
    }

    fn detect(&self, io: &Channel) -> (r: Result<bool, Errno>) {
        match self {
            FsTypeHandle::Ext2 => {
                if io.data.len() >= 1082 {
                    Ok(io.data[1080] == 0x53 && io.data[1081] == 0xEF)
                } else {
                    Ok(false)
                }
            },
            FsTypeHandle::Tmpfs => Ok(false),
            FsTypeHandle::Procfs => Ok(false),
        }
    }

    /// Mounting constructs the in-memory backend; the on-disk and
    /// process-information drivers live outside this core, so their types
    /// report the operation unavailable.
    fn load_filesystem(&self, io: &Channel, mountpath: Path, readonly: bool) -> (r: Result<
        FsInstance,
        Errno,
    >) {
        match self {
            FsTypeHandle::Ext2 => Err(Errno::NotSupported),
            FsTypeHandle::Tmpfs => Ok(FsInstance::Mem(MemFs::new(readonly))),
            FsTypeHandle::Procfs => Err(Errno::NotSupported),
        }
    }
}

/// What mounting through a backend type yields: the in-memory backend for
/// the temporary filesystem's type, and an unavailable operation for the
/// types whose drivers live outside this core.
pub open spec fn spec_load_filesystem(t: FsTypeHandle, readonly: bool, r: Result<
    FsInstance,
    Errno,
>) -> bool {
    match t {
        FsTypeHandle::Tmpfs => r is Ok && (r->Ok_0).wf() && (r->Ok_0).as_mem() == (MemFs {
            readonly,
            ..(r->Ok_0).as_mem()
        }) && (r->Ok_0).as_mem().nodes@.len() == 1 && (r->Ok_0).as_mem().spec_node(1) is Some && (
        r->Ok_0).as_mem().spec_node(1)->0.content@ == ContentView::Directory(
            Map::<Seq<u8>, DirEntry>::empty(),
        ) && (r->Ok_0).as_mem().mountpoint_id == 0,
        _ => r == Err::<FsInstance, Errno>(Errno::NotSupported),
    }
}

impl FsTypeHandle {
    /// Constructs a live backend instance to mount; only the in-memory
    /// backend can be constructed inside this core.
    pub fn load_filesystem_exact(&self, readonly: bool) -> (r: Result<FsInstance, Errno>)
        ensures
            spec_load_filesystem(*self, readonly, r),
    {
        match self {
            FsTypeHandle::Ext2 => Err(Errno::NotSupported),
            FsTypeHandle::Tmpfs => Ok(FsInstance::Mem(MemFs::new(readonly))),
            FsTypeHandle::Procfs => Err(Errno::NotSupported),
        }
    }
}

/// The process-wide registry of backend types, keyed by name.
#[derive(Debug)]
pub struct FsRegistry {
    /// The registered types, each name at most once, in registration
    /// order.
    pub types: Vec<FsTypeHandle>,
}

impl FsRegistry {
    /// No two registered types share a name.
    pub open spec fn wf(self) -> bool {
        forall|i: int, j: int|
            0 <= i < j < self.types@.len() ==> self.types@[i].spec_name()
                != self.types@[j].spec_name()
    }

    /// Whether some registered type carries the name.
    pub open spec fn spec_has(self, name: Seq<u8>) -> bool {
        exists|i: int| 0 <= i < self.types@.len() && self.types@[i].spec_name() == name
    }

    /// Creates an empty registry.
    pub fn new() -> (r: Self)
        ensures
            r.wf(),
            r.types@.len() == 0,
    {
        FsRegistry { types: Vec::new() }
    }

    /// Registers a backend type; fails when its name is already taken.
    pub fn register(&mut self, fs_type: FsTypeHandle) -> (r: Result<(), Errno>)
        requires
            old(self).wf(),
        ensures
            final(self).wf(),
            r is Ok <==> !old(self).spec_has(fs_type.spec_name()),
            r is Ok ==> final(self).types@ == old(self).types@.push(fs_type),
            r is Err ==> r == Err::<(), Errno>(Errno::AlreadyExists) && final(self).types@ == old(
                self,
            ).types@,
    {
        let name = fs_type.get_name();
        let mut i: usize = 0;
        while i < self.types.len()
            invariant
                old(self).wf(),
                name@ == fs_type.spec_name(),
                self.types@ == old(self).types@,
                i <= self.types@.len(),
                forall|k: int| 0 <= k < i ==> self.types@[k].spec_name() != name@,
            decreases self.types@.len() - i,
        {
            let other = self.types[i].get_name();
            if crate::file::bytes_eq(other.as_slice(), name.as_slice()) {
                return Err(Errno::AlreadyExists);
            }
            i += 1;
        }
        self.types.push(fs_type);
        Ok(())
    }

    /// Unregisters the backend type with the given name; does nothing
    /// when no type carries it.
    pub fn unregister(&mut self, name: &[u8])
        requires
            old(self).wf(),
        ensures
            final(self).wf(),
            !final(self).spec_has(name@),
            !old(self).spec_has(name@) ==> final(self).types@ == old(self).types@,
            old(self).spec_has(name@) ==> exists|i: int|
                0 <= i < old(self).types@.len() && old(self).types@[i].spec_name() == name@
                    && final(self).types@ == old(self).types@.remove(i),
    {
        let mut i: usize = 0;
        while i < self.types.len()
            invariant
                old(self).wf(),
                self.types@ == old(self).types@,
                i <= self.types@.len(),
                forall|k: int| 0 <= k < i ==> self.types@[k].spec_name() != name@,
            decreases self.types@.len() - i,
        {
            let other = self.types[i].get_name();
            if crate::file::bytes_eq(other.as_slice(), name) {
                self.types.remove(i);
                proof {
                    assert forall|a: int, b: int|
                        0 <= a < b < self.types@.len() implies self.types@[a].spec_name()
                        != self.types@[b].spec_name() by {
                        let oa = if a < i {
                            a
                        } else {
                            a + 1
                        };
                        let ob = if b < i {
                            b
                        } else {
                            b + 1
                        };
                        assert(self.types@[a] == old(self).types@[oa]);
                        assert(self.types@[b] == old(self).types@[ob]);
                    }
                    assert forall|k: int|
                        0 <= k < self.types@.len() implies self.types@[k].spec_name() != name@ by {
                        let ok = if k < i {
                            k
                        } else {
                            k + 1
                        };
                        assert(self.types@[k] == old(self).types@[ok]);
                    }
                }
                return ;
            }
            i += 1;
        }
    }

    /// Returns the backend type with the given name, if one is
    /// registered.
    pub fn get_type(&self, name: &[u8]) -> (r: Option<FsTypeHandle>)
        requires
            self.wf(),
        ensures
            r is Some <==> self.spec_has(name@),
            r is Some ==> (r->0).spec_name() == name@ && (exists|i: int|
                0 <= i < self.types@.len() && self.types@[i] == r->0),
    {
        let mut i: usize = 0;
        while i < self.types.len()
            invariant
                self.wf(),
                i <= self.types@.len(),
                forall|k: int| 0 <= k < i ==> self.types@[k].spec_name() != name@,
            decreases self.types@.len() - i,
        {
            let other = self.types[i].get_name();
            if crate::file::bytes_eq(other.as_slice(), name) {
                return Some(self.types[i]);
            }
            i += 1;
        }
        None
    }

    /// Probes the channel against every registered type, in registration
    /// order, and returns the first whose probe recognizes its format;
    /// fails with a no-such-device error when none does.
    pub fn detect(&self, io: &Channel) -> (r: Result<FsTypeHandle, Errno>)
        ensures
            r is Err <==> (r == Err::<FsTypeHandle, Errno>(Errno::NoSuchDevice) && forall|k: int|
                0 <= k < self.types@.len() ==> !(#[trigger] self.types@[k]).spec_detects(io.data@)),
            r is Ok ==> exists|i: int|
                {
                    &&& 0 <= i < self.types@.len()
                    &&& (#[trigger] self.types@[i]).spec_detects(io.data@)
                    &&& r->Ok_0 == self.types@[i]
                    &&& forall|k: int| 0 <= k < i ==> !self.types@[k].spec_detects(io.data@)
                },
    {
        let mut i: usize = 0;
        while i < self.types.len()
            invariant
                i <= self.types@.len(),
                forall|k: int| 0 <= k < i ==> !(#[trigger] self.types@[k]).spec_detects(io.data@),
            decreases self.types@.len() - i,
        {
            let found = match self.types[i].detect(io) {
                Ok(b) => b,
                Err(e) => {
                    return Err(e);
                },
            };
            if found {
                return Ok(self.types[i]);
            }
            i += 1;
        }
        Err(Errno::NoSuchDevice)
    }

    /// Registers the backend types this crate ships. Called once, at
    /// initialization, on the empty registry.
    pub fn register_defaults(&mut self) -> (r: Result<(), Errno>)
        requires
            old(self).wf(),
            old(self).types@.len() == 0,
        ensures
            final(self).wf(),
            r is Ok,
            final(self).types@ == seq![FsTypeHandle::Ext2, FsTypeHandle::Tmpfs, FsTypeHandle::Procfs],
    {
        let r1 = self.register(FsTypeHandle::Ext2);
        proof {
            assert(r1 is Ok);
        }
        let r2 = self.register(FsTypeHandle::Tmpfs);
        proof {
            assert(r2 is Ok);
        }
        let r3 = self.register(FsTypeHandle::Procfs);
        proof {
            assert(r3 is Ok);
            assert(self.types@ =~= seq![
                FsTypeHandle::Ext2,
                FsTypeHandle::Tmpfs,
                FsTypeHandle::Procfs,
            ]);
        }
        Ok(())
    }
}

} // verus!
