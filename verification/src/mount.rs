//! Mount points: bindings of live backend instances to paths, and the
//! table that makes them reachable.
//!
//! The table is the single source of truth for turning a file's location
//! into an active backend instance; it never hands out a backend without
//! the byte-oriented channel backing it, since backend operations need
//! both.

use vstd::prelude::*;

use crate::channel::{Channel, DeviceType};
use crate::errno::Errno;
use crate::file::{File, FileContent, INode, Mode};
use crate::fs::{FilesystemType, FsInstance, FsRegistry, FsTypeHandle, Statfs};
use crate::memfs::MemFs;
use crate::path::Path;
use crate::perm::{Gid, Uid};

verus! {

/// Mount flag: the mount rejects writes.
pub const MOUNT_FLAG_RDONLY: u32 = 1;

/// What a mount draws its bytes from.
#[derive(Debug)]
pub enum MountSource {
    /// A device, found in the device subsystem by kind and numbers.
    Device {
        /// The device's kind.
        dev_type: DeviceType,
        /// The device's major number.
        major: u32,
        /// The device's minor number.
        minor: u32,
    },
    /// No device: a name tag selecting the backend type directly, such as
    /// the in-memory temporary filesystem's.
    NoDev(Vec<u8>),
}

/// One binding of a backend instance to a path in the global namespace.
#[derive(Debug)]
pub struct MountPoint {
    /// The mount's id.
    pub id: u32,
    /// What the mount draws its bytes from.
    pub source: MountSource,
    /// The live backend instance.
    pub fs: FsInstance,
    /// The mount's flags, the read-only bit among them.
    pub flags: u32,
    /// The path the mount is reachable under.
    pub path: Path,
    /// The byte-oriented channel backing the backend.
    pub channel: Channel,
}

impl MountPoint {
    /// The backend knows the mount it is mounted under, and its
    /// directories bind each name at most once.
    pub open spec fn wf(self) -> bool {
        &&& self.fs.wf()
        &&& self.fs.as_mem().mountpoint_id == self.id
    }

    /// Looks up the node bound to `name` under `parent`, the root when
    /// `parent` is absent.
    pub fn get_inode(&mut self, parent: Option<INode>, name: &[u8]) -> (r: Result<INode, Errno>)
        requires
            old(self).wf(),
        ensures
            *final(self) == *old(self),
            r == old(self).fs.as_mem().spec_get_inode(parent, name@),
    {
        self.fs.get_inode(&mut self.channel, parent, name)
    }

    /// Materializes the file entity of the node `inode` under `name`.
    pub fn load_file(&mut self, inode: INode, name: Vec<u8>) -> (r: Result<File, Errno>)
        requires
            old(self).wf(),
        ensures
            *final(self) == *old(self),
            old(self).fs.as_mem().load_file_post(inode, name@, r),
    {
        self.fs.load_file(&mut self.channel, inode, name)
    }

    /// Creates a file under the parent node on the mount's backend.
    pub fn add_file(
        &mut self,
        parent_inode: INode,
        name: Vec<u8>,
        uid: Uid,
        gid: Gid,
        mode: Mode,
        content: FileContent,
    ) -> (r: Result<File, Errno>)
        requires
            old(self).wf(),
            content.wf(),
        ensures
            final(self).wf(),
            final(self).id == old(self).id,
            final(self).flags == old(self).flags,
            final(self).path == old(self).path,
            final(self).source == old(self).source,
            MemFs::add_file_post(
                old(self).fs.as_mem(),
                final(self).fs.as_mem(),
                parent_inode,
                name@,
                uid,
                gid,
                mode,
                content@,
                r,
            ),
    {
        self.fs.add_file(&mut self.channel, parent_inode, name, uid, gid, mode, content)
    }

    /// Adds a hard link on the mount's backend.
    pub fn add_link(&mut self, parent_inode: INode, name: &[u8], inode: INode) -> (r: Result<
        (),
        Errno,
    >)
        requires
            old(self).wf(),
        ensures
            final(self).wf(),
            final(self).id == old(self).id,
            MemFs::add_link_post(
                old(self).fs.as_mem(),
                final(self).fs.as_mem(),
                parent_inode,
                name@,
                inode,
                r,
            ),
    {
        self.fs.add_link(&mut self.channel, parent_inode, name, inode)
    }

    /// Flushes a file's metadata to the mount's backend.
    pub fn update_inode(&mut self, file: &File) -> (r: Result<(), Errno>)
        requires
            old(self).wf(),
        ensures
            final(self).wf(),
            final(self).id == old(self).id,
            MemFs::update_inode_post(old(self).fs.as_mem(), final(self).fs.as_mem(), file@, r),
    {
        self.fs.update_inode(&mut self.channel, file)
    }

    /// Removes a directory entry on the mount's backend; returns the
    /// links left on the node.
    pub fn remove_file(&mut self, parent_inode: INode, name: &[u8]) -> (r: Result<u16, Errno>)
        requires
            old(self).wf(),
        ensures
            final(self).wf(),
            final(self).id == old(self).id,
            MemFs::remove_file_post(
                old(self).fs.as_mem(),
                final(self).fs.as_mem(),
                parent_inode,
                name@,
                r,
            ),
    {
        self.fs.remove_file(&mut self.channel, parent_inode, name)
    }

    /// Reads a byte range of the node into the front of `buf`.
    pub fn read_node(&mut self, inode: INode, off: u64, buf: &mut Vec<u8>) -> (r: Result<
        u64,
        Errno,
    >)
        requires
            old(self).wf(),
        ensures
            *final(self) == *old(self),
            old(self).fs.as_mem().spec_node(inode) is None ==> r == Err::<u64, Errno>(
                Errno::NotFound,
            ) && final(buf)@ == old(buf)@,
            old(self).fs.as_mem().spec_node(inode) is Some ==> ({
                let data = old(self).fs.as_mem().spec_node(inode)->0.data@;
                let n = crate::channel::spec_read_count(data, off as int, old(buf)@.len() as int);
                &&& n <= usize::MAX
                &&& r == Ok::<u64, Errno>(n as u64)
                &&& final(buf)@ == crate::channel::spec_read_data(
                    data,
                    off as int,
                    old(buf)@.len() as int,
                ) + old(buf)@.subrange(n as int, old(buf)@.len() as int)
            }),
    {
        self.fs.read_node(&mut self.channel, inode, off, buf)
    }

    /// Writes a byte range into the node on the mount's backend.
    pub fn write_node(&mut self, inode: INode, off: u64, buf: &[u8]) -> (r: Result<(), Errno>)
        requires
            old(self).wf(),
        ensures
            final(self).wf(),
            final(self).id == old(self).id,
            MemFs::write_node_post(
                old(self).fs.as_mem(),
                final(self).fs.as_mem(),
                inode,
                off,
                buf@,
                r,
            ),
    {
        self.fs.write_node(&mut self.channel, inode, off, buf)
    }

    /// Returns statistics about the mount's backend.
    pub fn get_stat(&mut self) -> (r: Result<Statfs, Errno>)
        requires
            old(self).wf(),
        ensures
            *final(self) == *old(self),
            r is Ok,
            (r->Ok_0).f_fsid == 0,
    {
        match &self.fs {
            FsInstance::Mem(m) => m.get_stat(),
        }
    }
}

/// The table of every active mount, the single source of truth for
/// translating a location into its backend and channel.
#[derive(Debug)]
pub struct MountTable {
    /// The active mounts.
    pub mounts: Vec<MountPoint>,
    /// The id the next mount will take.
    pub next_id: u32,
}

impl MountTable {
    /// Every mount is well-formed, ids are unique, and no id reaches the
    /// next free one.
    pub open spec fn wf(self) -> bool {
        &&& forall|i: int| 0 <= i < self.mounts@.len() ==> (#[trigger] self.mounts@[i]).wf()
        &&& forall|i: int, j: int|
            0 <= i < j < self.mounts@.len() ==> self.mounts@[i].id != self.mounts@[j].id
        &&& forall|i: int|
            0 <= i < self.mounts@.len() ==> (#[trigger] self.mounts@[i]).id < self.next_id
    }

    /// Whether some mount carries the id.
    pub open spec fn spec_has(self, id: u32) -> bool {
        exists|i: int| 0 <= i < self.mounts@.len() && self.mounts@[i].id == id
    }

    /// The index of the mount carrying the id.
    pub open spec fn spec_index_of(self, id: u32) -> int {
        choose|i: int| 0 <= i < self.mounts@.len() && self.mounts@[i].id == id
    }

    /// Creates an empty table.
    pub fn new() -> (r: Self)
        ensures
            r.wf(),
            r.mounts@.len() == 0,
            r.next_id == 0u32,
    {
        MountTable { mounts: Vec::new(), next_id: 0 }
    }

    /// Tells whether the table holds no mount.
    pub fn is_empty(&self) -> (r: bool)
        ensures
            r == (self.mounts@.len() == 0),
    {
        self.mounts.len() == 0
    }

    /// Returns the index of the mount carrying `id`, if one is active.
    pub fn from_id(&self, id: u32) -> (r: Option<usize>)
        requires
            self.wf(),
        ensures
            r is Some <==> self.spec_has(id),
            r is Some ==> r->0 == self.spec_index_of(id) && r->0 < self.mounts@.len()
                && self.mounts@[r->0 as int].id == id,
    {
        let mut i: usize = 0;
        while i < self.mounts.len()
            invariant
                self.wf(),
                i <= self.mounts@.len(),
                forall|k: int| 0 <= k < i ==> self.mounts@[k].id != id,
            decreases self.mounts@.len() - i,
        {
            if self.mounts[i].id == id {
                proof {
                    assert(self.spec_has(id));
                    let j = self.spec_index_of(id);
                    assert(self.mounts@[j].id == id);
                    assert(j == i);
                }
                return Some(i);
            }
            i += 1;
        }
        None
    }

    /// Creates a mount point from a source, an optional parent mount, the
    /// mount flags and a target path, assigning the next id. A device
    /// source is probed against the registered backend types; a
    /// name-tagged source selects its backend type by name. Fails with a
    /// no-such-device error when no backend type matches, and as
    /// unsupported when the matching type's driver lives outside this
    /// core.
    pub fn create_mount(
        &mut self,
        registry: &FsRegistry,
        source: MountSource,
        _parent: Option<u32>,
        flags: u32,
        path: Path,
        channel: Channel,
    ) -> (r: Result<u32, Errno>)
        requires
            old(self).wf(),
            registry.wf(),
            old(self).next_id < u32::MAX,
        ensures
            final(self).wf(),
            r is Err ==> final(self).mounts@ == old(self).mounts@ && final(self).next_id == old(
                self,
            ).next_id,
            source is NoDev ==> ({
                let n = source->NoDev_0@;
                &&& (!registry.spec_has(n) ==> r == Err::<u32, Errno>(Errno::NoSuchDevice))
                &&& (registry.spec_has(n) && n == crate::fs::tmpfs_name() ==> r is Ok)
                &&& (registry.spec_has(n) && n != crate::fs::tmpfs_name() ==> r is Err)
            }),
            source is Device ==> ((forall|k: int|
                0 <= k < registry.types@.len() ==> !(#[trigger] registry.types@[k]).spec_detects(
                    channel.data@,
                )) ==> r == Err::<u32, Errno>(Errno::NoSuchDevice)),
            source is Device ==> (forall|i: int|
                (0 <= i < registry.types@.len() && (#[trigger] registry.types@[i]).spec_detects(
                    channel.data@,
                ) && (forall|k: int|
                    0 <= k < i ==> !(#[trigger] registry.types@[k]).spec_detects(channel.data@)))
                    ==> (if registry.types@[i] == FsTypeHandle::Tmpfs {
                    r is Ok
                } else {
                    r == Err::<u32, Errno>(Errno::NotSupported)
                })),
            r is Ok ==> ({
                let mp = final(self).mounts@.last();
                &&& final(self).mounts@.len() == old(self).mounts@.len() + 1
                &&& final(self).mounts@.subrange(0, old(self).mounts@.len() as int) == old(
                    self,
                ).mounts@
                &&& final(self).next_id == old(self).next_id + 1
                &&& r->Ok_0 == old(self).next_id
                &&& mp.id == old(self).next_id
                &&& mp.flags == flags
                &&& mp.path == path
                &&& mp.channel == channel
                &&& mp.fs.wf()
                &&& mp.fs.as_mem().mountpoint_id == mp.id
                &&& mp.fs.as_mem().readonly == (flags & MOUNT_FLAG_RDONLY != 0)
                &&& mp.fs.as_mem().nodes@.len() == 1
                &&& mp.fs.as_mem().spec_node(1) is Some
            }),
    {
        let readonly = flags & MOUNT_FLAG_RDONLY != 0;
        let fs_type: FsTypeHandle = match &source {
            MountSource::NoDev(name) => match registry.get_type(name.as_slice()) {
                Some(t) => t,
                None => {
                    return Err(Errno::NoSuchDevice);
                },
            },
            MountSource::Device { .. } => match registry.detect(&channel) {
                Ok(t) => t,
                Err(e) => {
                    return Err(e);
                },
            },
        };
        proof {
            if source is NoDev && source->NoDev_0@ == crate::fs::tmpfs_name() {
                assert(crate::fs::ext2_name().len() == 4);
                assert(crate::fs::tmpfs_name().len() == 5);
                assert(crate::fs::procfs_name().len() == 6);
                assert(fs_type == FsTypeHandle::Tmpfs);
            }
            if source is Device {
                assert forall|i: int|
                    (0 <= i < registry.types@.len()
                        && (#[trigger] registry.types@[i]).spec_detects(channel.data@) && (forall|
                        k: int,
                    |
                        0 <= k < i ==> !(#[trigger] registry.types@[k]).spec_detects(
                            channel.data@,
                        ))) implies registry.types@[i] == fs_type by {
                    let i0 = choose|i0: int|
                        {
                            &&& 0 <= i0 < registry.types@.len()
                            &&& (#[trigger] registry.types@[i0]).spec_detects(channel.data@)
                            &&& fs_type == registry.types@[i0]
                            &&& forall|k: int|
                                0 <= k < i0 ==> !registry.types@[k].spec_detects(channel.data@)
                        };
                    assert(!(i < i0) && !(i0 < i));
                }
            }
        }
        let mut fs = match fs_type.load_filesystem_exact(readonly) {
            Ok(fs) => fs,
            Err(e) => {
                return Err(e);
            },
        };
        let id = self.next_id;
        fs.set_mountpoint_id(id);
        let mp = MountPoint { id, source, fs, flags, path, channel };
        self.mounts.push(mp);
        self.next_id = id + 1;
        proof {
            assert(final(self).mounts@.subrange(0, old(self).mounts@.len() as int) =~= old(
                self,
            ).mounts@);
            assert forall|i: int| 0 <= i < self.mounts@.len() implies (
            #[trigger] self.mounts@[i]).wf() by {
                if i < self.mounts@.len() - 1 {
                    assert(self.mounts@[i] == old(self).mounts@[i]);
                }
            }
        }
        Ok(id)
    }
}

} // verus!
