//! The virtual filesystem layer: the context that ties the backend-type
//! registry, the mount table and the non-persistent channels together,
//! and the byte I/O of file entities, dispatched by content kind.

use vstd::prelude::*;

use crate::channel::{
    spec_read_count, spec_read_data, spec_write, Channel, ChannelKey, ChannelTable, DeviceID,
    DeviceType,
};
use crate::errno::Errno;
use crate::file::{ContentView, File, FileLocation, FileView, INode};
use crate::fs::FsRegistry;
use crate::memfs::MemFs;
use crate::mount::{MountSource, MountTable};
use crate::path::Path;

verus! {

/// The filesystem layer's state: the registered backend types, the active
/// mounts, and the non-persistent channels serving pipes, sockets and
/// devices.
#[derive(Debug)]
pub struct Vfs {
    /// The registered backend types.
    pub fs_types: FsRegistry,
    /// The active mounts.
    pub mounts: MountTable,
    /// The pipe, socket and device channels, keyed by what they serve.
    pub channels: ChannelTable,
}

/// The two states hold the same registered types, the same mounts under
/// the same next id, and the same channels.
pub open spec fn vfs_state_eq(a: Vfs, b: Vfs) -> bool {
    &&& a.fs_types.types@ == b.fs_types.types@
    &&& a.mounts.next_id == b.mounts.next_id
    &&& a.mounts.mounts@ == b.mounts.mounts@
    &&& a.channels.entries@ == b.channels.entries@
}

impl Vfs {
    /// Every component keeps its own well-formedness.
    pub open spec fn wf(self) -> bool {
        &&& self.fs_types.wf()
        &&& self.mounts.wf()
        &&& self.channels.wf()
    }

    /// The backend of the mount carrying `id`.
    pub open spec fn spec_mount_fs(self, id: u32) -> MemFs {
        self.mounts.mounts@[self.mounts.spec_index_of(id)].fs.as_mem()
    }
}

/// Initializes files management: registers the backend types this crate
/// ships and creates the root mount point. With a root device's major and
/// minor numbers the root is mounted from that block device, whose format
/// would have to be probed; with none, an in-memory temporary filesystem
/// is used.
///
/// No on-disk driver lives inside this core, and at initialization no
/// device has registered a channel yet, so only the in-memory root can be
/// mounted here: a device root fails with a no-such-device error.
pub fn init(root: Option<(u32, u32)>) -> (r: Result<Vfs, Errno>)
    ensures
        root is Some ==> r is Err,
        root is None ==> ({
            &&& r is Ok
            &&& ({
                let v = r->Ok_0;
                &&& v.wf()
                &&& v.fs_types.types@ == seq![
                    crate::fs::FsTypeHandle::Ext2,
                    crate::fs::FsTypeHandle::Tmpfs,
                    crate::fs::FsTypeHandle::Procfs,
                ]
                &&& v.mounts.mounts@.len() == 1
                &&& v.mounts.mounts@[0].id == 0u32
                &&& v.mounts.mounts@[0].path.absolute
                &&& v.mounts.mounts@[0].path.spec_parts() == Seq::<Seq<u8>>::empty()
                &&& v.mounts.mounts@[0].fs.as_mem().nodes@.len() == 1
                &&& v.mounts.mounts@[0].fs.as_mem().spec_node(1) is Some
                &&& v.mounts.mounts@[0].fs.as_mem().readonly == false
                &&& v.mounts.spec_has(0u32)
            })
        }),
{
    let mut fs_types = FsRegistry::new();
    let register_result = fs_types.register_defaults();
    proof {
        assert(register_result is Ok);
    }
    let mut mounts = MountTable::new();
    let source = match root {
        Some((major, minor)) => MountSource::Device { dev_type: DeviceType::Block, major, minor },
        None => MountSource::NoDev(crate::fs::name_tmpfs()),
    };
    let created = mounts.create_mount(
        &fs_types,
        source,
        None,
        0,
        Path::root(),
        Channel::new(),
    );
    match created {
        Ok(id) => {
            proof {
                assert(0u32 & crate::mount::MOUNT_FLAG_RDONLY == 0u32) by (bit_vector);
                assert(mounts.mounts@.len() == 1);
                assert(mounts.mounts@.last() == mounts.mounts@[0]);
                assert(mounts.mounts@[0].id == 0u32);
                assert(mounts.spec_has(0u32));
            }
            Ok(Vfs { fs_types, mounts, channels: ChannelTable::new() })
        },
        Err(e) => Err(e),
    }
}

/// Tells whether files management has been initialized: whether any mount
/// is active.
pub fn is_init(vfs: &Vfs) -> (r: bool)
    ensures
        r == (vfs.mounts.mounts@.len() > 0),
{
    !vfs.mounts.is_empty()
}

impl FileLocation {
    /// Returns the index, in the mount table, of the mount point holding
    /// the file; a virtual location silently has none.
    pub fn get_mountpoint(&self, mounts: &MountTable) -> (r: Option<usize>)
        requires
            mounts.wf(),
        ensures
            r is Some <==> (self is Filesystem && mounts.spec_has(self->Filesystem_mountpoint_id)),
            r is Some ==> r->0 < mounts.mounts@.len() && mounts.mounts@[r->0 as int].id
                == self->Filesystem_mountpoint_id,
    {
        match self.get_mountpoint_id() {
            Some(id) => mounts.from_id(id),
            None => None,
        }
    }
}

/// What reading `buflen` bytes at `off` from a file yields, by the file's
/// content kind: byte-range I/O on a regular file reaches its backend
/// node, or its virtual channel when one exists; a directory is not read
/// this way; neither is a link, whose target path-resolution handles; a
/// pipe or socket reads its buffer, created empty on first access; a
/// device reads the device subsystem's channel. The bytes land at the
/// front of the buffer, and end-of-file is reported when the read reaches
/// the file's size, or the channel's end.
pub open spec fn file_read_post(
    f: File,
    pre: Vfs,
    post: Vfs,
    off: int,
    oldbuf: Seq<u8>,
    newbuf: Seq<u8>,
    r: Result<(u64, bool), Errno>,
) -> bool {
    match f.content@ {
        ContentView::Directory(_) => r == Err::<(u64, bool), Errno>(Errno::IsADirectory) && post
            == pre && newbuf == oldbuf,
        ContentView::Link(_) => r == Err::<(u64, bool), Errno>(Errno::InvalidArgument) && post
            == pre && newbuf == oldbuf,
        ContentView::Regular => match f.location {
            FileLocation::Filesystem { mountpoint_id, inode } => if !pre.mounts.spec_has(
                mountpoint_id,
            ) {
                r == Err::<(u64, bool), Errno>(Errno::IOFault) && vfs_state_eq(pre, post) && newbuf == oldbuf
            } else {
                match pre.spec_mount_fs(mountpoint_id).spec_node(inode) {
                    None => r == Err::<(u64, bool), Errno>(Errno::NotFound) && vfs_state_eq(pre, post) && newbuf
                        == oldbuf,
                    Some(nd) => {
                        let n = spec_read_count(nd.data@, off, oldbuf.len() as int);
                        &&& r == Ok::<(u64, bool), Errno>((n as u64, off + n >= f.size))
                        &&& newbuf == spec_read_data(nd.data@, off, oldbuf.len() as int)
                            + oldbuf.subrange(n, oldbuf.len() as int)
                        &&& vfs_state_eq(pre, post)
                        &&& post.wf()
                    },
                }
            },
            FileLocation::Virtual { .. } => if !pre.channels.spec_contains(
                ChannelKey::Location(f.location),
            ) {
                r == Ok::<(u64, bool), Errno>((0u64, true)) && vfs_state_eq(pre, post) && newbuf == oldbuf
            } else {
                let data = pre.channels.spec_contents(ChannelKey::Location(f.location));
                let n = spec_read_count(data, off, oldbuf.len() as int);
                &&& r == Ok::<(u64, bool), Errno>((n as u64, off + n >= data.len()))
                &&& newbuf == spec_read_data(data, off, oldbuf.len() as int) + oldbuf.subrange(
                    n,
                    oldbuf.len() as int,
                )
                &&& vfs_state_eq(pre, post)
            },
        },
        ContentView::Fifo | ContentView::Socket => {
            let key = ChannelKey::Location(f.location);
            let data = pre.channels.spec_contents(key);
            let n = spec_read_count(data, off, oldbuf.len() as int);
            &&& r == Ok::<(u64, bool), Errno>((n as u64, off + n >= data.len()))
            &&& newbuf == spec_read_data(data, off, oldbuf.len() as int) + oldbuf.subrange(
                n,
                oldbuf.len() as int,
            )
            &&& post.mounts == pre.mounts
            &&& post.fs_types == pre.fs_types
            &&& post.channels.wf()
            &&& (forall|k: ChannelKey|
                post.channels.spec_contents(k) == pre.channels.spec_contents(k))
        },
        ContentView::BlockDevice { major, minor } | ContentView::CharDevice { major, minor } => {
            let key = ChannelKey::Device(
                DeviceID {
                    dev_type: if f.content@ is BlockDevice {
                        DeviceType::Block
                    } else {
                        DeviceType::Char
                    },
                    major,
                    minor,
                },
            );
            if !pre.channels.spec_contains(key) {
                r == Err::<(u64, bool), Errno>(Errno::NoSuchDevice) && vfs_state_eq(pre, post) && newbuf
                    == oldbuf
            } else {
                let data = pre.channels.spec_contents(key);
                let n = spec_read_count(data, off, oldbuf.len() as int);
                &&& r == Ok::<(u64, bool), Errno>((n as u64, off + n >= data.len()))
                &&& newbuf == spec_read_data(data, off, oldbuf.len() as int) + oldbuf.subrange(
                    n,
                    oldbuf.len() as int,
                )
                &&& vfs_state_eq(pre, post)
            }
        },
    }
}

impl File {
    /// Reads at most `buf.len()` bytes of the file at offset `off` into
    /// the front of `buf`, dispatching by the file's content kind.
    /// Returns the number of bytes transferred and whether the end of the
    /// file was reached.
    pub fn read(&mut self, vfs: &mut Vfs, off: u64, buf: &mut Vec<u8>) -> (r: Result<
        (u64, bool),
        Errno,
    >)
        requires
            old(vfs).wf(),
        ensures
            final(vfs).wf(),
            *final(self) == *old(self),
            file_read_post(
                *old(self),
                *old(vfs),
                *final(vfs),
                off as int,
                old(buf)@,
                final(buf)@,
                r,
            ),
    {
        match &self.content {
            crate::file::FileContent::Directory(_) => Err(Errno::IsADirectory),
            crate::file::FileContent::Link(_) => Err(Errno::InvalidArgument),
            crate::file::FileContent::Regular => match &self.location {
                FileLocation::Filesystem { mountpoint_id, inode } => {
                    let idx = match vfs.mounts.from_id(*mountpoint_id) {
                        Some(idx) => idx,
                        None => {
                            return Err(Errno::IOFault);
                        },
                    };
                    let count = match vfs.mounts.mounts[idx].read_node(*inode, off, buf) {
                        Ok(count) => count,
                        Err(e) => {
                            proof {
                                assert(final(vfs).mounts.mounts@ =~= old(vfs).mounts.mounts@);
                            }
                            return Err(e);
                        },
                    };
                    proof {
                        assert(final(vfs).mounts.mounts@ =~= old(vfs).mounts.mounts@);
                    }
                    let eof = if off >= self.size {
                        true
                    } else {
                        self.size - off <= count
                    };
                    Ok((count, eof))
                },
                FileLocation::Virtual { .. } => {
                    let key = ChannelKey::Location(self.location);
                    let idx = match vfs.channels.find(&key) {
                        Some(idx) => idx,
                        None => {
                            return Ok((0, true));
                        },
                    };
                    let r = vfs.channels.entries[idx].1.read(off, buf);
                    Ok(r)
                },
            },
            crate::file::FileContent::Fifo | crate::file::FileContent::Socket => {
                let key = ChannelKey::Location(self.location);
                let r = vfs.channels.read_at(&key, off, buf);
                Ok(r)
            },
            crate::file::FileContent::BlockDevice { major, minor } => {
                let key = ChannelKey::Device(
                    DeviceID { dev_type: DeviceType::Block, major: *major, minor: *minor },
                );
                let idx = match vfs.channels.find(&key) {
                    Some(idx) => idx,
                    None => {
                        return Err(Errno::NoSuchDevice);
                    },
                };
                let r = vfs.channels.entries[idx].1.read(off, buf);
                Ok(r)
            },
            crate::file::FileContent::CharDevice { major, minor } => {
                let key = ChannelKey::Device(
                    DeviceID { dev_type: DeviceType::Char, major: *major, minor: *minor },
                );
                let idx = match vfs.channels.find(&key) {
                    Some(idx) => idx,
                    None => {
                        return Err(Errno::NoSuchDevice);
                    },
                };
                let r = vfs.channels.entries[idx].1.read(off, buf);
                Ok(r)
            },
        }
    }

    /// Writes `buf` into the file at offset `off`, dispatching by the
    /// file's content kind, and grows the file's recorded size to the end
    /// of the write. Returns the number of bytes transferred.
    pub fn write(&mut self, vfs: &mut Vfs, off: u64, buf: &[u8]) -> (r: Result<u64, Errno>)
        requires
            old(vfs).wf(),
            old(self).wf(),
        ensures
            final(vfs).wf(),
            final(self).wf(),
            file_write_post(
                *old(self),
                final(self)@,
                *old(vfs),
                *final(vfs),
                off as int,
                buf@,
                r,
            ),
    {
        match &self.content {
            crate::file::FileContent::Directory(_) => Err(Errno::IsADirectory),
            crate::file::FileContent::Link(_) => Err(Errno::InvalidArgument),
            crate::file::FileContent::Regular => match &self.location {
                FileLocation::Filesystem { mountpoint_id, inode } => {
                    let idx = match vfs.mounts.from_id(*mountpoint_id) {
                        Some(idx) => idx,
                        None => {
                            return Err(Errno::IOFault);
                        },
                    };
                    let inode = *inode;
                    match vfs.mounts.mounts[idx].write_node(inode, off, buf) {
                        Ok(()) => {},
                        Err(e) => {
                            proof {
                                lemma_mounts_wf_after_update(
                                    old(vfs).mounts,
                                    final(vfs).mounts,
                                    idx as int,
                                );
                            }
                            return Err(e);
                        },
                    }
                    proof {
                        lemma_mounts_wf_after_update(old(vfs).mounts, final(vfs).mounts, idx as int);
                    }
                    let len = buf.len() as u64;
                    if off + len > self.size {
                        self.size = off + len;
                    }
                    Ok(len)
                },
                FileLocation::Virtual { .. } => {
                    let key = ChannelKey::Location(self.location);
                    match vfs.channels.find(&key) {
                        Some(idx) => {
                            if off > usize::MAX as u64 - buf.len() as u64 {
                                return Err(Errno::InvalidArgument);
                            }
                            let ghost mid = vfs.channels;
                            let len = vfs.channels.entries[idx].1.write(off, buf);
                            proof {
                                lemma_channels_write_in_place(
                                    mid,
                                    final(vfs).channels,
                                    idx as int,
                                    ChannelKey::Location(old(self).location),
                                );
                            }
                            if off + len > self.size {
                                self.size = off + len;
                            }
                            Ok(len)
                        },
                        None => {
                            if off > self.size {
                                self.size = off;
                            }
                            Ok(0)
                        },
                    }
                },
            },
            crate::file::FileContent::Fifo | crate::file::FileContent::Socket => {
                let key = ChannelKey::Location(self.location);
                if off > usize::MAX as u64 - buf.len() as u64 {
                    return Err(Errno::InvalidArgument);
                }
                let len = vfs.channels.write_at(&key, off, buf);
                if off + len > self.size {
                    self.size = off + len;
                }
                Ok(len)
            },
            crate::file::FileContent::BlockDevice { major, minor } => {
                let key = ChannelKey::Device(
                    DeviceID { dev_type: DeviceType::Block, major: *major, minor: *minor },
                );
                let idx = match vfs.channels.find(&key) {
                    Some(idx) => idx,
                    None => {
                        return Err(Errno::NoSuchDevice);
                    },
                };
                if off > usize::MAX as u64 - buf.len() as u64 {
                    return Err(Errno::InvalidArgument);
                }
                let ghost mid = vfs.channels;
                let len = vfs.channels.entries[idx].1.write(off, buf);
                proof {
                    lemma_channels_write_in_place(mid, final(vfs).channels, idx as int, key);
                }
                if off + len > self.size {
                    self.size = off + len;
                }
                Ok(len)
            },
            crate::file::FileContent::CharDevice { major, minor } => {
                let key = ChannelKey::Device(
                    DeviceID { dev_type: DeviceType::Char, major: *major, minor: *minor },
                );
                let idx = match vfs.channels.find(&key) {
                    Some(idx) => idx,
                    None => {
                        return Err(Errno::NoSuchDevice);
                    },
                };
                if off > usize::MAX as u64 - buf.len() as u64 {
                    return Err(Errno::InvalidArgument);
                }
                let ghost mid = vfs.channels;
                let len = vfs.channels.entries[idx].1.write(off, buf);
                proof {
                    lemma_channels_write_in_place(mid, final(vfs).channels, idx as int, key);
                }
                if off + len > self.size {
                    self.size = off + len;
                }
                Ok(len)
            },
        }
    }

    /// Answers a poll on the file: an in-memory channel is ready for
    /// whatever the mask asks, a missing virtual channel for nothing.
    pub fn poll(&mut self, vfs: &mut Vfs, mask: u32) -> (r: Result<u32, Errno>)
        requires
            old(vfs).wf(),
        ensures
            final(vfs).wf(),
            *final(self) == *old(self),
            vfs_state_eq(*old(vfs), *final(vfs)),
            ({
                match old(self).content@ {
                    ContentView::Directory(_) => r == Err::<u32, Errno>(Errno::IsADirectory),
                    ContentView::Link(_) => r == Err::<u32, Errno>(Errno::InvalidArgument),
                    ContentView::Regular => match old(self).location {
                        FileLocation::Filesystem { mountpoint_id, .. } => if old(
                            vfs,
                        ).mounts.spec_has(mountpoint_id) {
                            r == Ok::<u32, Errno>(mask)
                        } else {
                            r == Err::<u32, Errno>(Errno::IOFault)
                        },
                        FileLocation::Virtual { .. } => if old(vfs).channels.spec_contains(
                            ChannelKey::Location(old(self).location),
                        ) {
                            r == Ok::<u32, Errno>(mask)
                        } else {
                            r == Ok::<u32, Errno>(0u32)
                        },
                    },
                    ContentView::Fifo | ContentView::Socket => r == Ok::<u32, Errno>(mask),
                    ContentView::BlockDevice { major, minor } | ContentView::CharDevice {
                        major,
                        minor,
                    } => if old(vfs).channels.spec_contains(
                        ChannelKey::Device(
                            DeviceID {
                                dev_type: if old(self).content@ is BlockDevice {
                                    DeviceType::Block
                                } else {
                                    DeviceType::Char
                                },
                                major,
                                minor,
                            },
                        ),
                    ) {
                        r == Ok::<u32, Errno>(mask)
                    } else {
                        r == Err::<u32, Errno>(Errno::NoSuchDevice)
                    },
                }
            }),
    {
        match &self.content {
            crate::file::FileContent::Directory(_) => Err(Errno::IsADirectory),
            crate::file::FileContent::Link(_) => Err(Errno::InvalidArgument),
            crate::file::FileContent::Regular => match &self.location {
                FileLocation::Filesystem { mountpoint_id, .. } => {
                    match vfs.mounts.from_id(*mountpoint_id) {
                        Some(_idx) => Ok(mask),
                        None => Err(Errno::IOFault),
                    }
                },
                FileLocation::Virtual { .. } => {
                    let key = ChannelKey::Location(self.location);
                    match vfs.channels.find(&key) {
                        Some(idx) => Ok(vfs.channels.entries[idx].1.poll(mask)),
                        None => Ok(0),
                    }
                },
            },
            crate::file::FileContent::Fifo | crate::file::FileContent::Socket => Ok(mask),
            crate::file::FileContent::BlockDevice { major, minor } => {
                let key = ChannelKey::Device(
                    DeviceID { dev_type: DeviceType::Block, major: *major, minor: *minor },
                );
                match vfs.channels.find(&key) {
                    Some(idx) => Ok(vfs.channels.entries[idx].1.poll(mask)),
                    None => Err(Errno::NoSuchDevice),
                }
            },
            crate::file::FileContent::CharDevice { major, minor } => {
                let key = ChannelKey::Device(
                    DeviceID { dev_type: DeviceType::Char, major: *major, minor: *minor },
                );
                match vfs.channels.find(&key) {
                    Some(idx) => Ok(vfs.channels.entries[idx].1.poll(mask)),
                    None => Err(Errno::NoSuchDevice),
                }
            },
        }
    }

    /// Synchronizes the file's metadata with its backend; a file with no
    /// reachable mount point has nothing to flush and the call does
    /// nothing.
    pub fn sync(&self, vfs: &mut Vfs) -> (r: Result<(), Errno>)
        requires
            old(vfs).wf(),
            self.wf(),
        ensures
            final(vfs).wf(),
            final(vfs).fs_types == old(vfs).fs_types,
            final(vfs).channels == old(vfs).channels,
            ({
                match self.location {
                    FileLocation::Virtual { .. } => r is Ok && final(vfs).mounts == old(vfs).mounts,
                    FileLocation::Filesystem { mountpoint_id, .. } => if !old(vfs).mounts.spec_has(
                        mountpoint_id,
                    ) {
                        r is Ok && final(vfs).mounts == old(vfs).mounts
                    } else {
                        let i = old(vfs).mounts.spec_index_of(mountpoint_id);
                        &&& final(vfs).mounts.mounts@.len() == old(vfs).mounts.mounts@.len()
                        &&& (forall|k: int|
                            0 <= k < old(vfs).mounts.mounts@.len() && k != i
                                ==> final(vfs).mounts.mounts@[k] == old(vfs).mounts.mounts@[k])
                        &&& MemFs::update_inode_post(
                            old(vfs).spec_mount_fs(mountpoint_id),
                            final(vfs).mounts.mounts@[i].fs.as_mem(),
                            self@,
                            r,
                        )
                    },
                }
            }),
    {
        let idx = match self.location.get_mountpoint(&vfs.mounts) {
            Some(idx) => idx,
            None => {
                return Ok(());
            },
        };
        let r = vfs.mounts.mounts[idx].update_inode(self);
        proof {
            lemma_mounts_wf_after_update(old(vfs).mounts, final(vfs).mounts, idx as int);
        }
        r
    }
}

/// A mount table stays well-formed when one mount was updated in place,
/// keeping its id.
proof fn lemma_mounts_wf_after_update(pre: MountTable, post: MountTable, i: int)
    requires
        pre.wf(),
        0 <= i < pre.mounts@.len(),
        post.next_id == pre.next_id,
        post.mounts@.len() == pre.mounts@.len(),
        forall|k: int| 0 <= k < pre.mounts@.len() && k != i ==> post.mounts@[k] == pre.mounts@[k],
        post.mounts@[i].wf(),
        post.mounts@[i].id == pre.mounts@[i].id,
    ensures
        post.wf(),
        forall|id: u32| post.spec_has(id) <==> pre.spec_has(id),
        forall|id: u32| pre.spec_has(id) ==> post.spec_index_of(id) == pre.spec_index_of(id),
{
    assert forall|k: int| 0 <= k < post.mounts@.len() implies (#[trigger] post.mounts@[k]).wf()
        && post.mounts@[k].id == pre.mounts@[k].id by {
        if k != i {
            assert(post.mounts@[k] == pre.mounts@[k]);
        }
    }
    assert forall|id: u32| post.spec_has(id) <==> pre.spec_has(id) by {
        if pre.spec_has(id) {
            let j = pre.spec_index_of(id);
            assert(post.mounts@[j].id == id);
        }
        if post.spec_has(id) {
            let j = choose|j: int| 0 <= j < post.mounts@.len() && post.mounts@[j].id == id;
            assert(pre.mounts@[j].id == id);
        }
    }
    assert forall|id: u32| pre.spec_has(id) implies #[trigger] post.spec_index_of(id)
        == pre.spec_index_of(id) by {
        let j = pre.spec_index_of(id);
        assert(pre.mounts@[j].id == id);
        assert(post.mounts@[j].id == id);
        assert(post.spec_has(id));
        let j2 = post.spec_index_of(id);
        assert(post.mounts@[j2].id == id);
        assert(pre.mounts@[j2].id == id);
        assert(j2 == j);
    }
}

/// A channel table keeps its keys when one channel's bytes change in
/// place.
proof fn lemma_channels_write_in_place(pre: ChannelTable, post: ChannelTable, i: int, key: ChannelKey)
    requires
        pre.wf(),
        0 <= i < pre.entries@.len(),
        pre.entries@[i].0 == key,
        post.entries@.len() == pre.entries@.len(),
        forall|k: int| 0 <= k < pre.entries@.len() && k != i ==> post.entries@[k] == pre.entries@[k],
        post.entries@[i].0 == key,
    ensures
        post.wf(),
        post.spec_contains(key),
        post.spec_index_of(key) == i,
        pre.spec_index_of(key) == i,
        post.spec_contents(key) == post.entries@[i].1.data@,
        pre.spec_contents(key) == pre.entries@[i].1.data@,
        forall|other: ChannelKey|
            other != key ==> post.spec_contents(other) == pre.spec_contents(other) && (
            post.spec_contains(other) <==> pre.spec_contains(other)),
{
    assert forall|a: int, b: int|
        0 <= a < b < post.entries@.len() implies post.entries@[a].0 != post.entries@[b].0 by {
        if a != i && b != i {
            assert(post.entries@[a] == pre.entries@[a]);
            assert(post.entries@[b] == pre.entries@[b]);
        } else if a == i {
            assert(post.entries@[b] == pre.entries@[b]);
        } else {
            assert(post.entries@[a] == pre.entries@[a]);
        }
    }
    assert(post.spec_contains(key));
    let j = post.spec_index_of(key);
    assert(post.entries@[j].0 == key);
    assert(j == i);
    let j0 = pre.spec_index_of(key);
    assert(pre.entries@[j0].0 == key);
    assert(j0 == i);
    assert forall|other: ChannelKey| other != key implies post.spec_contents(other)
        == pre.spec_contents(other) && (post.spec_contains(other) <==> pre.spec_contains(
        other,
    )) by {
        if pre.spec_contains(other) {
            let k = pre.spec_index_of(other);
            assert(pre.entries@[k].0 == other);
            assert(k != i);
            assert(post.entries@[k] == pre.entries@[k]);
            assert(post.spec_contains(other));
            let k2 = post.spec_index_of(other);
            assert(post.entries@[k2].0 == other);
            assert(k2 != i);
            assert(pre.entries@[k2].0 == other);
            assert(k2 == k);
        } else {
            if post.spec_contains(other) {
                let k = post.spec_index_of(other);
                assert(post.entries@[k].0 == other);
                assert(k != i);
                assert(pre.entries@[k].0 == other);
            }
        }
    }
}

/// What writing `buf` at `off` into a file yields, by the file's content
/// kind, mirroring the read dispatch; on every successful write the
/// file's recorded size grows to the write's end when that lies past it.
pub open spec fn file_write_post(
    f: File,
    newf: FileView,
    pre: Vfs,
    post: Vfs,
    off: int,
    buf: Seq<u8>,
    r: Result<u64, Errno>,
) -> bool {
    match f.content@ {
        ContentView::Directory(_) => r == Err::<u64, Errno>(Errno::IsADirectory) && vfs_state_eq(
            pre,
            post,
        ) && newf == f@,
        ContentView::Link(_) => r == Err::<u64, Errno>(Errno::InvalidArgument) && vfs_state_eq(
            pre,
            post,
        ) && newf == f@,
        ContentView::Regular => match f.location {
            FileLocation::Filesystem { mountpoint_id, inode } => if !pre.mounts.spec_has(
                mountpoint_id,
            ) {
                r == Err::<u64, Errno>(Errno::IOFault) && vfs_state_eq(pre, post) && newf == f@
            } else {
                let i = pre.mounts.spec_index_of(mountpoint_id);
                &&& post.mounts.mounts@.len() == pre.mounts.mounts@.len()
                &&& (forall|k: int|
                    0 <= k < pre.mounts.mounts@.len() && k != i ==> post.mounts.mounts@[k]
                        == pre.mounts.mounts@[k])
                &&& post.fs_types == pre.fs_types
                &&& post.channels == pre.channels
                &&& MemFs::write_node_post(
                    pre.spec_mount_fs(mountpoint_id),
                    post.mounts.mounts@[i].fs.as_mem(),
                    inode,
                    off as u64,
                    buf,
                    if r is Ok {
                        Ok(())
                    } else {
                        Err(r->Err_0)
                    },
                )
                &&& (r is Ok ==> r == Ok::<u64, Errno>(buf.len() as u64) && newf == (FileView {
                    size: spec_grown_size(f@.size, off + buf.len()),
                    ..f@
                }))
                &&& (r is Err ==> newf == f@)
            },
            FileLocation::Virtual { .. } => if !pre.channels.spec_contains(
                ChannelKey::Location(f.location),
            ) {
                r == Ok::<u64, Errno>(0u64) && vfs_state_eq(pre, post) && newf == (FileView {
                    size: spec_grown_size(f@.size, off),
                    ..f@
                })
            } else {
                if off + buf.len() > usize::MAX {
                    r == Err::<u64, Errno>(Errno::InvalidArgument) && vfs_state_eq(pre, post)
                        && newf == f@
                } else {
                    let key = ChannelKey::Location(f.location);
                    &&& r == Ok::<u64, Errno>(buf.len() as u64)
                    &&& channels_written(pre, post, key, off, buf)
                    &&& newf == (FileView { size: spec_grown_size(f@.size, off + buf.len()), ..f@ })
                }
            },
        },
        ContentView::Fifo | ContentView::Socket => if off + buf.len() > usize::MAX {
            r == Err::<u64, Errno>(Errno::InvalidArgument) && vfs_state_eq(pre, post) && newf == f@
        } else {
            let key = ChannelKey::Location(f.location);
            &&& r == Ok::<u64, Errno>(buf.len() as u64)
            &&& channels_written(pre, post, key, off, buf)
            &&& newf == (FileView { size: spec_grown_size(f@.size, off + buf.len()), ..f@ })
        },
        ContentView::BlockDevice { major, minor } | ContentView::CharDevice { major, minor } => {
            let key = ChannelKey::Device(
                DeviceID {
                    dev_type: if f.content@ is BlockDevice {
                        DeviceType::Block
                    } else {
                        DeviceType::Char
                    },
                    major,
                    minor,
                },
            );
            if !pre.channels.spec_contains(key) {
                r == Err::<u64, Errno>(Errno::NoSuchDevice) && vfs_state_eq(pre, post) && newf
                    == f@
            } else if off + buf.len() > usize::MAX {
                r == Err::<u64, Errno>(Errno::InvalidArgument) && vfs_state_eq(pre, post) && newf
                    == f@
            } else {
                &&& r == Ok::<u64, Errno>(buf.len() as u64)
                &&& channels_written(pre, post, key, off, buf)
                &&& newf == (FileView { size: spec_grown_size(f@.size, off + buf.len()), ..f@ })
            }
        },
    }
}

/// The hard links left on a node after its binding `name` under `parent`
/// is removed: one fewer than it had, zero when the node is gone.
pub open spec fn spec_links_left(m: MemFs, parent: INode, name: Seq<u8>) -> u16 {
    match m.spec_node(parent) {
        Some(pn) => match pn.content@ {
            ContentView::Directory(d) => {
                let target = d[name].inode;
                if target == parent {
                    if pn.links <= 1 {
                        0u16
                    } else {
                        (pn.links - 1) as u16
                    }
                } else {
                    match m.spec_node(target) {
                        None => 0u16,
                        Some(tn) => if tn.links <= 1 {
                            0u16
                        } else {
                            (tn.links - 1) as u16
                        },
                    }
                }
            },
            _ => 0u16,
        },
        None => 0u16,
    }
}

/// What creating a file under a directory yields: the permission model
/// gates the operation — the identity must hold write and search rights
/// on the directory — and the directory's backend then creates the node.
/// A directory with no reachable mount cannot be written.
pub open spec fn create_file_post(
    parent: File,
    ap: crate::perm::AccessProfile,
    pre: Vfs,
    post: Vfs,
    name: Seq<u8>,
    mode: crate::file::Mode,
    content: ContentView,
    r: Result<File, Errno>,
) -> bool {
    if !(crate::file::spec_can_write(ap.euid, ap.egid, parent) && crate::file::spec_can_execute(
        ap.euid,
        ap.egid,
        parent,
    )) {
        r == Err::<File, Errno>(Errno::PermissionDenied) && vfs_state_eq(pre, post)
    } else {
        match parent.location {
            FileLocation::Virtual { .. } => r == Err::<File, Errno>(Errno::IOFault) && vfs_state_eq(
                pre,
                post,
            ),
            FileLocation::Filesystem { mountpoint_id, inode } => if !pre.mounts.spec_has(
                mountpoint_id,
            ) {
                r == Err::<File, Errno>(Errno::IOFault) && vfs_state_eq(pre, post)
            } else {
                let i = pre.mounts.spec_index_of(mountpoint_id);
                &&& post.fs_types == pre.fs_types
                &&& post.channels == pre.channels
                &&& post.mounts.mounts@.len() == pre.mounts.mounts@.len()
                &&& (forall|k: int|
                    0 <= k < pre.mounts.mounts@.len() && k != i ==> post.mounts.mounts@[k]
                        == pre.mounts.mounts@[k])
                &&& MemFs::add_file_post(
                    pre.spec_mount_fs(mountpoint_id),
                    post.mounts.mounts@[i].fs.as_mem(),
                    inode,
                    name,
                    ap.euid,
                    ap.egid,
                    mode,
                    content,
                    r,
                )
            },
        }
    }
}

/// Creates a file named `name` under the directory `parent`, owned by the
/// identity's effective user and group, with the permission bits of
/// `mode`; the content determines the new file's kind. The identity must
/// hold write and search rights on the directory.
pub fn create_file(
    vfs: &mut Vfs,
    parent: &File,
    ap: &crate::perm::AccessProfile,
    name: Vec<u8>,
    mode: crate::file::Mode,
    content: crate::file::FileContent,
) -> (r: Result<File, Errno>)
    requires
        old(vfs).wf(),
        content.wf(),
    ensures
        final(vfs).wf(),
        create_file_post(*parent, *ap, *old(vfs), *final(vfs), name@, mode, content@, r),
{
    if !ap.can_write_directory(parent) {
        return Err(Errno::PermissionDenied);
    }
    let idx = match parent.location.get_mountpoint(&vfs.mounts) {
        Some(idx) => idx,
        None => {
            return Err(Errno::IOFault);
        },
    };
    let inode = match &parent.location {
        FileLocation::Filesystem { inode, .. } => *inode,
        FileLocation::Virtual { .. } => {
            return Err(Errno::IOFault);
        },
    };
    let r = vfs.mounts.mounts[idx].add_file(inode, name, ap.get_euid(), ap.get_egid(), mode, content);
    proof {
        lemma_mounts_wf_after_update(old(vfs).mounts, final(vfs).mounts, idx as int);
    }
    r
}

/// The node a walk over `parts` reaches, starting at `cur`: each
/// component is looked up under the node the one before it reached.
pub open spec fn spec_resolve(m: MemFs, cur: INode, parts: Seq<Seq<u8>>) -> Result<INode, Errno>
    decreases parts.len(),
{
    if parts.len() == 0 {
        Ok(cur)
    } else {
        match m.spec_get_inode(Some(cur), parts[0]) {
            Ok(n) => spec_resolve(m, n, parts.skip(1)),
            Err(e) => Err(e),
        }
    }
}

/// What closing a file yields. A file without deferred removal, or whose
/// removal already happened, closes without effect: the removed flag
/// makes the removal idempotent. A deferred virtual file releases its
/// channel. A deferred backend file is unlinked from its parent
/// directory, found by walking the file's parent path, past the mount's
/// own path, from the backend's root; the walk's failure, or the
/// backend's, is the caller's result. The removal acts with the kernel's
/// own rights, as the finalizer for an unclosed file would.
pub open spec fn file_close_post(f: File, pre: Vfs, post: Vfs, r: Result<(), Errno>) -> bool {
    if !f.deferred_remove || f.removed {
        r is Ok && vfs_state_eq(pre, post)
    } else {
        match f.location {
            FileLocation::Virtual { .. } => {
                &&& r is Ok
                &&& post.mounts == pre.mounts
                &&& post.fs_types == pre.fs_types
                &&& post.channels.wf()
                &&& !post.channels.spec_contains(ChannelKey::Location(f.location))
                &&& (forall|other: ChannelKey|
                    other != ChannelKey::Location(f.location) ==> post.channels.spec_contents(
                        other,
                    ) == pre.channels.spec_contents(other))
            },
            FileLocation::Filesystem { mountpoint_id, .. } => (if !pre.mounts.spec_has(
                mountpoint_id,
            ) {
                r == Err::<(), Errno>(Errno::IOFault) && vfs_state_eq(pre, post)
            } else {
                let i = pre.mounts.spec_index_of(mountpoint_id);
                let m = pre.spec_mount_fs(mountpoint_id);
                let mount_depth = pre.mounts.mounts@[i].path.spec_parts().len() as int;
                let skip_len = if mount_depth <= f@.parent_parts.len() {
                    mount_depth
                } else {
                    f@.parent_parts.len() as int
                };
                let rel = f@.parent_parts.skip(skip_len);
                &&& post.fs_types == pre.fs_types
                &&& post.channels == pre.channels
                &&& post.mounts.mounts@.len() == pre.mounts.mounts@.len()
                &&& (forall|k: int|
                    0 <= k < pre.mounts.mounts@.len() && k != i ==> post.mounts.mounts@[k]
                        == pre.mounts.mounts@[k])
                &&& match spec_resolve(m, 1, rel) {
                    Err(e) => r == Err::<(), Errno>(e) && post.mounts.mounts@ == pre.mounts.mounts@,
                    Ok(parent) => {
                        &&& (r is Ok ==> MemFs::remove_file_post(
                            m,
                            post.mounts.mounts@[i].fs.as_mem(),
                            parent,
                            f@.name,
                            Ok(spec_links_left(m, parent, f@.name)),
                        ))
                        &&& (r is Err ==> MemFs::remove_file_post(
                            m,
                            post.mounts.mounts@[i].fs.as_mem(),
                            parent,
                            f@.name,
                            Err(r->Err_0),
                        ))
                    },
                }
            }),
        }
    }
}

impl File {
    /// Closes the file: when removal was deferred and not yet performed,
    /// the file is unlinked from its backend, or its virtual channel
    /// released, exactly once; the removed flag then guards repetition.
    pub fn close(&mut self, vfs: &mut Vfs) -> (r: Result<(), Errno>)
        requires
            old(vfs).wf(),
        ensures
            final(vfs).wf(),
            file_close_post(*old(self), *old(vfs), *final(vfs), r),
            r is Ok && old(self).deferred_remove && !old(self).removed ==> final(self)@
                == (FileView { removed: true, ..old(self)@ }),
            !(r is Ok && old(self).deferred_remove && !old(self).removed) ==> *final(self) == *old(
                self,
            ),
    {
        if !self.deferred_remove || self.removed {
            return Ok(());
        }
        let idx = match &self.location {
            FileLocation::Virtual { .. } => {
                let key = ChannelKey::Location(self.location);
                vfs.channels.release(&key);
                self.removed = true;
                return Ok(());
            },
            FileLocation::Filesystem { mountpoint_id, .. } => {
                match vfs.mounts.from_id(*mountpoint_id) {
                    Some(idx) => idx,
                    None => {
                        return Err(Errno::IOFault);
                    },
                }
            },
        };
        let ghost m = vfs.mounts.mounts@[idx as int].fs.as_mem();
        let mount_depth = vfs.mounts.mounts[idx].path.len();
        let skip_len = if mount_depth <= self.parent_path.len() {
            mount_depth
        } else {
            self.parent_path.len()
        };
        let ghost rel = self.parent_path.spec_parts().skip(skip_len as int);
        let mut cur: INode = 1;
        let mut j: usize = skip_len;
        proof {
            assert(rel.skip(j - skip_len) =~= rel);
        }
        while j < self.parent_path.len()
            invariant
                old(vfs).wf(),
                vfs.mounts.mounts@ == old(vfs).mounts.mounts@,
                vfs.mounts.next_id == old(vfs).mounts.next_id,
                vfs.fs_types == old(vfs).fs_types,
                vfs.channels == old(vfs).channels,
                idx < vfs.mounts.mounts@.len(),
                m == vfs.mounts.mounts@[idx as int].fs.as_mem(),
                skip_len <= j <= self.parent_path.spec_parts().len(),
                rel == self.parent_path.spec_parts().skip(skip_len as int),
                spec_resolve(m, 1, rel) == spec_resolve(m, cur, rel.skip(j - skip_len)),
                *self == *old(self),
                self.deferred_remove,
                !self.removed,
                self.location is Filesystem,
                old(vfs).mounts.spec_has(self.location->Filesystem_mountpoint_id),
                idx == old(vfs).mounts.spec_index_of(self.location->Filesystem_mountpoint_id),
                skip_len == (if old(vfs).mounts.mounts@[idx as int].path.spec_parts().len()
                    <= self.parent_path.spec_parts().len() {
                    old(vfs).mounts.mounts@[idx as int].path.spec_parts().len() as int
                } else {
                    self.parent_path.spec_parts().len() as int
                }),
            decreases self.parent_path.spec_parts().len() - j,
        {
            let name = &self.parent_path.parts[j];
            let ghost pre_loop_mounts = vfs.mounts.mounts@;
            let step = vfs.mounts.mounts[idx].get_inode(Some(cur), name.as_slice());
            proof {
                assert(vfs.mounts.mounts@ =~= pre_loop_mounts);
                assert(rel.skip(j - skip_len)[0] == self.parent_path.spec_parts()[j as int]);
                assert(rel.skip(j - skip_len).skip(1) =~= rel.skip(j + 1 - skip_len));
            }
            cur = match step {
                Ok(n) => n,
                Err(e) => {
                    proof {
                        assert(spec_resolve(m, 1, rel) == Err::<INode, Errno>(e));
                    }
                    return Err(e);
                },
            };
            j += 1;
        }
        proof {
            assert(rel.skip(j - skip_len) =~= Seq::<Seq<u8>>::empty());
            assert(spec_resolve(m, 1, rel) == Ok::<INode, Errno>(cur));
        }
        let removed = vfs.mounts.mounts[idx].remove_file(cur, self.name.as_slice());
        proof {
            lemma_mounts_wf_after_update(old(vfs).mounts, final(vfs).mounts, idx as int);
        }
        match removed {
            Ok(links) => {
                self.removed = true;
                proof {
                    assert(MemFs::remove_file_post(
                        m,
                        vfs.mounts.mounts@[idx as int].fs.as_mem(),
                        cur,
                        self.name@,
                        Ok(links),
                    ));
                    assert(links == spec_links_left(m, cur, self.name@));
                }
                Ok(())
            },
            Err(e) => Err(e),
        }
    }
}

/// The size a file records after a write reaching `end`: grown to `end`
/// when that lies past the old size.
pub open spec fn spec_grown_size(size: u64, end: int) -> u64 {
    if end > size {
        end as u64
    } else {
        size
    }
}

/// Only the channel under `key` changed, by a channel write of `buf` at
/// `off`; the mounts and types stayed.
pub open spec fn channels_written(pre: Vfs, post: Vfs, key: ChannelKey, off: int, buf: Seq<u8>) -> bool {
    &&& post.mounts == pre.mounts
    &&& post.fs_types == pre.fs_types
    &&& post.channels.wf()
    &&& post.channels.spec_contents(key) == spec_write(
        pre.channels.spec_contents(key),
        off,
        buf,
    )
    &&& (forall|other: ChannelKey|
        other != key ==> post.channels.spec_contents(other) == pre.channels.spec_contents(other))
}

} // verus!
