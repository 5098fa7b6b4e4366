//! The in-memory temporary filesystem: a backend whose nodes live in
//! memory and vanish at unmount.
//!
//! Node numbers index a table of slots; slot `i` holds node `i + 1`, and
//! node 1 is the root directory. A reclaimed node leaves an empty slot.

use vstd::pervasive::VecAdditionalExecFns;
use vstd::prelude::*;

use crate::channel::{
    read_bytes_at, spec_read_count, spec_read_data, spec_write, write_bytes_at, Channel,
};
use crate::errno::Errno;
use crate::fs::{Filesystem, Statfs};
use crate::file::{
    spec_view_kind, ContentView, DirEntries, DirEntry, File, FileContent, FileLocation, FileView,
    INode, Mode, Timestamp,
};
use crate::path::clone_bytes;
use crate::perm::{Gid, Uid};

verus! {

/// One node of the in-memory filesystem: its metadata, its bytes, and its
/// kind-specific payload.
#[derive(Debug)]
pub struct MemNode {
    /// The owning user.
    pub uid: Uid,
    /// The owning group.
    pub gid: Gid,
    /// The permission bits.
    pub perms: Mode,
    /// The number of hard links to the node.
    pub links: u16,
    /// The size the node reports in its metadata.
    pub size: u64,
    /// When the metadata last changed.
    pub ctime: Timestamp,
    /// When the content last changed.
    pub mtime: Timestamp,
    /// When the node was last accessed.
    pub atime: Timestamp,
    /// The node's bytes, for a regular node.
    pub data: Vec<u8>,
    /// The kind-specific payload; a directory's children live here.
    pub content: FileContent,
}

/// The in-memory temporary filesystem.
#[derive(Debug)]
pub struct MemFs {
    /// Whether the filesystem rejects writes.
    pub readonly: bool,
    /// The id of the mount point the filesystem is mounted under.
    pub mountpoint_id: u32,
    /// The timestamp given to nodes created or changed from now on.
    pub now: Timestamp,
    /// The node slots: slot `i` holds node `i + 1`.
    pub nodes: Vec<Option<MemNode>>,
}

impl MemFs {
    /// The node a number denotes, when the number is in range and the
    /// slot is full.
    pub open spec fn spec_node(self, inode: INode) -> Option<MemNode> {
        if 1 <= inode && inode <= self.nodes@.len() && self.nodes@[inode - 1] is Some {
            self.nodes@[inode - 1]
        } else {
            None
        }
    }

    /// Every directory on the filesystem binds each name at most once.
    pub open spec fn wf(self) -> bool {
        forall|i: int|
            0 <= i < self.nodes@.len() && self.nodes@[i] is Some ==> (
            #[trigger] self.nodes@[i])->0.content.wf()
    }

    /// Creates a fresh filesystem: one root directory without children,
    /// owned by the superuser, searchable by everyone.
    pub fn new(readonly: bool) -> (r: Self)
        ensures
            r.wf(),
            r.readonly == readonly,
            r.mountpoint_id == 0,
            r.now == 0,
            r.nodes@.len() == 1,
            r.spec_node(1) is Some,
            ({
                let root = r.spec_node(1)->0;
                &&& root.content@ == ContentView::Directory(Map::<Seq<u8>, DirEntry>::empty())
                &&& root.uid == 0u32
                &&& root.gid == 0u32
                &&& root.perms == 0o755u32
                &&& root.links == 1u16
            }),
    {
        let root = MemNode {
            uid: 0,
            gid: 0,
            perms: 0o755,
            links: 1,
            size: 0,
            ctime: 0,
            mtime: 0,
            atime: 0,
            data: Vec::new(),
            content: FileContent::Directory(DirEntries::new()),
        };
        let mut nodes: Vec<Option<MemNode>> = Vec::new();
        nodes.push(Some(root));
        MemFs { readonly, mountpoint_id: 0, now: 0, nodes }
    }

    /// Binds the filesystem to the mount point holding it, so that loaded
    /// files carry their mount point's id in their location.
    pub fn set_mountpoint_id(&mut self, id: u32)
        ensures
            *final(self) == (MemFs { mountpoint_id: id, ..*old(self) }),
    {
        self.mountpoint_id = id;
    }

    /// Sets the timestamp given to nodes created or changed from now on.
    pub fn set_time(&mut self, now: Timestamp)
        ensures
            *final(self) == (MemFs { now, ..*old(self) }),
    {
        self.now = now;
    }

    /// Tells whether the filesystem rejects writes.
    pub fn is_readonly(&self) -> (r: bool)
        ensures
            r == self.readonly,
    {
        self.readonly
    }

    /// Returns the node of the filesystem's root directory.
    pub fn get_root_inode(&self) -> (r: Result<INode, Errno>)
        ensures
            r == Ok::<INode, Errno>(1u64),
    {
        Ok(1)
    }

    /// What looking a name up under a parent yields: the bound node, a
    /// not-found failure for an unknown parent or name, or a
    /// not-a-directory failure when the parent is no directory. An absent
    /// parent means the root.
    pub open spec fn spec_get_inode(self, parent: Option<INode>, name: Seq<u8>) -> Result<
        INode,
        Errno,
    > {
        let p = match parent {
            Some(p) => p,
            None => 1,
        };
        match self.spec_node(p) {
            None => Err(Errno::NotFound),
            Some(n) => match n.content@ {
                ContentView::Directory(d) => if d.contains_key(name) {
                    Ok(d[name].inode)
                } else {
                    Err(Errno::NotFound)
                },
                _ => Err(Errno::NotADirectory),
            },
        }
    }

    /// Looks up the node bound to `name` under `parent`, the root when
    /// `parent` is absent.
    pub fn get_inode(&self, parent: Option<INode>, name: &[u8]) -> (r: Result<INode, Errno>)
        requires
            self.wf(),
        ensures
            r == self.spec_get_inode(parent, name@),
    {
        let p: INode = match parent {
            Some(p) => p,
            None => 1,
        };
        if p < 1 || p > self.nodes.len() as u64 {
            return Err(Errno::NotFound);
        }
        let idx = (p - 1) as usize;
        match &self.nodes[idx] {
            None => Err(Errno::NotFound),
            Some(n) => {
                proof {
                    assert(self.nodes@[idx as int]->0.content.wf());
                }
                match &n.content {
                    FileContent::Directory(d) => match d.get(name) {
                        Some(e) => Ok(e.inode),
                        None => Err(Errno::NotFound),
                    },
                    _ => Err(Errno::NotADirectory),
                }
            },
        }
    }

    /// What loading a node as a file yields: a file carrying the node's
    /// metadata and content under the given name, rooted at the mount
    /// point's path, or a not-found failure for an unknown node.
    pub open spec fn load_file_post(self, inode: INode, name: Seq<u8>, r: Result<
        File,
        Errno,
    >) -> bool {
        match self.spec_node(inode) {
            None => r == Err::<File, Errno>(Errno::NotFound),
            Some(n) => r is Ok && (r->Ok_0).wf() && (r->Ok_0)@ == (FileView {
                name,
                parent_absolute: true,
                parent_parts: Seq::<Seq<u8>>::empty(),
                hard_links_count: n.links,
                blocks_count: 0u64,
                size: n.size,
                uid: n.uid,
                gid: n.gid,
                mode: n.perms,
                ctime: n.ctime,
                mtime: n.mtime,
                atime: n.atime,
                location: FileLocation::Filesystem { mountpoint_id: self.mountpoint_id, inode },
                content: n.content@,
                deferred_remove: false,
                removed: false,
            }),
        }
    }

    /// Materializes the file entity of the node `inode` under the name
    /// `name`.
    pub fn load_file(&self, inode: INode, name: Vec<u8>) -> (r: Result<File, Errno>)
        requires
            self.wf(),
        ensures
            self.load_file_post(inode, name@, r),
    {
        if inode < 1 || inode > self.nodes.len() as u64 {
            return Err(Errno::NotFound);
        }
        let idx = (inode - 1) as usize;
        match &self.nodes[idx] {
            None => Err(Errno::NotFound),
            Some(n) => {
                proof {
                    assert(self.nodes@[idx as int]->0.content.wf());
                }
                let content = match n.content.try_clone() {
                    Ok(c) => c,
                    Err(e) => {
                        return Err(e);
                    },
                };
                let mut f = File::new(
                    name,
                    n.uid,
                    n.gid,
                    n.perms,
                    FileLocation::Filesystem { mountpoint_id: self.mountpoint_id, inode },
                    content,
                    n.ctime,
                );
                f.hard_links_count = n.links;
                f.size = n.size;
                f.mtime = n.mtime;
                f.atime = n.atime;
                Ok(f)
            },
        }
    }

    /// The filesystem's identity and clock are unchanged.
    pub open spec fn fs_frame(pre: MemFs, post: MemFs) -> bool {
        &&& post.readonly == pre.readonly
        &&& post.mountpoint_id == pre.mountpoint_id
        &&& post.now == pre.now
    }

    /// The two nodes agree on everything but their content.
    pub open spec fn node_metadata_eq(a: MemNode, b: MemNode) -> bool {
        &&& a.uid == b.uid
        &&& a.gid == b.gid
        &&& a.perms == b.perms
        &&& a.links == b.links
        &&& a.size == b.size
        &&& a.ctime == b.ctime
        &&& a.mtime == b.mtime
        &&& a.atime == b.atime
        &&& a.data == b.data
    }

    /// The two nodes agree on everything but their link count.
    pub open spec fn node_eq_except_links(a: MemNode, b: MemNode) -> bool {
        &&& a.uid == b.uid
        &&& a.gid == b.gid
        &&& a.perms == b.perms
        &&& a.size == b.size
        &&& a.ctime == b.ctime
        &&& a.mtime == b.mtime
        &&& a.atime == b.atime
        &&& a.data == b.data
        &&& a.content == b.content
    }

    /// What creating a file under a parent yields. On success the new
    /// node takes the next slot with the given ownership, permission bits
    /// and content, one hard link, no bytes and the filesystem's current
    /// time; the parent's directory binds the name to it; the returned
    /// file entity carries exactly the new node. Each failure and the
    /// inputs that give it: a read-only filesystem is not written, an
    /// unknown parent is not found, a non-directory parent is no
    /// directory, a taken name already exists, and a full node table is
    /// memory exhaustion; a failed call leaves the filesystem unchanged.
    pub open spec fn add_file_post(
        pre: MemFs,
        post: MemFs,
        parent_inode: INode,
        name: Seq<u8>,
        uid: Uid,
        gid: Gid,
        mode: Mode,
        content: ContentView,
        r: Result<File, Errno>,
    ) -> bool {
        if pre.readonly {
            r == Err::<File, Errno>(Errno::NotSupported) && post == pre
        } else {
            match pre.spec_node(parent_inode) {
                None => r == Err::<File, Errno>(Errno::NotFound) && post == pre,
                Some(pn) => match pn.content@ {
                    ContentView::Directory(d) => if d.contains_key(name) {
                        r == Err::<File, Errno>(Errno::AlreadyExists) && post == pre
                    } else if pre.nodes@.len() >= usize::MAX {
                        r == Err::<File, Errno>(Errno::AllocationFailure) && post == pre
                    } else {
                        let new_inode = (pre.nodes@.len() + 1) as INode;
                        &&& Self::fs_frame(pre, post)
                        &&& post.nodes@.len() == pre.nodes@.len() + 1
                        &&& (forall|k: int|
                            0 <= k < pre.nodes@.len() && k != parent_inode - 1
                                ==> post.nodes@[k] == pre.nodes@[k])
                        &&& post.spec_node(parent_inode) is Some
                        &&& Self::node_metadata_eq(pn, post.spec_node(parent_inode)->0)
                        &&& post.spec_node(parent_inode)->0.content@ == ContentView::Directory(
                            d.insert(
                                name,
                                DirEntry { inode: new_inode, entry_type: spec_view_kind(content) },
                            ),
                        )
                        &&& post.spec_node(new_inode) is Some
                        &&& ({
                            let nn = post.spec_node(new_inode)->0;
                            &&& nn.uid == uid
                            &&& nn.gid == gid
                            &&& nn.perms == mode
                            &&& nn.links == 1u16
                            &&& nn.size == 0u64
                            &&& nn.data@ == Seq::<u8>::empty()
                            &&& nn.content@ == content
                            &&& nn.ctime == pre.now
                            &&& nn.mtime == pre.now
                            &&& nn.atime == pre.now
                        })
                        &&& r is Ok
                        &&& (r->Ok_0).wf()
                        &&& (r->Ok_0)@ == (FileView {
                            name,
                            parent_absolute: true,
                            parent_parts: Seq::<Seq<u8>>::empty(),
                            hard_links_count: 1u16,
                            blocks_count: 0u64,
                            size: 0u64,
                            uid,
                            gid,
                            mode,
                            ctime: pre.now,
                            mtime: pre.now,
                            atime: pre.now,
                            location: FileLocation::Filesystem {
                                mountpoint_id: pre.mountpoint_id,
                                inode: new_inode,
                            },
                            content,
                            deferred_remove: false,
                            removed: false,
                        })
                    },
                    _ => r == Err::<File, Errno>(Errno::NotADirectory) && post == pre,
                },
            }
        }
    }

    /// Creates a file named `name` under the directory `parent_inode`,
    /// owned by `uid` and `gid` with the permission bits of `mode`; the
    /// content determines the new file's kind.
    pub fn add_file(
        &mut self,
        parent_inode: INode,
        name: Vec<u8>,
        uid: Uid,
        gid: Gid,
        mode: Mode,
        content: FileContent,
    ) -> (r: Result<File, Errno>)
        requires
            old(self).wf(),
            content.wf(),
        ensures
            final(self).wf(),
            Self::add_file_post(
                *old(self),
                *final(self),
                parent_inode,
                name@,
                uid,
                gid,
                mode,
                content@,
                r,
            ),
    {
        if self.readonly {
            return Err(Errno::NotSupported);
        }
        if parent_inode < 1 || parent_inode > self.nodes.len() as u64 {
            return Err(Errno::NotFound);
        }
        let pidx = (parent_inode - 1) as usize;
        let (is_dir, taken) = match &self.nodes[pidx] {
            None => {
                return Err(Errno::NotFound);
            },
            Some(n) => {
                proof {
                    assert(self.nodes@[pidx as int]->0.content.wf());
                }
                match &n.content {
                    FileContent::Directory(d) => (true, d.get(name.as_slice()).is_some()),
                    _ => (false, false),
                }
            },
        };
        if !is_dir {
            return Err(Errno::NotADirectory);
        }
        if taken {
            return Err(Errno::AlreadyExists);
        }
        if self.nodes.len() == usize::MAX {
            return Err(Errno::AllocationFailure);
        }
        let new_inode: INode = self.nodes.len() as u64 + 1;
        let kind = content.as_type();
        let file_content = match content.try_clone() {
            Ok(c) => c,
            Err(e) => {
                return Err(e);
            },
        };
        let entry_name = clone_bytes(&name);
        let node = MemNode {
            uid,
            gid,
            perms: mode,
            links: 1,
            size: 0,
            ctime: self.now,
            mtime: self.now,
            atime: self.now,
            data: Vec::new(),
            content,
        };
        self.nodes.push(Some(node));
        let mut slot: Option<MemNode> = None;
        self.nodes.set_and_swap(pidx, &mut slot);
        match slot {
            Some(mut pn) => {
                match &mut pn.content {
                    FileContent::Directory(d) => {
                        d.insert(entry_name, DirEntry { inode: new_inode, entry_type: kind });
                    },
                    _ => {},
                }
                self.nodes[pidx] = Some(pn);
            },
            None => {
                proof {
                    assert(false);
                }
            },
        }
        let f = File::new(
            name,
            uid,
            gid,
            mode,
            FileLocation::Filesystem { mountpoint_id: self.mountpoint_id, inode: new_inode },
            file_content,
            self.now,
        );
        proof {
            assert(self.spec_node(parent_inode) is Some);
            assert(self.spec_node(new_inode) is Some);
            assert(self.spec_node(new_inode)->0.data@ =~= Seq::<u8>::empty());
            assert forall|i: int|
                0 <= i < self.nodes@.len() && self.nodes@[i] is Some implies (
            #[trigger] self.nodes@[i])->0.content.wf() by {
                if i != pidx && i != self.nodes@.len() - 1 {
                    assert(self.nodes@[i] == old(self).nodes@[i]);
                }
            }
        }
        Ok(f)
    }

    /// What adding a hard link yields. On success the parent's directory
    /// binds the name to the target node, whose link count grows by one.
    /// Each failure and the inputs that give it: a read-only filesystem
    /// is not written; an unknown parent or target is not found; a
    /// non-directory parent is no directory; a taken name already exists;
    /// a directory target, or a link count at its ceiling, is
    /// unsupported. A failed call leaves the filesystem unchanged.
    pub open spec fn add_link_post(
        pre: MemFs,
        post: MemFs,
        parent_inode: INode,
        name: Seq<u8>,
        inode: INode,
        r: Result<(), Errno>,
    ) -> bool {
        if pre.readonly {
            r == Err::<(), Errno>(Errno::NotSupported) && post == pre
        } else {
            match pre.spec_node(parent_inode) {
                None => r == Err::<(), Errno>(Errno::NotFound) && post == pre,
                Some(pn) => match pn.content@ {
                    ContentView::Directory(d) => if d.contains_key(name) {
                        r == Err::<(), Errno>(Errno::AlreadyExists) && post == pre
                    } else {
                        match pre.spec_node(inode) {
                            None => r == Err::<(), Errno>(Errno::NotFound) && post == pre,
                            Some(tn) => if tn.content is Directory {
                                r == Err::<(), Errno>(Errno::NotSupported) && post == pre
                            } else if tn.links == u16::MAX {
                                r == Err::<(), Errno>(Errno::NotSupported) && post == pre
                            } else {
                                &&& r is Ok
                                &&& Self::fs_frame(pre, post)
                                &&& post.nodes@.len() == pre.nodes@.len()
                                &&& (forall|k: int|
                                    0 <= k < pre.nodes@.len() && k != parent_inode - 1 && k != inode
                                        - 1 ==> post.nodes@[k] == pre.nodes@[k])
                                &&& post.spec_node(parent_inode) is Some
                                &&& Self::node_metadata_eq(pn, post.spec_node(parent_inode)->0)
                                &&& post.spec_node(parent_inode)->0.content@
                                    == ContentView::Directory(
                                    d.insert(
                                        name,
                                        DirEntry {
                                            inode,
                                            entry_type: spec_view_kind(tn.content@),
                                        },
                                    ),
                                )
                                &&& post.spec_node(inode) is Some
                                &&& Self::node_eq_except_links(tn, post.spec_node(inode)->0)
                                &&& post.spec_node(inode)->0.links == tn.links + 1
                            },
                        }
                    },
                    _ => r == Err::<(), Errno>(Errno::NotADirectory) && post == pre,
                },
            }
        }
    }

    /// Adds a hard link named `name` under the directory `parent_inode`
    /// to the node `inode`. Hard links to directories are not supported.
    pub fn add_link(&mut self, parent_inode: INode, name: &[u8], inode: INode) -> (r: Result<
        (),
        Errno,
    >)
        requires
            old(self).wf(),
        ensures
            final(self).wf(),
            Self::add_link_post(*old(self), *final(self), parent_inode, name@, inode, r),
    {
        if self.readonly {
            return Err(Errno::NotSupported);
        }
        if parent_inode < 1 || parent_inode > self.nodes.len() as u64 {
            return Err(Errno::NotFound);
        }
        let pidx = (parent_inode - 1) as usize;
        let (is_dir, taken) = match &self.nodes[pidx] {
            None => {
                return Err(Errno::NotFound);
            },
            Some(n) => {
                proof {
                    assert(self.nodes@[pidx as int]->0.content.wf());
                }
                match &n.content {
                    FileContent::Directory(d) => (true, d.get(name).is_some()),
                    _ => (false, false),
                }
            },
        };
        if !is_dir {
            return Err(Errno::NotADirectory);
        }
        if taken {
            return Err(Errno::AlreadyExists);
        }
        if inode < 1 || inode > self.nodes.len() as u64 {
            return Err(Errno::NotFound);
        }
        let tidx = (inode - 1) as usize;
        let kind = match &self.nodes[tidx] {
            None => {
                return Err(Errno::NotFound);
            },
            Some(tn) => {
                if matches!(tn.content, FileContent::Directory(_)) {
                    return Err(Errno::NotSupported);
                }
                if tn.links == u16::MAX {
                    return Err(Errno::NotSupported);
                }
                tn.content.as_type()
            },
        };
        let mut tslot: Option<MemNode> = None;
        self.nodes.set_and_swap(tidx, &mut tslot);
        match tslot {
            Some(mut tn) => {
                tn.links = tn.links + 1;
                self.nodes[tidx] = Some(tn);
            },
            None => {
                proof {
                    assert(false);
                }
            },
        }
        let ghost mid = *self;
        let mut pslot: Option<MemNode> = None;
        self.nodes.set_and_swap(pidx, &mut pslot);
        match pslot {
            Some(mut pn) => {
                match &mut pn.content {
                    FileContent::Directory(d) => {
                        d.insert(
                            vstd::slice::slice_to_vec(name),
                            DirEntry { inode, entry_type: kind },
                        );
                    },
                    _ => {},
                }
                self.nodes[pidx] = Some(pn);
            },
            None => {
                proof {
                    assert(false);
                }
            },
        }
        proof {
            assert(self.spec_node(parent_inode) is Some);
            assert(self.spec_node(inode) is Some);
            assert forall|i: int|
                0 <= i < self.nodes@.len() && self.nodes@[i] is Some implies (
            #[trigger] self.nodes@[i])->0.content.wf() by {
                if i != pidx && i != tidx {
                    assert(self.nodes@[i] == old(self).nodes@[i]);
                }
            }
        }
        Ok(())
    }

    /// What flushing a file's metadata yields. On success the node named
    /// by the file's location takes the file's ownership, permission
    /// bits, link count, size and timestamps; its content stays. A
    /// read-only filesystem is not written; a virtual location is an
    /// invalid argument; an unknown node is not found; a failed call
    /// leaves the filesystem unchanged.
    pub open spec fn update_inode_post(pre: MemFs, post: MemFs, f: FileView, r: Result<
        (),
        Errno,
    >) -> bool {
        if pre.readonly {
            r == Err::<(), Errno>(Errno::NotSupported) && post == pre
        } else {
            match f.location {
                FileLocation::Virtual { .. } => r == Err::<(), Errno>(Errno::InvalidArgument)
                    && post == pre,
                FileLocation::Filesystem { inode, .. } => match pre.spec_node(inode) {
                    None => r == Err::<(), Errno>(Errno::NotFound) && post == pre,
                    Some(n) => {
                        &&& r is Ok
                        &&& Self::fs_frame(pre, post)
                        &&& post.nodes@.len() == pre.nodes@.len()
                        &&& (forall|k: int|
                            0 <= k < pre.nodes@.len() && k != inode - 1 ==> post.nodes@[k]
                                == pre.nodes@[k])
                        &&& post.spec_node(inode) is Some
                        &&& ({
                            let nn = post.spec_node(inode)->0;
                            &&& nn.uid == f.uid
                            &&& nn.gid == f.gid
                            &&& nn.perms == f.mode
                            &&& nn.links == f.hard_links_count
                            &&& nn.size == f.size
                            &&& nn.ctime == f.ctime
                            &&& nn.mtime == f.mtime
                            &&& nn.atime == f.atime
                            &&& nn.content == n.content
                            &&& nn.data == n.data
                        })
                    },
                },
            }
        }
    }

    /// Flushes the in-memory metadata of `file` to its node.
    pub fn update_inode(&mut self, file: &File) -> (r: Result<(), Errno>)
        requires
            old(self).wf(),
        ensures
            final(self).wf(),
            Self::update_inode_post(*old(self), *final(self), file@, r),
    {
        if self.readonly {
            return Err(Errno::NotSupported);
        }
        let inode: INode = match &file.location {
            FileLocation::Virtual { .. } => {
                return Err(Errno::InvalidArgument);
            },
            FileLocation::Filesystem { inode, .. } => *inode,
        };
        if inode < 1 || inode > self.nodes.len() as u64 {
            return Err(Errno::NotFound);
        }
        let idx = (inode - 1) as usize;
        if self.nodes[idx].is_none() {
            return Err(Errno::NotFound);
        }
        let mut slot: Option<MemNode> = None;
        self.nodes.set_and_swap(idx, &mut slot);
        match slot {
            Some(mut n) => {
                n.uid = file.uid;
                n.gid = file.gid;
                n.perms = file.mode;
                n.links = file.hard_links_count;
                n.size = file.size;
                n.ctime = file.ctime;
                n.mtime = file.mtime;
                n.atime = file.atime;
                self.nodes[idx] = Some(n);
                proof {
                    assert(self.spec_node(inode) is Some);
                    assert forall|i: int|
                        0 <= i < self.nodes@.len() && self.nodes@[i] is Some implies (
                    #[trigger] self.nodes@[i])->0.content.wf() by {
                        if i != idx {
                            assert(self.nodes@[i] == old(self).nodes@[i]);
                        } else {
                            assert(old(self).nodes@[i] is Some);
                            assert(old(self).nodes@[i]->0.content.wf());
                        }
                    }
                }
                Ok(())
            },
            None => {
                proof {
                    assert(false);
                }
                Err(Errno::NotFound)
            },
        }
    }

    /// What removing a directory entry yields. On success the parent's
    /// directory drops the binding and the bound node loses one hard
    /// link; a node whose last link goes is reclaimed, and its slot
    /// empties. The call returns the links left on the node; a binding to
    /// the parent itself acts on the parent after the binding is gone.
    /// Each failure and the inputs that give it: a read-only filesystem
    /// is not written; an unknown parent or unbound name is not found; a
    /// non-directory parent is no directory; a failed call leaves the
    /// filesystem unchanged.
    pub open spec fn remove_file_post(
        pre: MemFs,
        post: MemFs,
        parent_inode: INode,
        name: Seq<u8>,
        r: Result<u16, Errno>,
    ) -> bool {
        if pre.readonly {
            r == Err::<u16, Errno>(Errno::NotSupported) && post == pre
        } else {
            match pre.spec_node(parent_inode) {
                None => r == Err::<u16, Errno>(Errno::NotFound) && post == pre,
                Some(pn) => match pn.content@ {
                    ContentView::Directory(d) => if !d.contains_key(name) {
                        r == Err::<u16, Errno>(Errno::NotFound) && post == pre
                    } else {
                        let target = d[name].inode;
                        let d2 = d.remove(name);
                        &&& Self::fs_frame(pre, post)
                        &&& post.nodes@.len() == pre.nodes@.len()
                        &&& (forall|k: int|
                            0 <= k < pre.nodes@.len() && k != parent_inode - 1 && k != target - 1
                                ==> post.nodes@[k] == pre.nodes@[k])
                        &&& if target == parent_inode {
                            if pn.links <= 1 {
                                &&& post.nodes@[parent_inode - 1] is None
                                &&& r == Ok::<u16, Errno>(0u16)
                            } else {
                                &&& post.spec_node(parent_inode) is Some
                                &&& ({
                                    let nn = post.spec_node(parent_inode)->0;
                                    &&& nn.uid == pn.uid
                                    &&& nn.gid == pn.gid
                                    &&& nn.perms == pn.perms
                                    &&& nn.size == pn.size
                                    &&& nn.ctime == pn.ctime
                                    &&& nn.mtime == pn.mtime
                                    &&& nn.atime == pn.atime
                                    &&& nn.data == pn.data
                                    &&& nn.links == pn.links - 1
                                    &&& nn.content@ == ContentView::Directory(d2)
                                })
                                &&& r == Ok::<u16, Errno>((pn.links - 1) as u16)
                            }
                        } else {
                            &&& post.spec_node(parent_inode) is Some
                            &&& Self::node_metadata_eq(pn, post.spec_node(parent_inode)->0)
                            &&& post.spec_node(parent_inode)->0.content@ == ContentView::Directory(
                                d2,
                            )
                            &&& match pre.spec_node(target) {
                                None => r == Ok::<u16, Errno>(0u16) && (forall|k: int|
                                    0 <= k < pre.nodes@.len() && k != parent_inode - 1
                                        ==> post.nodes@[k] == pre.nodes@[k]),
                                Some(tn) => if tn.links <= 1 {
                                    &&& post.nodes@[target - 1] is None
                                    &&& r == Ok::<u16, Errno>(0u16)
                                } else {
                                    &&& post.spec_node(target) is Some
                                    &&& Self::node_eq_except_links(tn, post.spec_node(target)->0)
                                    &&& post.spec_node(target)->0.links == tn.links - 1
                                    &&& r == Ok::<u16, Errno>((tn.links - 1) as u16)
                                },
                            }
                        }
                    },
                    _ => r == Err::<u16, Errno>(Errno::NotADirectory) && post == pre,
                },
            }
        }
    }

    /// Removes the entry `name` from the directory `parent_inode` and
    /// decrements the bound node's link count, reclaiming the node when
    /// no link is left. Returns the number of hard links left on the
    /// node.
    pub fn remove_file(&mut self, parent_inode: INode, name: &[u8]) -> (r: Result<u16, Errno>)
        requires
            old(self).wf(),
        ensures
            final(self).wf(),
            Self::remove_file_post(*old(self), *final(self), parent_inode, name@, r),
    {
        if self.readonly {
            return Err(Errno::NotSupported);
        }
        if parent_inode < 1 || parent_inode > self.nodes.len() as u64 {
            return Err(Errno::NotFound);
        }
        let pidx = (parent_inode - 1) as usize;
        let target: INode = match &self.nodes[pidx] {
            None => {
                return Err(Errno::NotFound);
            },
            Some(n) => {
                proof {
                    assert(self.nodes@[pidx as int]->0.content.wf());
                }
                match &n.content {
                    FileContent::Directory(d) => match d.get(name) {
                        Some(e) => e.inode,
                        None => {
                            return Err(Errno::NotFound);
                        },
                    },
                    _ => {
                        return Err(Errno::NotADirectory);
                    },
                }
            },
        };
        let mut pslot: Option<MemNode> = None;
        self.nodes.set_and_swap(pidx, &mut pslot);
        match pslot {
            Some(mut pn) => {
                match &mut pn.content {
                    FileContent::Directory(d) => {
                        d.remove(name);
                    },
                    _ => {},
                }
                self.nodes[pidx] = Some(pn);
            },
            None => {
                proof {
                    assert(false);
                }
            },
        }
        let ghost mid = *self;
        if target < 1 || target > self.nodes.len() as u64 {
            proof {
                lemma_wf_frame(*old(self), *self, pidx as int);
            }
            return Ok(0);
        }
        let tidx = (target - 1) as usize;
        if self.nodes[tidx].is_none() {
            proof {
                lemma_wf_frame(*old(self), *self, pidx as int);
            }
            return Ok(0);
        }
        let mut tslot: Option<MemNode> = None;
        self.nodes.set_and_swap(tidx, &mut tslot);
        let links_left: u16 = match tslot {
            Some(mut tn) => {
                let new_links: u16 = if tn.links <= 1 {
                    0
                } else {
                    tn.links - 1
                };
                if new_links == 0 {
                    self.nodes[tidx] = None;
                } else {
                    tn.links = new_links;
                    self.nodes[tidx] = Some(tn);
                }
                new_links
            },
            None => {
                proof {
                    assert(false);
                }
                0
            },
        };
        proof {
            assert forall|i: int|
                0 <= i < self.nodes@.len() && self.nodes@[i] is Some implies (
            #[trigger] self.nodes@[i])->0.content.wf() by {
                if i != pidx && i != tidx {
                    assert(self.nodes@[i] == old(self).nodes@[i]);
                } else if i == tidx && i != pidx {
                    assert(self.nodes@[i] == old(self).nodes@[i]
                        || self.nodes@[i]->0.content == old(self).nodes@[i]->0.content);
                }
            }
        }
        Ok(links_left)
    }

    /// What writing to a node's bytes yields. On success the node's bytes
    /// become the channel-write of the buffer at the offset, and
    /// everything else stays. Each failure and the inputs that give it: a
    /// read-only filesystem is not written; an unknown node is not found;
    /// an offset and length past the address range is an invalid
    /// argument; a failed call leaves the filesystem unchanged.
    pub open spec fn write_node_post(
        pre: MemFs,
        post: MemFs,
        inode: INode,
        off: u64,
        buf: Seq<u8>,
        r: Result<(), Errno>,
    ) -> bool {
        if pre.readonly {
            r == Err::<(), Errno>(Errno::NotSupported) && post == pre
        } else {
            match pre.spec_node(inode) {
                None => r == Err::<(), Errno>(Errno::NotFound) && post == pre,
                Some(n) => if off + buf.len() > usize::MAX {
                    r == Err::<(), Errno>(Errno::InvalidArgument) && post == pre
                } else {
                    &&& r is Ok
                    &&& Self::fs_frame(pre, post)
                    &&& post.nodes@.len() == pre.nodes@.len()
                    &&& (forall|k: int|
                        0 <= k < pre.nodes@.len() && k != inode - 1 ==> post.nodes@[k]
                            == pre.nodes@[k])
                    &&& post.spec_node(inode) is Some
                    &&& ({
                        let nn = post.spec_node(inode)->0;
                        &&& nn.uid == n.uid
                        &&& nn.gid == n.gid
                        &&& nn.perms == n.perms
                        &&& nn.links == n.links
                        &&& nn.size == n.size
                        &&& nn.ctime == n.ctime
                        &&& nn.mtime == n.mtime
                        &&& nn.atime == n.atime
                        &&& nn.content == n.content
                        &&& nn.data@ == spec_write(n.data@, off as int, buf)
                    })
                },
            }
        }
    }

    /// Writes `buf` into the bytes of node `inode` at offset `off`,
    /// growing the node when the write runs past its end. The node's
    /// metadata, its size field among it, is the file entity's to update
    /// afterwards.
    pub fn write_node(&mut self, inode: INode, off: u64, buf: &[u8]) -> (r: Result<(), Errno>)
        requires
            old(self).wf(),
        ensures
            final(self).wf(),
            Self::write_node_post(*old(self), *final(self), inode, off, buf@, r),
    {
        if self.readonly {
            return Err(Errno::NotSupported);
        }
        if inode < 1 || inode > self.nodes.len() as u64 {
            return Err(Errno::NotFound);
        }
        let idx = (inode - 1) as usize;
        if self.nodes[idx].is_none() {
            return Err(Errno::NotFound);
        }
        if off > usize::MAX as u64 - buf.len() as u64 {
            return Err(Errno::InvalidArgument);
        }
        let mut slot: Option<MemNode> = None;
        self.nodes.set_and_swap(idx, &mut slot);
        match slot {
            Some(mut n) => {
                write_bytes_at(&mut n.data, off, buf);
                self.nodes[idx] = Some(n);
                proof {
                    assert(self.spec_node(inode) is Some);
                    assert forall|i: int|
                        0 <= i < self.nodes@.len() && self.nodes@[i] is Some implies (
                    #[trigger] self.nodes@[i])->0.content.wf() by {
                        if i != idx {
                            assert(self.nodes@[i] == old(self).nodes@[i]);
                        } else {
                            assert(old(self).nodes@[i]->0.content.wf());
                        }
                    }
                }
                Ok(())
            },
            None => {
                proof {
                    assert(false);
                }
                Err(Errno::NotFound)
            },
        }
    }

    /// Reads from the bytes of node `inode` as a channel read would;
    /// fails with a not-found error for an unknown node.
    pub fn read_node(&self, inode: INode, off: u64, buf: &mut Vec<u8>) -> (r: Result<u64, Errno>)
        ensures
            self.spec_node(inode) is None ==> r == Err::<u64, Errno>(Errno::NotFound) && final(buf)@
                == old(buf)@,
            self.spec_node(inode) is Some ==> ({
                let data = self.spec_node(inode)->0.data@;
                let n = spec_read_count(data, off as int, old(buf)@.len() as int);
                &&& n <= usize::MAX
                &&& r == Ok::<u64, Errno>(n as u64)
                &&& final(buf)@ == spec_read_data(data, off as int, old(buf)@.len() as int) + old(
                    buf,
                )@.subrange(n as int, old(buf)@.len() as int)
            }),
    {
        if inode < 1 || inode > self.nodes.len() as u64 {
            return Err(Errno::NotFound);
        }
        let idx = (inode - 1) as usize;
        match &self.nodes[idx] {
            None => Err(Errno::NotFound),
            Some(n) => {
                let (count, _eof) = read_bytes_at(n.data.as_slice(), off, buf);
                Ok(count)
            },
        }
    }
}

impl MemFs {
    /// Returns the filesystem's name.
    pub fn get_name(&self) -> (r: Vec<u8>)
        ensures
            r@ == crate::fs::tmpfs_name(),
    {
        crate::fs::name_tmpfs()
    }

    /// Files of an in-memory filesystem are their own cache.
    pub fn must_cache(&self) -> (r: bool)
        ensures
            r == false,
    {
        false
    }

    /// Returns statistics about the filesystem: no disk blocks, as many
    /// node slots as the table holds, a reserved zero filesystem id, and
    /// the read-only bit among the flags.
    pub fn get_stat(&self) -> (r: Result<Statfs, Errno>)
        ensures
            r is Ok,
            ({
                let s = r->Ok_0;
                &&& s.f_type == 0x01021994u32
                &&& s.f_bsize == 4096u32
                &&& s.f_blocks == 0i64
                &&& s.f_bfree == 0i64
                &&& s.f_bavail == 0i64
                &&& s.f_files == (if self.nodes@.len() > i64::MAX {
                    i64::MAX as int
                } else {
                    self.nodes@.len() as int
                })
                &&& s.f_ffree == 0i64
                &&& s.f_fsid == 0u64
                &&& s.f_namelen == 255u32
                &&& s.f_frsize == 4096u32
                &&& s.f_flags == (if self.readonly {
                    1u32
                } else {
                    0u32
                })
            }),
    {
        let files: i64 = if self.nodes.len() as u64 > i64::MAX as u64 {
            i64::MAX
        } else {
            self.nodes.len() as i64
        };
        Ok(
            Statfs {
                f_type: 0x01021994,
                f_bsize: 4096,
                f_blocks: 0,
                f_bfree: 0,
                f_bavail: 0,
                f_files: files,
                f_ffree: 0,
                f_fsid: 0,
                f_namelen: 255,
                f_frsize: 4096,
                f_flags: if self.readonly {
                    1
                } else {
                    0
                },
            },
        )
    }
}

impl Filesystem for MemFs {
    open spec fn inv(&self) -> bool {
        self.wf()
    }

    fn get_name(&self) -> (r: Vec<u8>) {
        MemFs::get_name(self)
    }

    fn is_readonly(&self) -> (r: bool) {
        MemFs::is_readonly(self)
    }

    fn must_cache(&self) -> (r: bool) {
        MemFs::must_cache(self)
    }

    fn get_stat(&self, _io: &mut Channel) -> (r: Result<Statfs, Errno>) {
        MemFs::get_stat(self)
    }

    fn get_root_inode(&self, _io: &mut Channel) -> (r: Result<INode, Errno>) {
        MemFs::get_root_inode(self)
    }

    fn get_inode(&mut self, _io: &mut Channel, parent: Option<INode>, name: &[u8]) -> (r: Result<
        INode,
        Errno,
    >) {
        MemFs::get_inode(self, parent, name)
    }

    fn load_file(&mut self, _io: &mut Channel, inode: INode, name: Vec<u8>) -> (r: Result<
        File,
        Errno,
    >) {
        MemFs::load_file(self, inode, name)
    }

    fn add_file(
        &mut self,
        _io: &mut Channel,
        parent_inode: INode,
        name: Vec<u8>,
        uid: Uid,
        gid: Gid,
        mode: Mode,
        content: FileContent,
    ) -> (r: Result<File, Errno>) {
        MemFs::add_file(self, parent_inode, name, uid, gid, mode, content)
    }

    fn add_link(&mut self, _io: &mut Channel, parent_inode: INode, name: &[u8], inode: INode) -> (r:
        Result<(), Errno>) {
        MemFs::add_link(self, parent_inode, name, inode)
    }

    fn update_inode(&mut self, _io: &mut Channel, file: &File) -> (r: Result<(), Errno>) {
        MemFs::update_inode(self, file)
    }

    fn remove_file(&mut self, _io: &mut Channel, parent_inode: INode, name: &[u8]) -> (r: Result<
        u16,
        Errno,
    >) {
        MemFs::remove_file(self, parent_inode, name)
    }

    fn read_node(&mut self, _io: &mut Channel, inode: INode, off: u64, buf: &mut Vec<u8>) -> (r:
        Result<u64, Errno>) {
        MemFs::read_node(self, inode, off, buf)
    }

    fn write_node(&mut self, _io: &mut Channel, inode: INode, off: u64, buf: &[u8]) -> (r: Result<
        (),
        Errno,
    >) {
        MemFs::write_node(self, inode, off, buf)
    }
}

/// A filesystem stays well-formed when at most one slot changed and that
/// slot's content, when present, is well-formed.
proof fn lemma_wf_frame(pre: MemFs, post: MemFs, changed: int)
    requires
        pre.wf(),
        post.nodes@.len() == pre.nodes@.len(),
        forall|k: int|
            0 <= k < pre.nodes@.len() && k != changed ==> post.nodes@[k] == pre.nodes@[k],
        0 <= changed < post.nodes@.len() && post.nodes@[changed] is Some
            ==> post.nodes@[changed]->0.content.wf(),
    ensures
        post.wf(),
{
    assert forall|i: int|
        0 <= i < post.nodes@.len() && post.nodes@[i] is Some implies (
    #[trigger] post.nodes@[i])->0.content.wf() by {
        if i != changed {
            assert(post.nodes@[i] == pre.nodes@[i]);
        }
    }
}

} // verus!
