//! The binary on-disk directory-entry codec.
//!
//! A directory entry is one record inside the data block of an on-disk
//! directory; it names one child and points to its node. The record layout
//! is little-endian and byte-packed:
//! `inode: u32, total_size: u16, name_len_lo: u8, name_len_hi_or_type: u8,`
//! followed by the name bytes. A record with inode 0 is free and may be
//! reused. Whether the fourth header byte holds the high bits of the name
//! length or an inline type code depends on a feature flag of the owning
//! filesystem, consulted on every read and write of these fields.

use vstd::bytes::*;
use vstd::prelude::*;
use vstd::slice::slice_subrange;

use crate::errno::Errno;
use crate::file::FileType;

verus! {

/// Feature flag: each directory entry stores an inline type code in place
/// of the high byte of its name length.
pub const REQUIRED_FEATURE_DIRECTORY_TYPE: u32 = 0x00000002;

/// Directory entry type indicator: unknown.
pub const TYPE_INDICATOR_UNKNOWN: u8 = 0;
/// Directory entry type indicator: regular file.
pub const TYPE_INDICATOR_REGULAR: u8 = 1;
/// Directory entry type indicator: directory.
pub const TYPE_INDICATOR_DIRECTORY: u8 = 2;
/// Directory entry type indicator: char device.
pub const TYPE_INDICATOR_CHAR_DEVICE: u8 = 3;
/// Directory entry type indicator: block device.
pub const TYPE_INDICATOR_BLOCK_DEVICE: u8 = 4;
/// Directory entry type indicator: FIFO.
pub const TYPE_INDICATOR_FIFO: u8 = 5;
/// Directory entry type indicator: socket.
pub const TYPE_INDICATOR_SOCKET: u8 = 6;
/// Directory entry type indicator: symbolic link.
pub const TYPE_INDICATOR_SYMLINK: u8 = 7;

/// The number of header bytes of a directory entry.
pub const DIRENT_HEADER_SIZE: u16 = 8;

/// The feature flags of the filesystem owning a directory entry, as far as
/// the codec needs them.
#[derive(Copy, Clone, Debug, PartialEq, Eq, Structural)]
pub struct Superblock {
    /// The filesystem's required feature bits.
    pub required_features: u32,
}

impl Superblock {
    /// Whether each directory entry carries an inline type code.
    pub open spec fn spec_has_type_indicator(self) -> bool {
        self.required_features & REQUIRED_FEATURE_DIRECTORY_TYPE != 0
    }

    /// Tells whether each directory entry carries an inline type code.
    pub fn has_type_indicator(&self) -> (r: bool)
        ensures
            r == self.spec_has_type_indicator(),
    {
        self.required_features & REQUIRED_FEATURE_DIRECTORY_TYPE != 0
    }
}

/// The file kind a type indicator code denotes, if any.
pub open spec fn spec_kind_of_indicator(code: u8) -> Option<FileType> {
    if code == TYPE_INDICATOR_REGULAR {
        Some(FileType::Regular)
    } else if code == TYPE_INDICATOR_DIRECTORY {
        Some(FileType::Directory)
    } else if code == TYPE_INDICATOR_CHAR_DEVICE {
        Some(FileType::CharDevice)
    } else if code == TYPE_INDICATOR_BLOCK_DEVICE {
        Some(FileType::BlockDevice)
    } else if code == TYPE_INDICATOR_FIFO {
        Some(FileType::Fifo)
    } else if code == TYPE_INDICATOR_SOCKET {
        Some(FileType::Socket)
    } else if code == TYPE_INDICATOR_SYMLINK {
        Some(FileType::Link)
    } else {
        None
    }
}

/// The type indicator code of a file kind.
pub open spec fn spec_indicator_of_kind(t: FileType) -> u8 {
    match t {
        FileType::Regular => TYPE_INDICATOR_REGULAR,
        FileType::Directory => TYPE_INDICATOR_DIRECTORY,
        FileType::CharDevice => TYPE_INDICATOR_CHAR_DEVICE,
        FileType::BlockDevice => TYPE_INDICATOR_BLOCK_DEVICE,
        FileType::Fifo => TYPE_INDICATOR_FIFO,
        FileType::Socket => TYPE_INDICATOR_SOCKET,
        FileType::Link => TYPE_INDICATOR_SYMLINK,
    }
}

/// Mapping a kind to its type indicator code and back yields the kind again.
pub proof fn lemma_kind_indicator_round_trip(t: FileType)
    ensures
        spec_kind_of_indicator(spec_indicator_of_kind(t)) == Some(t),
{
}

/// One on-disk directory entry: a fixed header and the name buffer that
/// fills the rest of the record's `total_size` bytes.
#[derive(Debug)]
pub struct DirectoryEntry {
    /// The node the entry points to; 0 marks the entry free.
    pub inode: u32,
    /// The total size of the record in bytes, header and name buffer.
    pub total_size: u16,
    /// Least-significant byte of the name length.
    pub name_length_lo: u8,
    /// Most-significant byte of the name length, or the inline type code
    /// when the owning filesystem's feature flag reserves it for that.
    pub name_length_hi: u8,
    /// The name buffer: the record's bytes past the header.
    pub name: Vec<u8>,
}

impl DirectoryEntry {
    /// The record is well-formed: the name buffer fills the record exactly.
    pub open spec fn wf(self) -> bool {
        &&& self.total_size >= DIRENT_HEADER_SIZE
        &&& self.name@.len() == self.total_size - DIRENT_HEADER_SIZE
    }

    /// The stored name length, read under the given feature flags.
    pub open spec fn spec_name_len(self, sb: Superblock) -> nat {
        if sb.spec_has_type_indicator() {
            self.name_length_lo as nat
        } else {
            self.name_length_hi as nat * 256 + self.name_length_lo as nat
        }
    }

    /// The stored name length does not run past the record.
    pub open spec fn name_ok(self, sb: Superblock) -> bool {
        self.spec_name_len(sb) + DIRENT_HEADER_SIZE <= self.total_size
    }

    /// The stored name, read under the given feature flags.
    pub open spec fn spec_name(self, sb: Superblock) -> Seq<u8> {
        self.name@.subrange(0, self.spec_name_len(sb) as int)
    }

    /// The stored type, read under the given feature flags: the inline code
    /// when the flag reserves a byte for it, absent otherwise.
    pub open spec fn spec_type(self, sb: Superblock) -> Option<FileType> {
        if sb.spec_has_type_indicator() {
            spec_kind_of_indicator(self.name_length_hi)
        } else {
            None
        }
    }

    /// The entry is free, usable for future allocation.
    pub open spec fn spec_is_free(self) -> bool {
        self.inode == 0
    }

    /// Creates a free, zero-initialized record of exactly `total_size`
    /// bytes.
    pub fn new_free(total_size: u16) -> (r: Self)
        requires
            total_size >= DIRENT_HEADER_SIZE,
        ensures
            r.wf(),
            r.inode == 0,
            r.total_size == total_size,
            r.name_length_lo == 0,
            r.name_length_hi == 0,
            r.name@ == Seq::new((total_size - DIRENT_HEADER_SIZE) as nat, |i: int| 0u8),
            r.spec_is_free(),
    {
        let buf_len = (total_size - DIRENT_HEADER_SIZE) as usize;
        let mut name: Vec<u8> = Vec::new();
        let mut i: usize = 0;
        while i < buf_len
            invariant
                i <= buf_len,
                name@ =~= Seq::new(i as nat, |j: int| 0u8),
            decreases buf_len - i,
        {
            name.push(0);
            i += 1;
        }
        proof {
            assert(name@ =~= Seq::new(buf_len as nat, |j: int| 0u8));
        }
        DirectoryEntry { inode: 0, total_size, name_length_lo: 0, name_length_hi: 0, name }
    }

    /// Returns the entry's inode.
    pub fn get_inode(&self) -> (r: u32)
        ensures
            r == self.inode,
    {
        self.inode
    }

    /// Sets the entry's inode; 0 sets the entry free.
    pub fn set_inode(&mut self, inode: u32)
        ensures
            *final(self) == (DirectoryEntry { inode, ..*old(self) }),
    {
        self.inode = inode;
    }

    /// Returns the total size of the record.
    pub fn get_total_size(&self) -> (r: u16)
        ensures
            r == self.total_size,
    {
        self.total_size
    }

    /// Tells whether the entry is free.
    pub fn is_free(&self) -> (r: bool)
        ensures
            r == self.spec_is_free(),
    {
        self.inode == 0
    }

    /// Returns the length of the entry's name under the given feature
    /// flags.
    pub fn get_name_length(&self, sb: &Superblock) -> (r: usize)
        ensures
            r == self.spec_name_len(*sb),
    {
        if sb.has_type_indicator() {
            self.name_length_lo as usize
        } else {
            (self.name_length_hi as usize) * 256 + (self.name_length_lo as usize)
        }
    }

    /// Returns the entry's name under the given feature flags.
    pub fn get_name(&self, sb: &Superblock) -> (r: &[u8])
        requires
            self.wf(),
            self.name_ok(*sb),
        ensures
            r@ == self.spec_name(*sb),
    {
        let name_length = self.get_name_length(sb);
        slice_subrange(self.name.as_slice(), 0, name_length)
    }

    /// Sets the name of the entry, truncated to the record's spare bytes
    /// when longer, and records its length under the given feature flags.
    pub fn set_name(&mut self, sb: &Superblock, name: &[u8])
        requires
            old(self).wf(),
        ensures
            final(self).wf(),
            final(self).inode == old(self).inode,
            final(self).total_size == old(self).total_size,
            final(self).name_ok(*sb),
            final(self).spec_type(*sb) == old(self).spec_type(*sb),
            ({
                let len = if name@.len() <= old(self).total_size - DIRENT_HEADER_SIZE {
                    name@.len() as int
                } else {
                    old(self).total_size - DIRENT_HEADER_SIZE
                };
                &&& final(self).name@ == name@.subrange(0, len) + old(self).name@.subrange(
                    len,
                    old(self).name@.len() as int,
                )
                &&& final(self).spec_name_len(*sb) == (if sb.spec_has_type_indicator() {
                    len % 256
                } else {
                    len
                })
                &&& final(self).spec_name(*sb) == name@.subrange(
                    0,
                    final(self).spec_name_len(*sb) as int,
                )
            }),
    {
        let avail = (self.total_size - DIRENT_HEADER_SIZE) as usize;
        let len = if name.len() <= avail {
            name.len()
        } else {
            avail
        };
        let mut i: usize = 0;
        while i < len
            invariant
                i <= len,
                len <= avail,
                avail == self.name@.len(),
                self.wf(),
                len <= name@.len(),
                self.inode == old(self).inode,
                self.total_size == old(self).total_size,
                self.name_length_lo == old(self).name_length_lo,
                self.name_length_hi == old(self).name_length_hi,
                old(self).name@.len() == self.name@.len(),
                forall|j: int| 0 <= j < i ==> self.name@[j] == name@[j],
                forall|j: int| i <= j < self.name@.len() ==> self.name@[j] == old(self).name@[j],
            decreases len - i,
        {
            self.name[i] = name[i];
            i += 1;
        }
        proof {
            assert(self.name@ =~= name@.subrange(0, len as int) + old(self).name@.subrange(
                len as int,
                old(self).name@.len() as int,
            ));
        }
        self.name_length_lo = (len % 256) as u8;
        if !sb.has_type_indicator() {
            self.name_length_hi = (len / 256) as u8;
        }
        proof {
            assert(final(self).spec_name(*sb) =~= name@.subrange(
                0,
                final(self).spec_name_len(*sb) as int,
            ));
        }
    }

    /// Returns the file kind stored in the entry, when the feature flag
    /// gives the entry an inline type code.
    pub fn get_type(&self, sb: &Superblock) -> (r: Option<FileType>)
        ensures
            r == self.spec_type(*sb),
    {
        if sb.has_type_indicator() {
            if self.name_length_hi == TYPE_INDICATOR_REGULAR {
                Some(FileType::Regular)
            } else if self.name_length_hi == TYPE_INDICATOR_DIRECTORY {
                Some(FileType::Directory)
            } else if self.name_length_hi == TYPE_INDICATOR_CHAR_DEVICE {
                Some(FileType::CharDevice)
            } else if self.name_length_hi == TYPE_INDICATOR_BLOCK_DEVICE {
                Some(FileType::BlockDevice)
            } else if self.name_length_hi == TYPE_INDICATOR_FIFO {
                Some(FileType::Fifo)
            } else if self.name_length_hi == TYPE_INDICATOR_SOCKET {
                Some(FileType::Socket)
            } else if self.name_length_hi == TYPE_INDICATOR_SYMLINK {
                Some(FileType::Link)
            } else {
                None
            }
        } else {
            None
        }
    }

    /// Stores the file kind in the entry, when the feature flag gives the
    /// entry an inline type code; does nothing otherwise.
    pub fn set_type(&mut self, sb: &Superblock, file_type: FileType)
        ensures
            final(self).inode == old(self).inode,
            final(self).total_size == old(self).total_size,
            final(self).name_length_lo == old(self).name_length_lo,
            final(self).name == old(self).name,
            final(self).name_length_hi == (if sb.spec_has_type_indicator() {
                spec_indicator_of_kind(file_type)
            } else {
                old(self).name_length_hi
            }),
            final(self).spec_type(*sb) == (if sb.spec_has_type_indicator() {
                Some(file_type)
            } else {
                None::<FileType>
            }),
    {
        if sb.has_type_indicator() {
            self.name_length_hi = match file_type {
                FileType::Regular => TYPE_INDICATOR_REGULAR,
                FileType::Directory => TYPE_INDICATOR_DIRECTORY,
                FileType::CharDevice => TYPE_INDICATOR_CHAR_DEVICE,
                FileType::BlockDevice => TYPE_INDICATOR_BLOCK_DEVICE,
                FileType::Fifo => TYPE_INDICATOR_FIFO,
                FileType::Socket => TYPE_INDICATOR_SOCKET,
                FileType::Link => TYPE_INDICATOR_SYMLINK,
            };
        }
    }

    /// Creates an occupied entry of exactly `total_size` bytes pointing to
    /// `inode`, carrying `name` and, when the feature flag asks for one,
    /// the inline type code of `file_type`.
    ///
    /// Fails with an invalid-argument error when `total_size` cannot hold
    /// the header and the whole name.
    pub fn new(sb: &Superblock, inode: u32, total_size: u16, file_type: FileType, name: &[u8]) -> (r:
        Result<Self, Errno>)
        ensures
            r is Err <==> (total_size as int) < DIRENT_HEADER_SIZE + name@.len(),
            r is Err ==> r == Err::<Self, Errno>(Errno::InvalidArgument),
            r is Ok ==> ({
                let e = r->Ok_0;
                &&& e.wf()
                &&& e.name_ok(*sb)
                &&& e.inode == inode
                &&& e.total_size == total_size
                &&& (e.spec_is_free() <==> inode == 0)
                &&& e.spec_name_len(*sb) == (if sb.spec_has_type_indicator() {
                    name@.len() % 256
                } else {
                    name@.len()
                })
                &&& e.spec_name(*sb) == name@.subrange(0, e.spec_name_len(*sb) as int)
                &&& (!sb.spec_has_type_indicator() || name@.len() <= 255) ==> e.spec_name(*sb)
                    == name@
                &&& e.spec_type(*sb) == (if sb.spec_has_type_indicator() {
                    Some(file_type)
                } else {
                    None::<FileType>
                })
            }),
    {
        if total_size < DIRENT_HEADER_SIZE || name.len() > (total_size - DIRENT_HEADER_SIZE)
            as usize {
            return Err(Errno::InvalidArgument);
        }
        let mut entry = Self::new_free(total_size);
        entry.set_inode(inode);
        entry.set_type(sb, file_type);
        entry.set_name(sb, name);
        proof {
            if !sb.spec_has_type_indicator() || name@.len() <= 255 {
                assert(entry.spec_name(*sb) =~= name@);
            }
        }
        Ok(entry)
    }

    /// Whether the entry may be split into itself and a second entry of
    /// `new_size` bytes: the entry's spare room past what it already uses
    /// (a free entry uses nothing, an occupied one its name's footprint)
    /// must hold at least `new_size` plus the minimum viable record
    /// footprint of sixteen bytes, reserved for the split-off entry so
    /// that no degenerate too-small entry can arise.
    pub open spec fn spec_may_split(self, sb: Superblock, new_size: u16) -> bool {
        if self.spec_is_free() {
            self.total_size >= 16 + new_size
        } else {
            self.total_size - self.spec_name_len(sb) >= 16 + new_size
        }
    }

    /// Tells whether the entry may be split to give a second entry of size
    /// `new_size`.
    pub fn may_split(&self, sb: &Superblock, new_size: u16) -> (r: bool)
        requires
            self.name_ok(*sb),
        ensures
            r == self.spec_may_split(*sb, new_size),
    {
        if self.is_free() {
            (self.total_size as u32) >= 16 + (new_size as u32)
        } else {
            (self.total_size as u32) - (self.get_name_length(sb) as u32) >= 16 + (new_size as u32)
        }
    }

    /// Splits the entry in two: shrinks the entry's total size by
    /// `new_size` and returns a new free entry of that size, which the
    /// caller must place immediately after the shrunk entry in its block.
    pub fn split(&mut self, new_size: u16) -> (r: Self)
        requires
            old(self).wf(),
            new_size >= DIRENT_HEADER_SIZE,
            new_size + DIRENT_HEADER_SIZE <= old(self).total_size,
        ensures
            final(self).wf(),
            final(self).inode == old(self).inode,
            final(self).total_size == old(self).total_size - new_size,
            final(self).name_length_lo == old(self).name_length_lo,
            final(self).name_length_hi == old(self).name_length_hi,
            final(self).name@ == old(self).name@.subrange(
                0,
                old(self).total_size - new_size - DIRENT_HEADER_SIZE,
            ),
            r.wf(),
            r.spec_is_free(),
            r.total_size == new_size,
            r.inode == 0,
            r.name_length_lo == 0,
            r.name_length_hi == 0,
    {
        self.total_size = self.total_size - new_size;
        self.name.truncate((self.total_size - DIRENT_HEADER_SIZE) as usize);
        DirectoryEntry::new_free(new_size)
    }

    /// The record's bytes in the on-disk layout: the little-endian header,
    /// then the name buffer.
    pub open spec fn spec_encode(self) -> Seq<u8> {
        spec_u32_to_le_bytes(self.inode) + spec_u16_to_le_bytes(self.total_size) + seq![
            self.name_length_lo,
            self.name_length_hi,
        ] + self.name@
    }

    /// Merges the entry with `entry`, which the caller must have found
    /// directly after it inside the same block: the entry's total size
    /// absorbs the whole following record, whose bytes become spare room.
    pub fn merge(&mut self, entry: Self)
        requires
            old(self).wf(),
            entry.wf(),
            old(self).total_size + entry.total_size <= u16::MAX,
        ensures
            final(self).wf(),
            final(self).inode == old(self).inode,
            final(self).total_size == old(self).total_size + entry.total_size,
            final(self).name_length_lo == old(self).name_length_lo,
            final(self).name_length_hi == old(self).name_length_hi,
            final(self).name@ == old(self).name@ + entry.spec_encode(),
    {
        proof {
            lemma_auto_spec_u32_to_from_le_bytes();
            lemma_auto_spec_u16_to_from_le_bytes();
        }
        self.total_size = self.total_size + entry.total_size;
        let mut absorbed = entry.encode();
        self.name.append(&mut absorbed);
    }

    /// Serializes the record to its on-disk bytes.
    pub fn encode(&self) -> (r: Vec<u8>)
        requires
            self.wf(),
        ensures
            r@ == self.spec_encode(),
            r@.len() == self.total_size,
    {
        proof {
            lemma_auto_spec_u32_to_from_le_bytes();
            lemma_auto_spec_u16_to_from_le_bytes();
        }
        let mut out = u32_to_le_bytes(self.inode);
        let mut total = u16_to_le_bytes(self.total_size);
        out.append(&mut total);
        out.push(self.name_length_lo);
        out.push(self.name_length_hi);
        let mut i: usize = 0;
        while i < self.name.len()
            invariant
                i <= self.name@.len(),
                out@ =~= spec_u32_to_le_bytes(self.inode) + spec_u16_to_le_bytes(self.total_size)
                    + seq![self.name_length_lo, self.name_length_hi] + self.name@.subrange(
                    0,
                    i as int,
                ),
            decreases self.name@.len() - i,
        {
            out.push(self.name[i]);
            i += 1;
        }
        proof {
            assert(self.name@.subrange(0, self.name@.len() as int) =~= self.name@);
            assert(out@ =~= self.spec_encode());
        }
        out
    }

    /// Deserializes a record from its on-disk bytes: the caller hands the
    /// record's exact byte range, whose length the total-size field must
    /// confirm.
    ///
    /// Fails with an invalid-argument error when the bytes are shorter
    /// than a header or the total-size field disagrees with their number.
    pub fn from_bytes(bytes: &[u8]) -> (r: Result<Self, Errno>)
        ensures
            r is Ok ==> ({
                let e = r->Ok_0;
                &&& e.wf()
                &&& e.spec_encode() == bytes@
                &&& e.total_size == bytes@.len()
            }),
            r is Err ==> r == Err::<Self, Errno>(Errno::InvalidArgument),
            r is Err <==> !(bytes@.len() >= DIRENT_HEADER_SIZE && spec_u16_from_le_bytes(
                bytes@.subrange(4, 6),
            ) == bytes@.len()),
    {
        proof {
            lemma_auto_spec_u32_to_from_le_bytes();
            lemma_auto_spec_u16_to_from_le_bytes();
        }
        if bytes.len() < DIRENT_HEADER_SIZE as usize {
            return Err(Errno::InvalidArgument);
        }
        if bytes.len() > u16::MAX as usize {
            proof {
                let s = bytes@.subrange(4, 6);
                assert(spec_u16_from_le_bytes(s) == spec_u16_from_le_bytes(s));
                assert(spec_u16_to_le_bytes(spec_u16_from_le_bytes(s)).len() == 2);
                assert(spec_u16_from_le_bytes(s) <= u16::MAX);
            }
            return Err(Errno::InvalidArgument);
        }
        let inode = u32_from_le_bytes(slice_subrange(bytes, 0, 4));
        let total_size = u16_from_le_bytes(slice_subrange(bytes, 4, 6));
        if total_size as usize != bytes.len() {
            return Err(Errno::InvalidArgument);
        }
        let name_length_lo = *vstd::slice::slice_index_get(bytes, 6);
        let name_length_hi = *vstd::slice::slice_index_get(bytes, 7);
        let name_slice = slice_subrange(bytes, 8, bytes.len());
        let name = vstd::slice::slice_to_vec(name_slice);
        let e = DirectoryEntry { inode, total_size, name_length_lo, name_length_hi, name };
        proof {
            assert(e.spec_encode() =~= bytes@);
        }
        Ok(e)
    }
}

/// Splitting an entry and merging the returned piece back restores the
/// original total size and the original occupied or free state. The
/// hypotheses are what `split` promises of the shrunk entry and the
/// split-off piece, and what `merge` promises of their reunion.
pub proof fn lemma_split_merge_round_trip(
    e: DirectoryEntry,
    shrunk: DirectoryEntry,
    piece: DirectoryEntry,
    merged: DirectoryEntry,
    new_size: u16,
)
    requires
        new_size + DIRENT_HEADER_SIZE <= e.total_size,
        shrunk.inode == e.inode,
        shrunk.total_size == e.total_size - new_size,
        piece.total_size == new_size,
        merged.inode == shrunk.inode,
        merged.total_size == shrunk.total_size + piece.total_size,
    ensures
        merged.total_size == e.total_size,
        merged.spec_is_free() <==> e.spec_is_free(),
{
}

} // verus!

