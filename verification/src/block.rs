//! Directory blocks: fixed-size runs of directory entries, and the
//! first-fit allocation policy used to place a new entry in one.
//!
//! The records inside one block cover it exactly: the sum of their
//! total-size fields always equals the block size, with no gaps and no
//! overlaps. Every operation here preserves that invariant.

use vstd::prelude::*;

use crate::dirent::{DirectoryEntry, Superblock, DIRENT_HEADER_SIZE};
use crate::file::FileType;

verus! {

/// The sum of the total-size fields of a run of directory entries.
pub open spec fn sum_sizes(s: Seq<DirectoryEntry>) -> int
    decreases s.len(),
{
    if s.len() == 0 {
        0
    } else {
        s[0].total_size + sum_sizes(s.subrange(1, s.len() as int))
    }
}

/// Replacing one entry changes the sum by the difference of the sizes.
pub proof fn lemma_sum_update(s: Seq<DirectoryEntry>, i: int, v: DirectoryEntry)
    requires
        0 <= i < s.len(),
    ensures
        sum_sizes(s.update(i, v)) == sum_sizes(s) - s[i].total_size + v.total_size,
    decreases s.len(),
{
    if i == 0 {
        assert(s.update(0, v).subrange(1, s.len() as int) =~= s.subrange(1, s.len() as int));
    } else {
        assert(s.update(i, v).subrange(1, s.len() as int) =~= s.subrange(1, s.len() as int).update(
            i - 1,
            v,
        ));
        lemma_sum_update(s.subrange(1, s.len() as int), i - 1, v);
    }
}

/// Inserting an entry grows the sum by the entry's size.
pub proof fn lemma_sum_insert(s: Seq<DirectoryEntry>, i: int, v: DirectoryEntry)
    requires
        0 <= i <= s.len(),
    ensures
        sum_sizes(s.insert(i, v)) == sum_sizes(s) + v.total_size,
    decreases s.len(),
{
    if i == 0 {
        assert(s.insert(0, v)[0] == v);
        assert(s.insert(0, v).subrange(1, s.len() as int + 1) =~= s);
    } else {
        assert(s.insert(i, v)[0] == s[0]);
        assert(s.insert(i, v).subrange(1, s.len() as int + 1) =~= s.subrange(1, s.len() as int).insert(
            i - 1,
            v,
        ));
        lemma_sum_insert(s.subrange(1, s.len() as int), i - 1, v);
    }
}

/// Removing an entry shrinks the sum by the entry's size.
pub proof fn lemma_sum_remove(s: Seq<DirectoryEntry>, i: int)
    requires
        0 <= i < s.len(),
    ensures
        sum_sizes(s.remove(i)) == sum_sizes(s) - s[i].total_size,
    decreases s.len(),
{
    if i == 0 {
        assert(s.remove(0) =~= s.subrange(1, s.len() as int));
    } else {
        assert(s.remove(i)[0] == s[0]);
        assert(s.remove(i).subrange(1, s.len() - 1) =~= s.subrange(1, s.len() as int).remove(
            i - 1,
        ));
        lemma_sum_remove(s.subrange(1, s.len() as int), i - 1);
    }
}

/// Every entry's size is bounded by the sum.
pub proof fn lemma_sum_elem_le(s: Seq<DirectoryEntry>, i: int)
    requires
        0 <= i < s.len(),
    ensures
        s[i].total_size <= sum_sizes(s),
    decreases s.len(),
{
    if i == 0 {
        lemma_sum_nonneg(s.subrange(1, s.len() as int));
    } else {
        lemma_sum_elem_le(s.subrange(1, s.len() as int), i - 1);
    }
}

/// The sum of sizes is never negative.
pub proof fn lemma_sum_nonneg(s: Seq<DirectoryEntry>)
    ensures
        sum_sizes(s) >= 0,
    decreases s.len(),
{
    if s.len() > 0 {
        lemma_sum_nonneg(s.subrange(1, s.len() as int));
    }
}

/// Two adjacent entries together never exceed the sum.
pub proof fn lemma_sum_pair_le(s: Seq<DirectoryEntry>, i: int)
    requires
        0 <= i,
        i + 1 < s.len(),
    ensures
        s[i].total_size + s[i + 1].total_size <= sum_sizes(s),
    decreases s.len(),
{
    if i == 0 {
        lemma_sum_elem_le(s.subrange(1, s.len() as int), 0);
        lemma_sum_nonneg(s.subrange(1, s.len() as int));
        lemma_sum_remove(s.subrange(1, s.len() as int), 0);
        lemma_sum_nonneg(s.subrange(1, s.len() as int).remove(0));
    } else {
        lemma_sum_pair_le(s.subrange(1, s.len() as int), i - 1);
        lemma_sum_nonneg(s.subrange(1, s.len() as int));
    }
}

/// One data block of an on-disk directory, as a run of decoded records.
#[derive(Debug)]
pub struct DirBlock {
    /// The block's size in bytes.
    pub block_size: u16,
    /// The records, in block order: each sits directly after the one
    /// before it, and together they cover the block exactly.
    pub entries: Vec<DirectoryEntry>,
}

impl DirBlock {
    /// The block invariant: every record is well-formed, its stored name
    /// length stays inside it, and the total sizes sum to the block size
    /// exactly, leaving no gaps and no overlaps.
    pub open spec fn inv(self, sb: Superblock) -> bool {
        &&& forall|i: int|
            0 <= i < self.entries@.len() ==> (#[trigger] self.entries@[i]).wf()
                && self.entries@[i].name_ok(sb)
        &&& sum_sizes(self.entries@) == self.block_size
    }

    /// An entry fits a record of `rec_size` bytes: it is free and large
    /// enough, or occupied with enough trailing slack to split one off.
    pub open spec fn spec_fits(e: DirectoryEntry, sb: Superblock, rec_size: int) -> bool {
        if e.spec_is_free() {
            e.total_size >= rec_size
        } else {
            e.spec_may_split(sb, rec_size as u16)
        }
    }

    /// Creates a block of `block_size` bytes holding one free record that
    /// spans it whole.
    pub fn new(block_size: u16) -> (r: Self)
        requires
            block_size >= DIRENT_HEADER_SIZE,
        ensures
            forall|sb: Superblock| r.inv(sb),
            r.block_size == block_size,
            r.entries@.len() == 1,
            r.entries@[0].spec_is_free(),
            r.entries@[0].total_size == block_size,
    {
        let mut entries: Vec<DirectoryEntry> = Vec::new();
        entries.push(DirectoryEntry::new_free(block_size));
        let r = DirBlock { block_size, entries };
        proof {
            assert(r.entries@.subrange(1, 1) =~= Seq::<DirectoryEntry>::empty());
            assert forall|sb: Superblock| r.inv(sb) by {
                assert forall|i: int| 0 <= i < r.entries@.len() implies (
                #[trigger] r.entries@[i]).wf() && r.entries@[i].name_ok(sb) by {
                    assert(i == 0);
                    assert(r.entries@[0].spec_name_len(sb) == 0);
                }
                assert(sum_sizes(r.entries@) == r.entries@[0].total_size + sum_sizes(
                    r.entries@.subrange(1, 1),
                ));
                assert(sum_sizes(r.entries@.subrange(1, 1)) == 0);
            }
        }
        r
    }

    /// Inserts a new entry for `inode` with `name` into the block,
    /// following the first-fit policy: scan the records in block order and
    /// take the first free record large enough, or split the first
    /// occupied record with enough trailing slack. Returns the index of
    /// the new entry, or `None` when no record fits and a fresh block must
    /// be requested from the backend.
    pub fn insert_entry(&mut self, sb: &Superblock, inode: u32, file_type: FileType, name: &[u8]) -> (r:
        Option<usize>)
        requires
            old(self).inv(*sb),
            inode != 0,
            DIRENT_HEADER_SIZE + name@.len() <= u16::MAX,
        ensures
            final(self).inv(*sb),
            final(self).block_size == old(self).block_size,
            ({
                let rec_size = DIRENT_HEADER_SIZE + name@.len();
                match r {
                    None => {
                        &&& final(self).entries@ == old(self).entries@
                        &&& forall|k: int|
                            0 <= k < old(self).entries@.len() ==> !Self::spec_fits(
                                #[trigger] old(self).entries@[k],
                                *sb,
                                rec_size as int,
                            )
                    },
                    Some(idx) => {
                        let grew = final(self).entries@.len() == old(self).entries@.len() + 1;
                        let f = if grew {
                            idx - 1
                        } else {
                            idx as int
                        };
                        let e = final(self).entries@[idx as int];
                        &&& 0 <= f < old(self).entries@.len()
                        &&& idx < final(self).entries@.len()
                        &&& forall|k: int|
                            0 <= k < f ==> !Self::spec_fits(
                                #[trigger] old(self).entries@[k],
                                *sb,
                                rec_size as int,
                            )
                        &&& Self::spec_fits(old(self).entries@[f], *sb, rec_size as int)
                        &&& !e.spec_is_free()
                        &&& e.inode == inode
                        &&& e.spec_type(*sb) == (if sb.spec_has_type_indicator() {
                            Some(file_type)
                        } else {
                            None::<FileType>
                        })
                        &&& e.spec_name_len(*sb) == (if sb.spec_has_type_indicator() {
                            name@.len() % 256
                        } else {
                            name@.len()
                        })
                        &&& e.spec_name(*sb) == name@.subrange(0, e.spec_name_len(*sb) as int)
                        &&& ((!sb.spec_has_type_indicator() || name@.len() <= 255) ==> e.spec_name(
                            *sb,
                        ) == name@)
                        &&& (grew ==> {
                            &&& !old(self).entries@[f].spec_is_free()
                            &&& final(self).entries@ == old(self).entries@.update(
                                f,
                                final(self).entries@[f],
                            ).insert(f + 1, e)
                            &&& final(self).entries@[f].total_size == old(self).entries@[f].total_size
                                - rec_size
                            &&& e.total_size == rec_size
                        })
                        &&& (!grew ==> {
                            &&& old(self).entries@[f].spec_is_free()
                            &&& final(self).entries@ == old(self).entries@.update(f, e)
                            &&& e.total_size == old(self).entries@[f].total_size
                        })
                    },
                }
            }),
    {
        let rec_size: u16 = (name.len() + DIRENT_HEADER_SIZE as usize) as u16;
        let mut i: usize = 0;
        while i < self.entries.len()
            invariant
                self.entries@ == old(self).entries@,
                self.block_size == old(self).block_size,
                old(self).inv(*sb),
                inode != 0,
                rec_size == DIRENT_HEADER_SIZE + name@.len(),
                i <= self.entries@.len(),
                forall|k: int|
                    0 <= k < i ==> !Self::spec_fits(
                        #[trigger] self.entries@[k],
                        *sb,
                        rec_size as int,
                    ),
            decreases self.entries@.len() - i,
        {
            let is_free = self.entries[i].is_free();
            let ts = self.entries[i].get_total_size();
            if is_free && ts >= rec_size {
                let mut e = self.entries.remove(i);
                e.set_inode(inode);
                e.set_type(sb, file_type);
                e.set_name(sb, name);
                self.entries.insert(i, e);
                proof {
                    assert(self.entries@ =~= old(self).entries@.update(i as int, e));
                    lemma_sum_update(old(self).entries@, i as int, e);
                    assert forall|k: int| 0 <= k < self.entries@.len() implies (
                    #[trigger] self.entries@[k]).wf() && self.entries@[k].name_ok(*sb) by {
                        if k != i {
                            assert(self.entries@[k] == old(self).entries@[k]);
                        }
                    }
                }
                return Some(i);
            }
            let can_split = if !is_free {
                proof {
                    assert(self.entries@[i as int].name_ok(*sb));
                }
                self.entries[i].may_split(sb, rec_size)
            } else {
                false
            };
            if can_split {
                let mut cur = self.entries.remove(i);
                let ghost old_cur = cur;
                let mut piece = cur.split(rec_size);
                piece.set_inode(inode);
                piece.set_type(sb, file_type);
                piece.set_name(sb, name);
                self.entries.insert(i, cur);
                self.entries.insert(i + 1, piece);
                proof {
                    assert(self.entries@ =~= old(self).entries@.update(i as int, cur).insert(
                        i + 1,
                        piece,
                    ));
                    lemma_sum_update(old(self).entries@, i as int, cur);
                    lemma_sum_insert(old(self).entries@.update(i as int, cur), i + 1, piece);
                    assert(cur.name_ok(*sb));
                    assert forall|k: int| 0 <= k < self.entries@.len() implies (
                    #[trigger] self.entries@[k]).wf() && self.entries@[k].name_ok(*sb) by {
                        if k < i {
                            assert(self.entries@[k] == old(self).entries@[k]);
                        } else if k > i + 1 {
                            assert(self.entries@[k] == old(self).entries@[k - 1]);
                        }
                    }
                }
                return Some(i + 1);
            }
            proof {
                assert(!Self::spec_fits(self.entries@[i as int], *sb, rec_size as int));
            }
            i += 1;
        }
        None
    }

    /// Sets the entry at `index` free, leaving its record in place so that
    /// it may be reused or coalesced later.
    pub fn remove_entry(&mut self, index: usize)
        requires
            index < old(self).entries@.len(),
        ensures
            final(self).block_size == old(self).block_size,
            final(self).entries@ == old(self).entries@.update(
                index as int,
                final(self).entries@[index as int],
            ),
            final(self).entries@[index as int] == (DirectoryEntry {
                inode: 0,
                ..old(self).entries@[index as int]
            }),
            forall|sb: Superblock| old(self).inv(sb) ==> final(self).inv(sb),
    {
        let mut e = self.entries.remove(index);
        let ghost old_e = e;
        e.set_inode(0);
        self.entries.insert(index, e);
        proof {
            assert(self.entries@ =~= old(self).entries@.update(index as int, e));
            lemma_sum_update(old(self).entries@, index as int, e);
            assert forall|sb: Superblock| old(self).inv(sb) implies self.inv(sb) by {
                assert forall|k: int| 0 <= k < self.entries@.len() implies (
                #[trigger] self.entries@[k]).wf() && self.entries@[k].name_ok(sb) by {
                    if k != index {
                        assert(self.entries@[k] == old(self).entries@[k]);
                    } else {
                        assert(old(self).entries@[k].wf() && old(self).entries@[k].name_ok(sb));
                    }
                }
            }
        }
    }

    /// Coalesces the free entry at `index` with the free entry directly
    /// after it: the first record absorbs the second.
    pub fn coalesce(&mut self, sb: &Superblock, index: usize)
        requires
            old(self).inv(*sb),
            index + 1 < old(self).entries@.len(),
            old(self).entries@[index as int].spec_is_free(),
            old(self).entries@[index as int + 1].spec_is_free(),
        ensures
            final(self).inv(*sb),
            final(self).block_size == old(self).block_size,
            final(self).entries@.len() == old(self).entries@.len() - 1,
            final(self).entries@ == old(self).entries@.update(
                index as int,
                final(self).entries@[index as int],
            ).remove(index as int + 1),
            final(self).entries@[index as int].spec_is_free(),
            final(self).entries@[index as int].total_size == old(self).entries@[index as int].total_size
                + old(self).entries@[index as int + 1].total_size,
    {
        proof {
            lemma_sum_pair_le(old(self).entries@, index as int);
        }
        let n = self.entries.len();
        assert(index + 1 < n);
        let next = self.entries.remove(index + 1);
        let mut cur = self.entries.remove(index);
        cur.merge(next);
        self.entries.insert(index, cur);
        proof {
            assert(self.entries@ =~= old(self).entries@.update(index as int, cur).remove(
                index as int + 1,
            ));
            lemma_sum_update(old(self).entries@, index as int, cur);
            lemma_sum_remove(old(self).entries@.update(index as int, cur), index as int + 1);
            assert forall|k: int| 0 <= k < self.entries@.len() implies (
            #[trigger] self.entries@[k]).wf() && self.entries@[k].name_ok(*sb) by {
                if k < index {
                    assert(self.entries@[k] == old(self).entries@[k]);
                } else if k > index {
                    assert(self.entries@[k] == old(self).entries@[k + 1]);
                }
            }
        }
    }
}

} // verus!
