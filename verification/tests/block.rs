//! Directory blocks: first-fit allocation and the size-sum invariant.

use vfs::block::DirBlock;
use vfs::dirent::{Superblock, REQUIRED_FEATURE_DIRECTORY_TYPE};
use vfs::file::FileType;

fn sum_of_sizes(block: &DirBlock) -> u64 {
    let mut sum: u64 = 0;
    for e in &block.entries {
        sum += e.get_total_size() as u64;
    }
    sum
}

fn sb() -> Superblock {
    Superblock { required_features: REQUIRED_FEATURE_DIRECTORY_TYPE }
}

#[test]
fn fresh_block_is_one_free_record() {
    let block = DirBlock::new(64);
    assert_eq!(block.entries.len(), 1);
    assert!(block.entries[0].is_free());
    assert_eq!(block.entries[0].get_total_size(), 64);
    assert_eq!(sum_of_sizes(&block), 64);
}

#[test]
fn first_fit_uses_free_record_then_splits_occupied() {
    let sb = sb();
    let mut block = DirBlock::new(64);
    // The free record is taken whole.
    let at = block.insert_entry(&sb, 10, FileType::Regular, b"a").unwrap();
    assert_eq!(at, 0);
    assert_eq!(block.entries.len(), 1);
    assert_eq!(block.entries[0].get_total_size(), 64);
    assert_eq!(block.entries[0].get_inode(), 10);
    assert_eq!(sum_of_sizes(&block), 64);
    // The occupied record has slack: the new entry is split off after it.
    let at = block.insert_entry(&sb, 11, FileType::Directory, b"b").unwrap();
    assert_eq!(at, 1);
    assert_eq!(block.entries.len(), 2);
    assert_eq!(block.entries[0].get_total_size(), 55);
    assert_eq!(block.entries[1].get_total_size(), 9);
    assert_eq!(block.entries[1].get_inode(), 11);
    assert_eq!(block.entries[1].get_name(&sb), b"b");
    assert_eq!(block.entries[1].get_type(&sb), Some(FileType::Directory));
    assert_eq!(sum_of_sizes(&block), 64);
}

#[test]
fn insert_reports_no_room() {
    let sb = sb();
    let mut block = DirBlock::new(32);
    block.insert_entry(&sb, 1, FileType::Regular, b"abcd").unwrap();
    // 28 spare bytes are not enough for a 16-byte record plus the reserve.
    assert_eq!(block.insert_entry(&sb, 2, FileType::Regular, b"efghijkl"), None);
    assert_eq!(sum_of_sizes(&block), 32);
}

#[test]
fn sum_invariant_holds_over_create_split_merge_sequences() {
    let sb = sb();
    let mut block = DirBlock::new(128);
    assert_eq!(sum_of_sizes(&block), 128);
    block.insert_entry(&sb, 1, FileType::Regular, b"one").unwrap();
    assert_eq!(sum_of_sizes(&block), 128);
    block.insert_entry(&sb, 2, FileType::Regular, b"two").unwrap();
    assert_eq!(sum_of_sizes(&block), 128);
    block.insert_entry(&sb, 3, FileType::Regular, b"three").unwrap();
    assert_eq!(sum_of_sizes(&block), 128);
    block.remove_entry(1);
    assert_eq!(sum_of_sizes(&block), 128);
    assert!(block.entries[1].is_free());
    block.remove_entry(2);
    assert_eq!(sum_of_sizes(&block), 128);
    // Two adjacent free records coalesce into one.
    let len_before = block.entries.len();
    block.coalesce(&sb, 1);
    assert_eq!(block.entries.len(), len_before - 1);
    assert!(block.entries[1].is_free());
    assert_eq!(sum_of_sizes(&block), 128);
    // First fit splits the first record with slack, before the free one.
    let at = block.insert_entry(&sb, 4, FileType::Regular, b"four").unwrap();
    assert_eq!(at, 1);
    assert_eq!(block.entries.len(), 3);
    assert_eq!(block.entries[1].get_inode(), 4);
    assert!(block.entries[2].is_free());
    assert_eq!(sum_of_sizes(&block), 128);
}
