//! The on-disk directory-entry codec, under both feature-flag settings.

use vfs::dirent::{DirectoryEntry, Superblock, REQUIRED_FEATURE_DIRECTORY_TYPE};
use vfs::errno::Errno;
use vfs::file::FileType;

fn with_type_indicator() -> Superblock {
    Superblock { required_features: REQUIRED_FEATURE_DIRECTORY_TYPE }
}

fn without_type_indicator() -> Superblock {
    Superblock { required_features: 0 }
}

#[test]
fn create_preserves_name_and_type_with_indicator() {
    let sb = with_type_indicator();
    let e = DirectoryEntry::new(&sb, 5, 20, FileType::Directory, b"hello").unwrap();
    assert_eq!(e.get_inode(), 5);
    assert_eq!(e.get_total_size(), 20);
    assert_eq!(e.get_name(&sb), b"hello");
    assert_eq!(e.get_type(&sb), Some(FileType::Directory));
    assert!(!e.is_free());
}

#[test]
fn create_preserves_name_without_indicator() {
    let sb = without_type_indicator();
    let e = DirectoryEntry::new(&sb, 7, 16, FileType::Regular, b"file.txt").unwrap();
    assert_eq!(e.get_name(&sb), b"file.txt");
    assert_eq!(e.get_name_length(&sb), 8);
    // Without the feature flag no inline type code exists to read back.
    assert_eq!(e.get_type(&sb), None);
}

#[test]
fn create_rejects_record_too_small_for_name() {
    let sb = with_type_indicator();
    let r = DirectoryEntry::new(&sb, 1, 10, FileType::Regular, b"abc");
    assert_eq!(r.unwrap_err(), Errno::InvalidArgument);
    let r = DirectoryEntry::new(&sb, 1, 7, FileType::Regular, b"");
    assert_eq!(r.unwrap_err(), Errno::InvalidArgument);
}

#[test]
fn create_at_exact_size_succeeds() {
    let sb = with_type_indicator();
    let e = DirectoryEntry::new(&sb, 1, 11, FileType::Regular, b"abc").unwrap();
    assert_eq!(e.get_name(&sb), b"abc");
}

#[test]
fn long_name_length_spreads_over_two_fields_without_indicator() {
    let sb = without_type_indicator();
    let name = [b'x'; 300];
    let e = DirectoryEntry::new(&sb, 9, 308, FileType::Regular, &name).unwrap();
    assert_eq!(e.get_name_length(&sb), 300);
    assert_eq!(e.get_name(&sb), &name[..]);
}

#[test]
fn name_length_is_eight_bits_with_indicator() {
    // With the type indicator enabled the high length byte is gone: only
    // the low eight bits of the name length can be stored.
    let sb = with_type_indicator();
    let name = [b'y'; 260];
    let e = DirectoryEntry::new(&sb, 9, 268, FileType::Regular, &name).unwrap();
    assert_eq!(e.get_name_length(&sb), 260 % 256);
    assert_eq!(e.get_name(&sb), &name[..4]);
}

#[test]
fn set_name_truncates_to_record_space() {
    let sb = with_type_indicator();
    let mut e = DirectoryEntry::new_free(12);
    e.set_name(&sb, b"abcdefgh");
    // 12 bytes total leave 4 for the name.
    assert_eq!(e.get_name(&sb), b"abcd");
}

#[test]
fn set_inode_zero_frees_entry() {
    let sb = with_type_indicator();
    let mut e = DirectoryEntry::new(&sb, 3, 16, FileType::Regular, b"a").unwrap();
    assert!(!e.is_free());
    e.set_inode(0);
    assert!(e.is_free());
}

#[test]
fn split_then_merge_restores_size_and_state() {
    let sb = with_type_indicator();
    // A free entry.
    let mut free = DirectoryEntry::new_free(64);
    assert!(free.may_split(&sb, 16));
    let piece = free.split(16);
    assert_eq!(free.get_total_size(), 48);
    assert_eq!(piece.get_total_size(), 16);
    assert!(piece.is_free());
    free.merge(piece);
    assert_eq!(free.get_total_size(), 64);
    assert!(free.is_free());
    // An occupied entry.
    let mut used = DirectoryEntry::new(&sb, 2, 64, FileType::Regular, b"a").unwrap();
    assert!(used.may_split(&sb, 16));
    let piece = used.split(16);
    used.merge(piece);
    assert_eq!(used.get_total_size(), 64);
    assert!(!used.is_free());
    assert_eq!(used.get_inode(), 2);
    assert_eq!(used.get_name(&sb), b"a");
}

#[test]
fn may_split_respects_minimum_footprint() {
    let sb = with_type_indicator();
    // A free entry's spare room is its whole size: at least n + 16 of it
    // must be there for a split of n bytes.
    let free = DirectoryEntry::new_free(32);
    assert!(free.may_split(&sb, 16));
    assert!(!free.may_split(&sb, 17));
    // An occupied entry spares its size minus its name's footprint:
    // 32 - 4 = 28 spare, enough for n + 16 only while n <= 12.
    let used = DirectoryEntry::new(&sb, 2, 32, FileType::Regular, b"abcd").unwrap();
    assert!(used.may_split(&sb, 12));
    assert!(!used.may_split(&sb, 13));
}

#[test]
fn encode_layout_is_little_endian_and_packed() {
    let sb = with_type_indicator();
    let e = DirectoryEntry::new(&sb, 0x01020304, 11, FileType::Directory, b"abc").unwrap();
    let bytes = e.encode();
    assert_eq!(bytes.len(), 11);
    assert_eq!(&bytes[0..4], &[0x04, 0x03, 0x02, 0x01]);
    assert_eq!(&bytes[4..6], &[11, 0]);
    assert_eq!(bytes[6], 3); // name length
    assert_eq!(bytes[7], 2); // type indicator: directory
    assert_eq!(&bytes[8..11], b"abc");
}

#[test]
fn encode_decode_round_trip() {
    let sb = without_type_indicator();
    let e = DirectoryEntry::new(&sb, 42, 24, FileType::Regular, b"roundtrip").unwrap();
    let bytes = e.encode();
    let d = DirectoryEntry::from_bytes(&bytes).unwrap();
    assert_eq!(d.get_inode(), 42);
    assert_eq!(d.get_total_size(), 24);
    assert_eq!(d.get_name(&sb), b"roundtrip");
    assert_eq!(d.encode(), bytes);
}

#[test]
fn decode_rejects_malformed_bytes() {
    assert_eq!(DirectoryEntry::from_bytes(&[0; 4]).unwrap_err(), Errno::InvalidArgument);
    // total-size field disagreeing with the byte count.
    let sb = with_type_indicator();
    let e = DirectoryEntry::new(&sb, 1, 12, FileType::Regular, b"abcd").unwrap();
    let mut bytes = e.encode();
    bytes.push(0);
    assert_eq!(DirectoryEntry::from_bytes(&bytes).unwrap_err(), Errno::InvalidArgument);
}
