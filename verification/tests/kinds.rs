//! File kinds and their mode-bit and directory-entry encodings.

use vfs::file::FileType;
use vfs::file::{DT_BLK, DT_CHR, DT_DIR, DT_FIFO, DT_LNK, DT_REG, DT_SOCK};
use vfs::file::{S_IFBLK, S_IFCHR, S_IFDIR, S_IFIFO, S_IFLNK, S_IFREG, S_IFSOCK};

const ALL_KINDS: [FileType; 7] = [
    FileType::Regular,
    FileType::Directory,
    FileType::Link,
    FileType::Fifo,
    FileType::Socket,
    FileType::BlockDevice,
    FileType::CharDevice,
];

#[test]
fn mode_round_trip_all_kinds() {
    for kind in ALL_KINDS {
        assert_eq!(FileType::from_mode(kind.to_mode()), Some(kind));
    }
}

#[test]
fn mode_patterns_exact() {
    assert_eq!(FileType::Regular.to_mode(), S_IFREG);
    assert_eq!(FileType::Directory.to_mode(), S_IFDIR);
    assert_eq!(FileType::Link.to_mode(), S_IFLNK);
    assert_eq!(FileType::Fifo.to_mode(), S_IFIFO);
    assert_eq!(FileType::Socket.to_mode(), S_IFSOCK);
    assert_eq!(FileType::BlockDevice.to_mode(), S_IFBLK);
    assert_eq!(FileType::CharDevice.to_mode(), S_IFCHR);
}

#[test]
fn from_mode_ignores_permission_bits() {
    assert_eq!(FileType::from_mode(S_IFREG | 0o644), Some(FileType::Regular));
    assert_eq!(FileType::from_mode(S_IFDIR | 0o755), Some(FileType::Directory));
}

#[test]
fn from_mode_zero_pattern_aliases_regular() {
    assert_eq!(FileType::from_mode(0), Some(FileType::Regular));
    assert_eq!(FileType::from_mode(0o644), Some(FileType::Regular));
}

#[test]
fn from_mode_rejects_unknown_pattern() {
    assert_eq!(FileType::from_mode(0o030000), None);
    assert_eq!(FileType::from_mode(0o770000), None);
}

#[test]
fn dirent_type_codes_exact() {
    assert_eq!(FileType::Regular.to_dirent_type(), DT_REG);
    assert_eq!(FileType::Directory.to_dirent_type(), DT_DIR);
    assert_eq!(FileType::Link.to_dirent_type(), DT_LNK);
    assert_eq!(FileType::Fifo.to_dirent_type(), DT_FIFO);
    assert_eq!(FileType::Socket.to_dirent_type(), DT_SOCK);
    assert_eq!(FileType::BlockDevice.to_dirent_type(), DT_BLK);
    assert_eq!(FileType::CharDevice.to_dirent_type(), DT_CHR);
}

#[test]
fn dirent_type_codes_distinct() {
    for a in ALL_KINDS {
        for b in ALL_KINDS {
            if a != b {
                assert_ne!(a.to_dirent_type(), b.to_dirent_type());
            }
        }
    }
}
