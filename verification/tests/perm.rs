//! The permission model's truth table, including the root-bypass
//! exception for execute checks on regular files.

use vfs::file::{File, FileContent, FileLocation};
use vfs::perm::AccessProfile;

fn file_with(uid: u32, gid: u32, mode: u32, content: FileContent) -> File {
    File::new(b"f".to_vec(), uid, gid, mode, FileLocation::Virtual { id: 1 }, content, 0)
}

fn ids(uid: u32, gid: u32) -> AccessProfile {
    AccessProfile::new(uid, gid, uid, gid)
}

#[test]
fn owner_group_other_read_bits() {
    let f = file_with(1, 2, 0o400, FileContent::Regular);
    assert!(ids(1, 9).can_read_file(&f));
    assert!(!ids(3, 2).can_read_file(&f));
    assert!(!ids(3, 9).can_read_file(&f));
    let f = file_with(1, 2, 0o040, FileContent::Regular);
    assert!(!ids(1, 9).can_read_file(&f));
    assert!(ids(3, 2).can_read_file(&f));
    assert!(!ids(3, 9).can_read_file(&f));
    let f = file_with(1, 2, 0o004, FileContent::Regular);
    assert!(ids(3, 9).can_read_file(&f));
}

#[test]
fn owner_group_other_write_bits() {
    let f = file_with(1, 2, 0o200, FileContent::Regular);
    assert!(ids(1, 9).can_write_file(&f));
    assert!(!ids(3, 2).can_write_file(&f));
    let f = file_with(1, 2, 0o020, FileContent::Regular);
    assert!(ids(3, 2).can_write_file(&f));
    assert!(!ids(3, 9).can_write_file(&f));
    let f = file_with(1, 2, 0o002, FileContent::Regular);
    assert!(ids(3, 9).can_write_file(&f));
}

#[test]
fn owner_group_other_execute_bits() {
    let f = file_with(1, 2, 0o100, FileContent::Regular);
    assert!(ids(1, 9).can_execute_file(&f));
    assert!(!ids(3, 2).can_execute_file(&f));
    let f = file_with(1, 2, 0o010, FileContent::Regular);
    assert!(ids(3, 2).can_execute_file(&f));
    let f = file_with(1, 2, 0o001, FileContent::Regular);
    assert!(ids(3, 9).can_execute_file(&f));
}

#[test]
fn root_bypasses_read_and_write() {
    let f = file_with(1, 2, 0o000, FileContent::Regular);
    assert!(ids(0, 9).can_read_file(&f));
    assert!(ids(9, 0).can_read_file(&f));
    assert!(ids(0, 9).can_write_file(&f));
    assert!(ids(9, 0).can_write_file(&f));
}

#[test]
fn root_execute_bypass_denied_on_regular_files() {
    // A root-owned but non-executable regular file is not executable even
    // for the superuser.
    let plain = file_with(0, 0, 0o644, FileContent::Regular);
    assert!(!ids(0, 0).can_execute_file(&plain));
    // On a directory the bypass applies.
    let dir = file_with(1, 1, 0o000, FileContent::Directory(vfs::file::DirEntries::new()));
    assert!(ids(0, 0).can_execute_file(&dir));
    assert!(ids(0, 0).can_search_directory(&dir));
    // With an execute bit the regular file is executable for its owner.
    let script = file_with(0, 0, 0o744, FileContent::Regular);
    assert!(ids(0, 0).can_execute_file(&script));
}

#[test]
fn effective_and_real_identities_are_distinct() {
    let f = file_with(1, 1, 0o400, FileContent::Regular);
    // Real ids match the owner, effective ids do not.
    let p = AccessProfile::new(1, 1, 3, 3);
    assert!(p.check_read_access(&f, false));
    assert!(!p.check_read_access(&f, true));
    // The preferred general-purpose check uses the effective ids.
    assert!(!p.can_read_file(&f));
}

#[test]
fn directory_derived_checks() {
    let dir = file_with(1, 2, 0o700, FileContent::Directory(vfs::file::DirEntries::new()));
    assert!(ids(1, 9).can_list_directory(&dir));
    assert!(ids(1, 9).can_search_directory(&dir));
    assert!(ids(1, 9).can_write_directory(&dir));
    // Write without search is not enough to modify entries.
    let dir_wo = file_with(1, 2, 0o600, FileContent::Directory(vfs::file::DirEntries::new()));
    assert!(!ids(1, 9).can_write_directory(&dir_wo));
    // A foreign identity without any bit can do none of it.
    assert!(!ids(3, 9).can_list_directory(&dir));
    assert!(!ids(3, 9).can_search_directory(&dir));
}

#[test]
fn set_permissions_right_is_owner_or_root() {
    let f = file_with(5, 5, 0o644, FileContent::Regular);
    assert!(ids(5, 9).can_set_file_permissions(&f));
    assert!(ids(0, 9).can_set_file_permissions(&f));
    assert!(!ids(6, 5).can_set_file_permissions(&f));
}
