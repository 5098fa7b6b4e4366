//! End to end: an in-memory root, file creation, byte I/O, permission
//! gating, and deferred removal.

use vfs::errno::Errno;
use vfs::file::{FileContent, FileType};
use vfs::perm::AccessProfile;
use vfs::vfs::{create_file, init, is_init};

#[test]
fn init_mounts_in_memory_root() {
    let v = init(None).unwrap();
    assert!(is_init(&v));
    assert_eq!(v.mounts.mounts.len(), 1);
    assert_eq!(v.mounts.mounts[0].id, 0);
    assert_eq!(v.mounts.mounts[0].fs.is_readonly(), false);
}

#[test]
fn init_from_device_fails_without_a_device() {
    assert_eq!(init(Some((8, 1))).unwrap_err(), Errno::NoSuchDevice);
}

#[test]
fn write_then_read_round_trip_with_eof() {
    let mut v = init(None).unwrap();
    let mut f = v.mounts.mounts[0]
        .add_file(1, b"a".to_vec(), 1, 1, 0o644, FileContent::Regular)
        .unwrap();
    assert_eq!(f.get_type(), FileType::Regular);
    assert_eq!(f.get_uid(), 1);
    assert_eq!(f.get_gid(), 1);
    let payload = [7u8, 1, 2, 3, 4, 5, 6, 7, 8, 9];
    let written = f.write(&mut v, 0, &payload).unwrap();
    assert_eq!(written, 10);
    assert_eq!(f.get_size(), 10);
    let mut buf = vec![0u8; 10];
    let (count, eof) = f.read(&mut v, 0, &mut buf).unwrap();
    assert_eq!(count, 10);
    assert_eq!(buf, payload);
    // offset + length reaches the size: end of file.
    assert!(eof);
    // A shorter read from the middle is not at the end yet.
    let mut buf = vec![0u8; 4];
    let (count, eof) = f.read(&mut v, 2, &mut buf).unwrap();
    assert_eq!(count, 4);
    assert_eq!(buf, &payload[2..6]);
    assert!(!eof);
}

#[test]
fn read_permission_follows_identity() {
    let mut v = init(None).unwrap();
    let f = v.mounts.mounts[0]
        .add_file(1, b"a".to_vec(), 1, 1, 0o640, FileContent::Regular)
        .unwrap();
    // The owner may read; a foreign identity without the other bit may not.
    assert!(AccessProfile::new(1, 1, 1, 1).can_read_file(&f));
    assert!(!AccessProfile::new(2, 2, 2, 2).can_read_file(&f));
}

#[test]
fn create_file_is_gated_by_the_permission_model() {
    let mut v = init(None).unwrap();
    let root = v.mounts.mounts[0].load_file(1, Vec::new()).unwrap();
    // The root directory is 0o755: a foreign identity cannot write it.
    let outsider = AccessProfile::new(2, 2, 2, 2);
    let refused = create_file(&mut v, &root, &outsider, b"no".to_vec(), 0o644, FileContent::Regular);
    assert_eq!(refused.unwrap_err(), Errno::PermissionDenied);
    // The superuser can.
    let kernel = AccessProfile::kernel();
    let made = create_file(&mut v, &root, &kernel, b"yes".to_vec(), 0o644, FileContent::Regular);
    assert!(made.is_ok());
    assert!(v.mounts.mounts[0].get_inode(Some(1), b"yes").is_ok());
}

#[test]
fn lookup_load_and_stat() {
    let mut v = init(None).unwrap();
    v.mounts.mounts[0]
        .add_file(1, b"dir".to_vec(), 0, 0, 0o755, FileContent::Directory(vfs::file::DirEntries::new()))
        .unwrap();
    let inode = v.mounts.mounts[0].get_inode(Some(1), b"dir").unwrap();
    assert_eq!(inode, 2);
    let loaded = v.mounts.mounts[0].load_file(inode, b"dir".to_vec()).unwrap();
    assert_eq!(loaded.get_type(), FileType::Directory);
    assert!(loaded.is_empty_directory().unwrap());
    assert_eq!(v.mounts.mounts[0].get_inode(Some(1), b"gone").unwrap_err(), Errno::NotFound);
    assert_eq!(v.mounts.mounts[0].get_inode(Some(inode), b"x").unwrap_err(), Errno::NotFound);
    let stat = v.mounts.mounts[0].get_stat().unwrap();
    assert_eq!(stat.f_fsid, 0);
    assert_eq!(stat.f_namelen, 255);
}

#[test]
fn deferred_removal_happens_at_close() {
    let mut v = init(None).unwrap();
    let mut f = v.mounts.mounts[0]
        .add_file(1, b"doomed".to_vec(), 0, 0, 0o644, FileContent::Regular)
        .unwrap();
    f.defer_remove();
    f.close(&mut v).unwrap();
    assert!(f.removed);
    assert_eq!(v.mounts.mounts[0].get_inode(Some(1), b"doomed").unwrap_err(), Errno::NotFound);
    // The removed flag makes a repeated close a no-op.
    f.close(&mut v).unwrap();
}

#[test]
fn close_without_deferred_removal_leaves_the_file() {
    let mut v = init(None).unwrap();
    let mut f = v.mounts.mounts[0]
        .add_file(1, b"keep".to_vec(), 0, 0, 0o644, FileContent::Regular)
        .unwrap();
    f.close(&mut v).unwrap();
    assert!(!f.removed);
    assert!(v.mounts.mounts[0].get_inode(Some(1), b"keep").is_ok());
}

#[test]
fn hard_links_count_and_unlink_by_steps() {
    let mut v = init(None).unwrap();
    let f = v.mounts.mounts[0]
        .add_file(1, b"first".to_vec(), 0, 0, 0o644, FileContent::Regular)
        .unwrap();
    let inode = f.get_location().get_inode();
    v.mounts.mounts[0].add_link(1, b"second", inode).unwrap();
    let left = v.mounts.mounts[0].remove_file(1, b"first").unwrap();
    assert_eq!(left, 1);
    // The node stays reachable through the second link.
    assert_eq!(v.mounts.mounts[0].get_inode(Some(1), b"second").unwrap(), inode);
    let left = v.mounts.mounts[0].remove_file(1, b"second").unwrap();
    assert_eq!(left, 0);
    assert_eq!(
        v.mounts.mounts[0].load_file(inode, b"second".to_vec()).unwrap_err(),
        Errno::NotFound
    );
}

#[test]
fn update_inode_flushes_metadata() {
    let mut v = init(None).unwrap();
    let mut f = v.mounts.mounts[0]
        .add_file(1, b"meta".to_vec(), 1, 1, 0o644, FileContent::Regular)
        .unwrap();
    f.set_permissions(0o600, 99);
    f.set_uid(7, 100);
    f.sync(&mut v).unwrap();
    let reloaded = v.mounts.mounts[0].load_file(2, b"meta".to_vec()).unwrap();
    assert_eq!(reloaded.get_permissions(), 0o600);
    assert_eq!(reloaded.get_uid(), 7);
    assert_eq!(reloaded.ctime, 100);
}
