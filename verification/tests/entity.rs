//! The file entity: metadata accessors, directory bindings, and paths.

use vfs::errno::Errno;
use vfs::file::{DirEntries, DirEntry, File, FileContent, FileLocation, FileType};
use vfs::file::{S_IFDIR, S_IFREG};
use vfs::path::Path;

fn regular() -> File {
    File::new(
        b"r".to_vec(),
        1,
        2,
        0o640,
        FileLocation::Virtual { id: 1 },
        FileContent::Regular,
        42,
    )
}

fn directory() -> File {
    File::new(
        b"d".to_vec(),
        0,
        0,
        0o755,
        FileLocation::Filesystem { mountpoint_id: 0, inode: 2 },
        FileContent::Directory(DirEntries::new()),
        42,
    )
}

#[test]
fn new_file_starts_with_one_link_and_no_bytes() {
    let f = regular();
    assert_eq!(f.get_hard_links_count(), 1);
    assert_eq!(f.get_size(), 0);
    assert_eq!(f.get_uid(), 1);
    assert_eq!(f.get_gid(), 2);
    assert_eq!(f.ctime, 42);
    assert_eq!(f.mtime, 42);
    assert_eq!(f.atime, 42);
}

#[test]
fn mode_joins_kind_bits_and_permissions() {
    assert_eq!(regular().get_mode(), S_IFREG | 0o640);
    assert_eq!(directory().get_mode(), S_IFDIR | 0o755);
    assert_eq!(regular().get_permissions(), 0o640);
}

#[test]
fn metadata_setters_update_change_time() {
    let mut f = regular();
    f.set_permissions(0o7777 | 0o600, 50);
    assert_eq!(f.get_permissions(), 0o7777);
    assert_eq!(f.ctime, 50);
    f.set_uid(9, 51);
    assert_eq!(f.get_uid(), 9);
    assert_eq!(f.ctime, 51);
    f.set_gid(8, 52);
    assert_eq!(f.get_gid(), 8);
    assert_eq!(f.ctime, 52);
    f.set_hard_links_count(3, 53);
    assert_eq!(f.get_hard_links_count(), 3);
    assert_eq!(f.ctime, 53);
    // Setting the size leaves the timestamps alone.
    f.set_size(1000);
    assert_eq!(f.get_size(), 1000);
    assert_eq!(f.ctime, 53);
}

#[test]
fn directory_bindings_insert_lookup_remove() {
    let mut d = directory();
    assert!(d.is_empty_directory().unwrap());
    d.add_entry(b"child".to_vec(), DirEntry { inode: 5, entry_type: FileType::Regular }).unwrap();
    assert!(!d.is_empty_directory().unwrap());
    match d.get_content() {
        FileContent::Directory(entries) => {
            assert_eq!(entries.len(), 1);
            let e = entries.get(b"child").unwrap();
            assert_eq!(e.inode, 5);
            assert_eq!(e.entry_type, FileType::Regular);
            assert!(entries.get(b"other").is_none());
        },
        _ => panic!("directory content expected"),
    }
    // Rebinding a name replaces its entry without growing the map.
    d.add_entry(b"child".to_vec(), DirEntry { inode: 6, entry_type: FileType::Link }).unwrap();
    match d.get_content() {
        FileContent::Directory(entries) => {
            assert_eq!(entries.len(), 1);
            assert_eq!(entries.get(b"child").unwrap().inode, 6);
        },
        _ => panic!("directory content expected"),
    }
    d.remove_entry(b"child").unwrap();
    assert!(d.is_empty_directory().unwrap());
}

#[test]
fn non_directories_refuse_directory_operations() {
    let mut f = regular();
    assert_eq!(f.is_empty_directory().unwrap_err(), Errno::NotADirectory);
    assert_eq!(
        f.add_entry(b"x".to_vec(), DirEntry { inode: 1, entry_type: FileType::Regular })
            .unwrap_err(),
        Errno::NotADirectory
    );
    assert_eq!(f.remove_entry(b"x").unwrap_err(), Errno::NotADirectory);
}

#[test]
fn as_dir_entry_carries_node_and_kind() {
    let d = directory();
    let e = d.as_dir_entry();
    assert_eq!(e.inode, 2);
    assert_eq!(e.entry_type, FileType::Directory);
}

#[test]
fn file_path_appends_name_to_parent() {
    let mut f = regular();
    let mut parent = Path::root();
    parent.push(b"home".to_vec());
    f.set_parent_path(parent);
    let path = f.get_path();
    assert!(path.absolute);
    assert_eq!(path.parts.len(), 2);
    assert_eq!(path.parts[0], b"home".to_vec());
    assert_eq!(path.parts[1], b"r".to_vec());
    // A root file's empty name adds no component.
    let mut root_file = directory();
    root_file.name = Vec::new();
    assert_eq!(root_file.get_path().parts.len(), 0);
}

#[test]
fn locations_name_their_mount_and_node() {
    let on_fs = FileLocation::Filesystem { mountpoint_id: 3, inode: 17 };
    assert_eq!(on_fs.get_mountpoint_id(), Some(3));
    assert_eq!(on_fs.get_inode(), 17);
    let virt = FileLocation::Virtual { id: 9 };
    // A virtual location resolves to no mount point.
    assert_eq!(virt.get_mountpoint_id(), None);
    assert_eq!(virt.get_inode(), 9);
}

#[test]
fn content_clone_matches_original() {
    let mut entries = DirEntries::new();
    entries.insert(b"a".to_vec(), DirEntry { inode: 1, entry_type: FileType::Regular });
    let content = FileContent::Directory(entries);
    let copy = content.try_clone().unwrap();
    match (&content, &copy) {
        (FileContent::Directory(a), FileContent::Directory(b)) => {
            assert_eq!(a.len(), b.len());
            assert_eq!(b.get(b"a").unwrap().inode, 1);
        },
        _ => panic!("directory content expected"),
    }
    assert_eq!(content.as_type(), FileType::Directory);
    assert_eq!(copy.as_type(), FileType::Directory);
}
