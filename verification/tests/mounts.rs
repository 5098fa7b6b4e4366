//! The mount table: creation by source, id assignment, and lookup.

use vfs::channel::{Channel, DeviceType};
use vfs::errno::Errno;
use vfs::file::FileContent;
use vfs::fs::FsRegistry;
use vfs::mount::{MountSource, MountTable, MOUNT_FLAG_RDONLY};
use vfs::path::Path;

fn ready_registry() -> FsRegistry {
    let mut reg = FsRegistry::new();
    reg.register_defaults().unwrap();
    reg
}

#[test]
fn mounts_get_consecutive_ids() {
    let reg = ready_registry();
    let mut table = MountTable::new();
    let a = table
        .create_mount(&reg, MountSource::NoDev(b"tmpfs".to_vec()), None, 0, Path::root(), Channel::new())
        .unwrap();
    let mut sub = Path::root();
    sub.push(b"tmp".to_vec());
    let b = table
        .create_mount(&reg, MountSource::NoDev(b"tmpfs".to_vec()), Some(a), 0, sub, Channel::new())
        .unwrap();
    assert_eq!(a, 0);
    assert_eq!(b, 1);
    assert_eq!(table.from_id(0), Some(0));
    assert_eq!(table.from_id(1), Some(1));
    assert_eq!(table.from_id(2), None);
}

#[test]
fn unknown_name_tag_is_no_such_device() {
    let reg = ready_registry();
    let mut table = MountTable::new();
    let r = table.create_mount(
        &reg,
        MountSource::NoDev(b"nothing".to_vec()),
        None,
        0,
        Path::root(),
        Channel::new(),
    );
    assert_eq!(r.unwrap_err(), Errno::NoSuchDevice);
    assert!(table.is_empty());
}

#[test]
fn device_source_probes_registered_types() {
    let reg = ready_registry();
    let mut table = MountTable::new();
    // A blank device matches no backend type.
    let blank = MountSource::Device { dev_type: DeviceType::Block, major: 8, minor: 0 };
    let r = table.create_mount(&reg, blank, None, 0, Path::root(), Channel::new());
    assert_eq!(r.unwrap_err(), Errno::NoSuchDevice);
    // A device carrying the on-disk signature is recognized, but the
    // on-disk driver lives outside this core.
    let mut data = vec![0u8; 1082];
    data[1080] = 0x53;
    data[1081] = 0xEF;
    let disk = MountSource::Device { dev_type: DeviceType::Block, major: 8, minor: 1 };
    let r = table.create_mount(&reg, disk, None, 0, Path::root(), Channel::from_bytes(data));
    assert_eq!(r.unwrap_err(), Errno::NotSupported);
}

#[test]
fn read_only_mount_rejects_writes() {
    let reg = ready_registry();
    let mut table = MountTable::new();
    let id = table
        .create_mount(
            &reg,
            MountSource::NoDev(b"tmpfs".to_vec()),
            None,
            MOUNT_FLAG_RDONLY,
            Path::root(),
            Channel::new(),
        )
        .unwrap();
    let idx = table.from_id(id).unwrap();
    assert!(table.mounts[idx].fs.is_readonly());
    let r = table.mounts[idx].add_file(1, b"x".to_vec(), 0, 0, 0o644, FileContent::Regular);
    assert_eq!(r.unwrap_err(), Errno::NotSupported);
    let r = table.mounts[idx].write_node(1, 0, b"y");
    assert_eq!(r.unwrap_err(), Errno::NotSupported);
}

#[test]
fn hard_links_to_directories_are_not_supported() {
    let reg = ready_registry();
    let mut table = MountTable::new();
    table
        .create_mount(&reg, MountSource::NoDev(b"tmpfs".to_vec()), None, 0, Path::root(), Channel::new())
        .unwrap();
    // Node 1 is the root directory itself.
    let r = table.mounts[0].add_link(1, b"loop", 1);
    assert_eq!(r.unwrap_err(), Errno::NotSupported);
}

#[test]
fn duplicate_names_in_one_directory_already_exist() {
    let reg = ready_registry();
    let mut table = MountTable::new();
    table
        .create_mount(&reg, MountSource::NoDev(b"tmpfs".to_vec()), None, 0, Path::root(), Channel::new())
        .unwrap();
    table.mounts[0].add_file(1, b"a".to_vec(), 0, 0, 0o644, FileContent::Regular).unwrap();
    let r = table.mounts[0].add_file(1, b"a".to_vec(), 0, 0, 0o644, FileContent::Regular);
    assert_eq!(r.unwrap_err(), Errno::AlreadyExists);
}
