//! The backend-type registry: registration, lookup and auto-detection.

use vfs::channel::Channel;
use vfs::errno::Errno;
use vfs::fs::{FilesystemType, FsRegistry, FsTypeHandle};

fn channel_with_disk_signature() -> Channel {
    let mut data = vec![0u8; 1082];
    data[1080] = 0x53;
    data[1081] = 0xEF;
    Channel::from_bytes(data)
}

#[test]
fn register_defaults_registers_shipped_types() {
    let mut reg = FsRegistry::new();
    reg.register_defaults().unwrap();
    assert!(reg.get_type(b"ext2").is_some());
    assert!(reg.get_type(b"tmpfs").is_some());
    assert!(reg.get_type(b"procfs").is_some());
    assert!(reg.get_type(b"sysfs").is_none());
}

#[test]
fn register_rejects_taken_name() {
    let mut reg = FsRegistry::new();
    reg.register(FsTypeHandle::Tmpfs).unwrap();
    assert_eq!(reg.register(FsTypeHandle::Tmpfs), Err(Errno::AlreadyExists));
}

#[test]
fn unregister_removes_and_tolerates_absence() {
    let mut reg = FsRegistry::new();
    reg.register_defaults().unwrap();
    reg.unregister(b"procfs");
    assert!(reg.get_type(b"procfs").is_none());
    // Absent names are a no-op.
    reg.unregister(b"procfs");
    assert!(reg.get_type(b"tmpfs").is_some());
}

#[test]
fn detect_returns_first_matching_type() {
    // Two registered types where only the second's probe answers true.
    let mut reg = FsRegistry::new();
    reg.register(FsTypeHandle::Tmpfs).unwrap();
    reg.register(FsTypeHandle::Ext2).unwrap();
    let chan = channel_with_disk_signature();
    let found = reg.detect(&chan).unwrap();
    assert_eq!(found, FsTypeHandle::Ext2);
    assert_eq!(found.get_name(), b"ext2".to_vec());
}

#[test]
fn detect_without_match_is_no_such_device() {
    let mut reg = FsRegistry::new();
    reg.register_defaults().unwrap();
    let empty = Channel::new();
    assert_eq!(reg.detect(&empty), Err(Errno::NoSuchDevice));
    // Without the signature bytes, a large channel does not match either.
    let blank = Channel::from_bytes(vec![0u8; 4096]);
    assert_eq!(reg.detect(&blank), Err(Errno::NoSuchDevice));
}

#[test]
fn probes_answer_per_type() {
    let chan = channel_with_disk_signature();
    assert_eq!(FsTypeHandle::Ext2.detect(&chan), Ok(true));
    assert_eq!(FsTypeHandle::Tmpfs.detect(&chan), Ok(false));
    assert_eq!(FsTypeHandle::Procfs.detect(&chan), Ok(false));
    assert_eq!(FsTypeHandle::Ext2.detect(&Channel::new()), Ok(false));
}

#[test]
fn only_the_in_memory_backend_mounts_inside_the_core() {
    let chan = Channel::new();
    let mounted = FsTypeHandle::Tmpfs.load_filesystem(&chan, vfs::path::Path::root(), false);
    assert!(mounted.is_ok());
    let refused = FsTypeHandle::Ext2.load_filesystem(&chan, vfs::path::Path::root(), false);
    assert!(matches!(refused, Err(Errno::NotSupported)));
    let refused = FsTypeHandle::Procfs.load_filesystem(&chan, vfs::path::Path::root(), false);
    assert!(matches!(refused, Err(Errno::NotSupported)));
}
