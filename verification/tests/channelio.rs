//! I/O dispatch by content kind: pipes, sockets, devices, and the kinds
//! that refuse byte I/O.

use vfs::channel::{Channel, ChannelKey, DeviceID, DeviceType};
use vfs::errno::Errno;
use vfs::file::{DirEntries, File, FileContent, FileLocation};
use vfs::vfs::init;

fn virtual_file(id: u32, content: FileContent) -> File {
    File::new(b"v".to_vec(), 0, 0, 0o666, FileLocation::Virtual { id }, content, 0)
}

#[test]
fn fifo_write_then_read_through_its_buffer() {
    let mut v = init(None).unwrap();
    let mut f = virtual_file(7, FileContent::Fifo);
    let written = f.write(&mut v, 0, b"pipe!").unwrap();
    assert_eq!(written, 5);
    let mut buf = vec![0u8; 5];
    let (count, eof) = f.read(&mut v, 0, &mut buf).unwrap();
    assert_eq!(count, 5);
    assert_eq!(&buf, b"pipe!");
    assert!(eof);
}

#[test]
fn socket_buffer_is_created_on_first_access() {
    let mut v = init(None).unwrap();
    let mut f = virtual_file(9, FileContent::Socket);
    let mut buf = vec![0u8; 4];
    // Nothing written yet: the fresh buffer is empty.
    let (count, eof) = f.read(&mut v, 0, &mut buf).unwrap();
    assert_eq!(count, 0);
    assert!(eof);
}

#[test]
fn device_io_needs_a_registered_device() {
    let mut v = init(None).unwrap();
    let mut f = virtual_file(3, FileContent::BlockDevice { major: 8, minor: 1 });
    let mut buf = vec![0u8; 4];
    assert_eq!(f.read(&mut v, 0, &mut buf).unwrap_err(), Errno::NoSuchDevice);
    assert_eq!(f.write(&mut v, 0, b"x").unwrap_err(), Errno::NoSuchDevice);
    assert_eq!(f.poll(&mut v, 5).unwrap_err(), Errno::NoSuchDevice);
    // Once the device subsystem registers a channel, I/O reaches it.
    let key = ChannelKey::Device(DeviceID { dev_type: DeviceType::Block, major: 8, minor: 1 });
    v.channels.register(key, Channel::new());
    assert_eq!(f.write(&mut v, 0, b"disk").unwrap(), 4);
    let mut buf = vec![0u8; 4];
    let (count, _eof) = f.read(&mut v, 0, &mut buf).unwrap();
    assert_eq!(count, 4);
    assert_eq!(&buf, b"disk");
    assert_eq!(f.poll(&mut v, 5).unwrap(), 5);
}

#[test]
fn char_device_dispatches_by_its_own_key() {
    let mut v = init(None).unwrap();
    let mut f = virtual_file(4, FileContent::CharDevice { major: 4, minor: 0 });
    let key = ChannelKey::Device(DeviceID { dev_type: DeviceType::Char, major: 4, minor: 0 });
    v.channels.register(key, Channel::from_bytes(b"tty".to_vec()));
    let mut buf = vec![0u8; 3];
    let (count, _eof) = f.read(&mut v, 0, &mut buf).unwrap();
    assert_eq!(count, 3);
    assert_eq!(&buf, b"tty");
}

#[test]
fn directories_and_links_refuse_byte_io() {
    let mut v = init(None).unwrap();
    let mut dir = virtual_file(5, FileContent::Directory(DirEntries::new()));
    let mut buf = vec![0u8; 1];
    assert_eq!(dir.read(&mut v, 0, &mut buf).unwrap_err(), Errno::IsADirectory);
    assert_eq!(dir.write(&mut v, 0, b"x").unwrap_err(), Errno::IsADirectory);
    assert_eq!(dir.poll(&mut v, 1).unwrap_err(), Errno::IsADirectory);
    let mut link = virtual_file(6, FileContent::Link(b"/target".to_vec()));
    assert_eq!(link.read(&mut v, 0, &mut buf).unwrap_err(), Errno::InvalidArgument);
    assert_eq!(link.write(&mut v, 0, b"x").unwrap_err(), Errno::InvalidArgument);
}

#[test]
fn virtual_regular_file_without_channel_reads_empty() {
    let mut v = init(None).unwrap();
    let mut f = virtual_file(8, FileContent::Regular);
    let mut buf = vec![9u8; 3];
    let (count, eof) = f.read(&mut v, 0, &mut buf).unwrap();
    assert_eq!(count, 0);
    assert!(eof);
    assert_eq!(f.poll(&mut v, 3).unwrap(), 0);
}

#[test]
fn missing_mount_is_an_io_fault() {
    let mut v = init(None).unwrap();
    let mut f = File::new(
        b"lost".to_vec(),
        0,
        0,
        0o644,
        FileLocation::Filesystem { mountpoint_id: 99, inode: 1 },
        FileContent::Regular,
        0,
    );
    let mut buf = vec![0u8; 1];
    assert_eq!(f.read(&mut v, 0, &mut buf).unwrap_err(), Errno::IOFault);
    assert_eq!(f.write(&mut v, 0, b"x").unwrap_err(), Errno::IOFault);
    assert_eq!(f.poll(&mut v, 1).unwrap_err(), Errno::IOFault);
}

#[test]
fn write_grows_channel_and_pads_gap_with_zeroes() {
    let mut v = init(None).unwrap();
    let mut f = virtual_file(11, FileContent::Fifo);
    f.write(&mut v, 3, b"ab").unwrap();
    assert_eq!(f.get_size(), 5);
    let mut buf = vec![9u8; 5];
    let (count, _eof) = f.read(&mut v, 0, &mut buf).unwrap();
    assert_eq!(count, 5);
    assert_eq!(&buf, &[0, 0, 0, b'a', b'b']);
}

#[test]
fn closing_a_deferred_virtual_file_releases_its_buffer() {
    let mut v = init(None).unwrap();
    let mut f = virtual_file(12, FileContent::Fifo);
    f.write(&mut v, 0, b"data").unwrap();
    f.defer_remove();
    let location = *f.get_location();
    f.close(&mut v).unwrap();
    assert!(v.channels.find(&ChannelKey::Location(location)).is_none());
}
