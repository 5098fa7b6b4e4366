//! Byte-oriented I/O channels.
//!
//! A channel is the byte-oriented capability the core consumes from the
//! collaborators around it: the storage under a mount, a pipe or socket
//! buffer, a device. Here a channel is backed by memory; the core never
//! looks further than this interface.

use vstd::prelude::*;

use crate::file::FileLocation;

verus! {

/// What a channel's bytes are after writing `buf` at `off`: the old bytes
/// under the write keep their places, the written range takes `buf`, and
/// any gap between the old end and `off` reads as zeroes.
pub open spec fn spec_write(data: Seq<u8>, off: int, buf: Seq<u8>) -> Seq<u8> {
    let newlen = if data.len() >= off + buf.len() {
        data.len() as int
    } else {
        off + buf.len()
    };
    Seq::new(
        newlen as nat,
        |i: int|
            if off <= i < off + buf.len() {
                buf[i - off]
            } else if i < data.len() {
                data[i]
            } else {
                0u8
            },
    )
}

/// How many bytes a read of `n` bytes at `off` from `data` transfers.
pub open spec fn spec_read_count(data: Seq<u8>, off: int, n: int) -> int {
    if off >= data.len() {
        0
    } else if n <= data.len() - off {
        n
    } else {
        data.len() - off
    }
}

/// The bytes a read of `n` bytes at `off` from `data` transfers.
pub open spec fn spec_read_data(data: Seq<u8>, off: int, n: int) -> Seq<u8> {
    if off >= data.len() {
        Seq::<u8>::empty()
    } else {
        data.subrange(off, off + spec_read_count(data, off, n))
    }
}

/// Reads at most `buf.len()` bytes at offset `off` from `data` into the
/// front of `buf`. Returns the number of bytes transferred and whether the
/// end of the data was reached.
pub fn read_bytes_at(data: &[u8], off: u64, buf: &mut Vec<u8>) -> (r: (u64, bool))
    ensures
        ({
            let n = spec_read_count(data@, off as int, old(buf)@.len() as int);
            &&& n <= usize::MAX
            &&& r.0 == n
            &&& r.1 == (off + n >= data@.len())
            &&& final(buf)@.len() == old(buf)@.len()
            &&& final(buf)@ == spec_read_data(data@, off as int, old(buf)@.len() as int) + old(
                buf,
            )@.subrange(n as int, old(buf)@.len() as int)
        }),
{
    let len: usize = data.len();
    if off >= len as u64 {
        proof {
            assert(final(buf)@ =~= spec_read_data(data@, off as int, old(buf)@.len() as int) + old(
                buf,
            )@.subrange(0, old(buf)@.len() as int));
        }
        return (0, true);
    }
    let off_us = off as usize;
    let avail = len - off_us;
    let n = if buf.len() <= avail {
        buf.len()
    } else {
        avail
    };
    let mut i: usize = 0;
    while i < n
        invariant
            i <= n,
            n <= old(buf)@.len(),
            off_us == off,
            off_us + n <= data@.len(),
            data@.len() <= usize::MAX,
            buf@.len() == old(buf)@.len(),
            forall|k: int| 0 <= k < i ==> buf@[k] == data@[off_us + k],
            forall|k: int| i <= k < buf@.len() ==> buf@[k] == old(buf)@[k],
        decreases n - i,
    {
        buf[i] = data[i + off_us];
        i += 1;
    }
    proof {
        assert(buf@ =~= spec_read_data(data@, off as int, old(buf)@.len() as int) + old(
            buf,
        )@.subrange(n as int, old(buf)@.len() as int));
    }
    (n as u64, off + (n as u64) >= len as u64)
}

/// Writes `buf` at offset `off` into `data`, growing it when the write
/// runs past its end; a gap between the old end and `off` reads as zeroes.
/// Returns the number of bytes transferred, which is all of them.
pub fn write_bytes_at(data: &mut Vec<u8>, off: u64, buf: &[u8]) -> (r: u64)
    requires
        off + buf@.len() <= usize::MAX,
    ensures
        r == buf@.len(),
        final(data)@ == spec_write(old(data)@, off as int, buf@),
{
    let off_us = off as usize;
    while data.len() < off_us
        invariant
            data@.len() <= off_us || data@.len() == old(data)@.len(),
            data@.len() >= old(data)@.len(),
            data@.subrange(0, old(data)@.len() as int) == old(data)@,
            forall|k: int| old(data)@.len() <= k < data@.len() ==> data@[k] == 0u8,
        decreases off_us - data@.len(),
    {
        data.push(0);
        proof {
            assert(data@.subrange(0, old(data)@.len() as int) =~= old(data)@);
        }
    }
    let ghost padded = data@;
    let mut i: usize = 0;
    while i < buf.len()
        invariant
            i <= buf@.len(),
            off_us + buf@.len() <= usize::MAX,
            padded.len() >= off_us,
            data@.len() == (if padded.len() >= off_us + i {
                padded.len() as int
            } else {
                off_us + i
            }),
            forall|k: int| 0 <= k < i ==> data@[off_us + k] == buf@[k],
            forall|k: int| 0 <= k < off_us ==> data@[k] == padded[k],
            forall|k: int| off_us + i <= k < data@.len() ==> data@[k] == padded[k],
        decreases buf@.len() - i,
    {
        if off_us + i < data.len() {
            data[off_us + i] = buf[i];
        } else {
            data.push(buf[i]);
        }
        i += 1;
    }
    proof {
        let fin = data@;
        let target = spec_write(old(data)@, off as int, buf@);
        assert(fin.len() == target.len());
        assert forall|k: int| 0 <= k < fin.len() implies fin[k] == target[k] by {
            if off <= k < off + buf@.len() {
            } else {
                assert(fin[k] == padded[k]);
                if k < old(data)@.len() {
                    assert(padded.subrange(0, old(data)@.len() as int)[k] == old(data)@[k]);
                }
            }
        }
        assert(fin =~= target);
    }
    buf.len() as u64
}

/// A byte-oriented I/O channel backed by memory.
#[derive(Debug)]
pub struct Channel {
    /// The channel's bytes.
    pub data: Vec<u8>,
}

impl Channel {
    /// Creates an empty channel.
    pub fn new() -> (r: Self)
        ensures
            r.data@ == Seq::<u8>::empty(),
    {
        let r = Channel { data: Vec::new() };
        proof {
            assert(r.data@ =~= Seq::<u8>::empty());
        }
        r
    }

    /// Creates a channel holding the given bytes.
    pub fn from_bytes(data: Vec<u8>) -> (r: Self)
        ensures
            r.data@ == data@,
    {
        Channel { data }
    }

    /// The number of bytes the channel holds.
    pub fn get_size(&self) -> (r: u64)
        requires
            self.data@.len() <= u64::MAX,
        ensures
            r == self.data@.len(),
    {
        self.data.len() as u64
    }

    /// Reads at most `buf.len()` bytes at offset `off` into the front of
    /// `buf`. Returns the number of bytes transferred and whether the end
    /// of the channel was reached.
    pub fn read(&self, off: u64, buf: &mut Vec<u8>) -> (r: (u64, bool))
        ensures
            ({
                let n = spec_read_count(self.data@, off as int, old(buf)@.len() as int);
                &&& r.0 == n
                &&& r.1 == (off + n >= self.data@.len())
                &&& final(buf)@.len() == old(buf)@.len()
                &&& final(buf)@ == spec_read_data(self.data@, off as int, old(buf)@.len() as int)
                    + old(buf)@.subrange(n as int, old(buf)@.len() as int)
            }),
    {
        read_bytes_at(self.data.as_slice(), off, buf)
    }

    /// Writes `buf` at offset `off`, growing the channel when the write
    /// runs past its end; a gap between the old end and `off` reads as
    /// zeroes. Returns the number of bytes transferred, which is all of
    /// them.
    pub fn write(&mut self, off: u64, buf: &[u8]) -> (r: u64)
        requires
            off + buf@.len() <= usize::MAX,
        ensures
            r == buf@.len(),
            final(self).data@ == spec_write(old(self).data@, off as int, buf@),
    {
        write_bytes_at(&mut self.data, off, buf)
    }

    /// Answers a poll: an in-memory channel is always ready for what the
    /// mask asks.
    pub fn poll(&self, mask: u32) -> (r: u32)
        ensures
            r == mask,
    {
        mask
    }
}

/// Which collaborator a non-persistent channel belongs to.
#[derive(Copy, Clone, Debug, Eq, PartialEq, Structural)]
pub enum ChannelKey {
    /// The pipe or socket buffer serving a file location.
    Location(FileLocation),
    /// A device, by its kind and numbers.
    Device(DeviceID),
}

/// The kind of a device.
#[derive(Copy, Clone, Debug, Eq, PartialEq, Structural)]
pub enum DeviceType {
    /// A block device.
    Block,
    /// A character device.
    Char,
}

/// What identifies one device.
#[derive(Copy, Clone, Debug, Eq, PartialEq, Structural)]
pub struct DeviceID {
    /// The device's kind.
    pub dev_type: DeviceType,
    /// The device's major number.
    pub major: u32,
    /// The device's minor number.
    pub minor: u32,
}

/// The channels the core reaches by key: the buffer subsystem's pipe and
/// socket buffers, created on first access, and the device subsystem's
/// registered devices.
#[derive(Debug)]
pub struct ChannelTable {
    /// The channels, keyed uniquely.
    pub entries: Vec<(ChannelKey, Channel)>,
}

impl ChannelTable {
    /// No two channels share a key.
    pub open spec fn wf(self) -> bool {
        forall|i: int, j: int|
            0 <= i < j < self.entries@.len() ==> self.entries@[i].0 != self.entries@[j].0
    }

    /// The key is present in the table.
    pub open spec fn spec_contains(self, key: ChannelKey) -> bool {
        exists|i: int| 0 <= i < self.entries@.len() && self.entries@[i].0 == key
    }

    /// The index at which the key's channel sits.
    pub open spec fn spec_index_of(self, key: ChannelKey) -> int {
        choose|i: int| 0 <= i < self.entries@.len() && self.entries@[i].0 == key
    }

    /// The bytes of the key's channel, or no bytes when the key is
    /// absent.
    pub open spec fn spec_contents(self, key: ChannelKey) -> Seq<u8> {
        if self.spec_contains(key) {
            self.entries@[self.spec_index_of(key)].1.data@
        } else {
            Seq::<u8>::empty()
        }
    }

    /// Creates an empty table.
    pub fn new() -> (r: Self)
        ensures
            r.wf(),
            r.entries@.len() == 0,
    {
        ChannelTable { entries: Vec::new() }
    }

    /// Returns the index of the key's channel, if the key is present.
    pub fn find(&self, key: &ChannelKey) -> (r: Option<usize>)
        requires
            self.wf(),
        ensures
            r is Some <==> self.spec_contains(*key),
            r is Some ==> r->0 == self.spec_index_of(*key) && self.entries@[r->0 as int].0 == *key,
    {
        let mut i: usize = 0;
        while i < self.entries.len()
            invariant
                self.wf(),
                i <= self.entries@.len(),
                forall|k: int| 0 <= k < i ==> self.entries@[k].0 != *key,
            decreases self.entries@.len() - i,
        {
            if self.entries[i].0 == *key {
                proof {
                    assert(self.spec_contains(*key));
                    let j = self.spec_index_of(*key);
                    assert(self.entries@[j].0 == *key);
                    assert(j == i);
                }
                return Some(i);
            }
            i += 1;
        }
        None
    }

    /// Returns the index of the key's channel, adding an empty channel
    /// under the key first when it is absent.
    pub fn ensure(&mut self, key: &ChannelKey) -> (r: usize)
        requires
            old(self).wf(),
        ensures
            final(self).wf(),
            final(self).spec_contains(*key),
            r == final(self).spec_index_of(*key),
            final(self).entries@[r as int].0 == *key,
            old(self).spec_contains(*key) ==> final(self).entries@ == old(self).entries@,
            !old(self).spec_contains(*key) ==> final(self).entries@ == old(self).entries@.push(
                (*key, Channel { data: final(self).entries@[r as int].1.data }),
            ) && final(self).spec_contents(*key) == Seq::<u8>::empty(),
            forall|other: ChannelKey|
                other != *key ==> final(self).spec_contents(other) == old(self).spec_contents(
                    other,
                ) && (final(self).spec_contains(other) <==> old(self).spec_contains(other)),
    {
        let found = self.find(key);
        match found {
            Some(i) => {
                proof {
                    lemma_contents_frame(*self, *self, *key);
                }
                i
            },
            None => {
                let idx = self.entries.len();
                self.entries.push((*key, Channel::new()));
                proof {
                    assert(self.entries@[idx as int].0 == *key);
                    assert(self.wf());
                    let j = self.spec_index_of(*key);
                    assert(self.entries@[j].0 == *key);
                    assert(j == idx);
                    assert(self.entries@ =~= old(self).entries@.push(
                        (*key, Channel { data: self.entries@[idx as int].1.data }),
                    ));
                    assert(self.spec_contents(*key) =~= Seq::<u8>::empty());
                    assert forall|other: ChannelKey| other != *key implies self.spec_contents(other)
                        == old(self).spec_contents(other) && (self.spec_contains(other)
                        <==> old(self).spec_contains(other)) by {
                        if old(self).spec_contains(other) {
                            let j = old(self).spec_index_of(other);
                            assert(self.entries@[j].0 == other);
                            assert(self.spec_index_of(other) == j);
                        } else {
                            if self.spec_contains(other) {
                                let j = self.spec_index_of(other);
                                assert(j == idx);
                            }
                        }
                    }
                }
                idx
            },
        }
    }

    /// Reads from the key's channel as [`Channel::read`] does, adding an
    /// empty channel first when the key is absent.
    pub fn read_at(&mut self, key: &ChannelKey, off: u64, buf: &mut Vec<u8>) -> (r: (u64, bool))
        requires
            old(self).wf(),
        ensures
            final(self).wf(),
            ({
                let data = old(self).spec_contents(*key);
                let n = spec_read_count(data, off as int, old(buf)@.len() as int);
                &&& r.0 == n
                &&& r.1 == (off + n >= data.len())
                &&& final(buf)@ == spec_read_data(data, off as int, old(buf)@.len() as int) + old(
                    buf,
                )@.subrange(n as int, old(buf)@.len() as int)
            }),
            final(self).spec_contents(*key) == old(self).spec_contents(*key),
            forall|other: ChannelKey|
                other != *key ==> final(self).spec_contents(other) == old(self).spec_contents(
                    other,
                ),
    {
        let idx = self.ensure(key);
        let r = self.entries[idx].1.read(off, buf);
        proof {
            if !old(self).spec_contains(*key) {
                assert(old(self).spec_contents(*key) =~= self.spec_contents(*key));
            }
        }
        r
    }

    /// Writes to the key's channel as [`Channel::write`] does, adding an
    /// empty channel first when the key is absent.
    pub fn write_at(&mut self, key: &ChannelKey, off: u64, buf: &[u8]) -> (r: u64)
        requires
            old(self).wf(),
            off + buf@.len() <= usize::MAX,
        ensures
            final(self).wf(),
            r == buf@.len(),
            final(self).spec_contents(*key) == spec_write(
                old(self).spec_contents(*key),
                off as int,
                buf@,
            ),
            forall|other: ChannelKey|
                other != *key ==> final(self).spec_contents(other) == old(self).spec_contents(
                    other,
                ) && (final(self).spec_contains(other) <==> old(self).spec_contains(other)),
    {
        let idx = self.ensure(key);
        let ghost mid = *self;
        let ghost chan0 = self.entries@[idx as int].1;
        let r = self.entries[idx].1.write(off, buf);
        proof {
            assert(self.entries@ =~= mid.entries@.update(
                idx as int,
                (*key, self.entries@[idx as int].1),
            ));
            assert(self.wf());
            assert(self.spec_contains(*key));
            let j = self.spec_index_of(*key);
            assert(self.entries@[j].0 == *key);
            assert(j == idx);
            if !old(self).spec_contains(*key) {
                assert(mid.spec_contents(*key) =~= old(self).spec_contents(*key));
            }
            assert forall|other: ChannelKey| other != *key implies self.spec_contents(other)
                == mid.spec_contents(other) && (self.spec_contains(other) <==> mid.spec_contains(
                other,
            )) by {
                if mid.spec_contains(other) {
                    let j2 = mid.spec_index_of(other);
                    assert(self.entries@[j2].0 == other);
                    assert(self.spec_index_of(other) == j2);
                    assert(j2 != idx);
                } else {
                    if self.spec_contains(other) {
                        let j2 = self.spec_index_of(other);
                        assert(mid.entries@[j2].0 == other);
                    }
                }
            }
        }
        r
    }

    /// Drops the key's channel, if any: a released pipe or socket buffer.
    pub fn release(&mut self, key: &ChannelKey)
        requires
            old(self).wf(),
        ensures
            final(self).wf(),
            !final(self).spec_contains(*key),
            forall|other: ChannelKey|
                other != *key ==> (final(self).spec_contains(other) <==> old(self).spec_contains(
                    other,
                )) && final(self).spec_contents(other) == old(self).spec_contents(other),
    {
        let found = self.find(key);
        match found {
            Some(i) => {
                self.entries.remove(i);
                proof {
                    assert forall|a: int, b: int|
                        0 <= a < b < self.entries@.len() implies self.entries@[a].0
                        != self.entries@[b].0 by {
                        let oa = if a < i { a } else { a + 1 };
                        let ob = if b < i { b } else { b + 1 };
                        assert(self.entries@[a] == old(self).entries@[oa]);
                        assert(self.entries@[b] == old(self).entries@[ob]);
                    }
                    if self.spec_contains(*key) {
                        let j = self.spec_index_of(*key);
                        let oj = if j < i {
                            j
                        } else {
                            j + 1
                        };
                        assert(old(self).entries@[oj].0 == *key);
                        assert(old(self).entries@[i as int].0 == *key);
                    }
                    assert forall|other: ChannelKey| other != *key implies (self.spec_contains(
                        other,
                    ) <==> old(self).spec_contains(other)) && self.spec_contents(other) == old(
                        self,
                    ).spec_contents(other) by {
                        if old(self).spec_contains(other) {
                            let j = old(self).spec_index_of(other);
                            let nj = if j < i {
                                j
                            } else {
                                j - 1
                            };
                            assert(old(self).entries@[j].0 == other);
                            assert(j != i);
                            assert(self.entries@[nj] == old(self).entries@[j]);
                            assert(self.spec_contains(other));
                            let k = self.spec_index_of(other);
                            let ok = if k < i {
                                k
                            } else {
                                k + 1
                            };
                            assert(old(self).entries@[ok].0 == other);
                            assert(ok == j);
                        } else {
                            if self.spec_contains(other) {
                                let k = self.spec_index_of(other);
                                let ok = if k < i {
                                    k
                                } else {
                                    k + 1
                                };
                                assert(old(self).entries@[ok].0 == other);
                            }
                        }
                    }
                }
            },
            None => {
                proof {
                    lemma_contents_frame(*self, *self, *key);
                }
            },
        }
    }

    /// Adds a channel under the key, standing for the device subsystem's
    /// registration of a device; an existing channel under the key is
    /// replaced.
    pub fn register(&mut self, key: ChannelKey, channel: Channel)
        requires
            old(self).wf(),
        ensures
            final(self).wf(),
            final(self).spec_contains(key),
            final(self).spec_contents(key) == channel.data@,
            forall|other: ChannelKey|
                other != key ==> (final(self).spec_contains(other) <==> old(self).spec_contains(
                    other,
                )) && final(self).spec_contents(other) == old(self).spec_contents(other),
    {
        self.release(&key);
        let ghost mid = *self;
        let idx = self.entries.len();
        self.entries.push((key, channel));
        proof {
            assert(self.entries@[idx as int].0 == key);
            assert(self.wf());
            let j = self.spec_index_of(key);
            assert(self.entries@[j].0 == key);
            assert(j == idx);
            assert forall|other: ChannelKey| other != key implies (self.spec_contains(other)
                <==> mid.spec_contains(other)) && self.spec_contents(other) == mid.spec_contents(
                other,
            ) by {
                if mid.spec_contains(other) {
                    let j2 = mid.spec_index_of(other);
                    assert(self.entries@[j2].0 == other);
                    assert(self.spec_index_of(other) == j2);
                } else {
                    if self.spec_contains(other) {
                        let j2 = self.spec_index_of(other);
                        assert(j2 == idx);
                    }
                }
            }
        }
    }
}

/// When two tables hold equal entries, every key reads the same.
proof fn lemma_contents_frame(a: ChannelTable, b: ChannelTable, key: ChannelKey)
    requires
        a.entries@ == b.entries@,
    ensures
        a.spec_contents(key) == b.spec_contents(key),
        a.spec_contains(key) <==> b.spec_contains(key),
{
}

} // verus!
