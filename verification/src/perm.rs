//! File ownership identities and permission bits.

use vstd::prelude::*;

verus! {

/// A user id.
pub type Uid = u32;

/// A group id.
pub type Gid = u32;

/// The user id of the superuser.
pub const ROOT_UID: Uid = 0;

/// The group id of the superuser's group.
pub const ROOT_GID: Gid = 0;

/// Mode bit: owner may read.
pub const S_IRUSR: u32 = 0o0400;
/// Mode bit: owner may write.
pub const S_IWUSR: u32 = 0o0200;
/// Mode bit: owner may execute.
pub const S_IXUSR: u32 = 0o0100;
/// Mode bit: group may read.
pub const S_IRGRP: u32 = 0o0040;
/// Mode bit: group may write.
pub const S_IWGRP: u32 = 0o0020;
/// Mode bit: group may execute.
pub const S_IXGRP: u32 = 0o0010;
/// Mode bit: others may read.
pub const S_IROTH: u32 = 0o0004;
/// Mode bit: others may write.
pub const S_IWOTH: u32 = 0o0002;
/// Mode bit: others may execute.
pub const S_IXOTH: u32 = 0o0001;

/// The identity under which an agent accesses files: its real user and
/// group ids and the effective ids that general-purpose checks prefer.
#[derive(Copy, Clone, Debug, PartialEq, Eq, Structural)]
pub struct AccessProfile {
    /// The real user id.
    pub uid: Uid,
    /// The real group id.
    pub gid: Gid,
    /// The effective user id.
    pub euid: Uid,
    /// The effective group id.
    pub egid: Gid,
}

impl AccessProfile {
    /// Creates a profile from its real and effective ids.
    pub fn new(uid: Uid, gid: Gid, euid: Uid, egid: Gid) -> (r: Self)
        ensures
            r == (AccessProfile { uid, gid, euid, egid }),
    {
        AccessProfile { uid, gid, euid, egid }
    }

    /// The kernel's own profile: the superuser identity, which bypasses
    /// permission checks.
    pub fn kernel() -> (r: Self)
        ensures
            r == (AccessProfile { uid: ROOT_UID, gid: ROOT_GID, euid: ROOT_UID, egid: ROOT_GID }),
    {
        AccessProfile { uid: ROOT_UID, gid: ROOT_GID, euid: ROOT_UID, egid: ROOT_GID }
    }

    /// Returns the real user id.
    pub fn get_uid(&self) -> (r: Uid)
        ensures
            r == self.uid,
    {
        self.uid
    }

    /// Returns the real group id.
    pub fn get_gid(&self) -> (r: Gid)
        ensures
            r == self.gid,
    {
        self.gid
    }

    /// Returns the effective user id.
    pub fn get_euid(&self) -> (r: Uid)
        ensures
            r == self.euid,
    {
        self.euid
    }

    /// Returns the effective group id.
    pub fn get_egid(&self) -> (r: Gid)
        ensures
            r == self.egid,
    {
        self.egid
    }
}

} // verus!
