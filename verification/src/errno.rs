//! The error taxonomy shared by every fallible operation of the crate.

use vstd::prelude::*;

verus! {

/// The kind of failure a filesystem operation can report.
///
/// Every fallible operation returns an explicit `Result` carrying one of
/// these kinds; no operation aborts.
#[derive(Copy, Clone, Debug, PartialEq, Eq, Structural)]
pub enum Errno {
    /// A malformed argument, such as a record size too small for a name.
    InvalidArgument,
    /// A directory operation was attempted on a non-directory.
    NotADirectory,
    /// Byte-range I/O was attempted on a directory.
    IsADirectory,
    /// No registered backend matched a probe, or a device is missing.
    NoSuchDevice,
    /// No reachable mount point or I/O channel for the file.
    IOFault,
    /// The operation is unavailable, such as hard links on a backend
    /// without hard-link support.
    NotSupported,
    /// The name or resource already exists.
    AlreadyExists,
    /// The identity lacks the right the operation needs.
    PermissionDenied,
    /// Memory could not be obtained; distinct from any logic error.
    AllocationFailure,
    /// The named node does not exist.
    NotFound,
}

} // verus!
