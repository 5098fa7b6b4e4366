//! Core of a virtual filesystem layer: a unifying, hierarchical namespace
//! over pluggable storage backends.
//!
//! The crate provides the pieces such a layer is made of:
//! - the error taxonomy shared by every fallible operation ([`errno`]);
//! - the file kinds with their mode-bit and directory-entry encodings,
//!   the file entity, and the identity-based permission model that gates
//!   every operation ([`file`], [`perm`], [`path`]);
//! - the binary on-disk directory-entry codec with its split and merge
//!   bookkeeping, and the first-fit allocation policy inside a directory
//!   block ([`dirent`], [`block`]);
//! - the backend contract, the backend-type registry with auto-detection,
//!   the mount table, the in-memory backend, and the byte-I/O dispatch
//!   over memory-backed channels ([`fs`], [`memfs`], [`mount`],
//!   [`channel`], [`vfs`]).

pub mod block;
pub mod channel;
pub mod dirent;
pub mod errno;
pub mod file;
pub mod fs;
pub mod memfs;
pub mod mount;
pub mod path;
pub mod perm;
pub mod vfs;
