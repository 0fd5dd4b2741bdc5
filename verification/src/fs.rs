//! Encrypted, capability-based filesystem: handles, metadata, and the
//! capability checkpoint in front of every file operation.

pub mod vfs;
pub mod encrypted;

use vstd::prelude::*;
use crate::capability::{Capability, CapabilityRegistry, Permission, validate_check};

verus! {

/// Filesystem errors.
#[derive(Clone, Copy, Debug, PartialEq, Eq, Structural)]
pub enum FsError {
    /// File not found
    NotFound,
    /// Capability refused the operation
    PermissionDenied,
    /// File already exists
    AlreadyExists,
    /// I/O error
    IoError,
    /// Encryption error
    EncryptionError,
}

/// An open file.
#[derive(Debug)]
pub struct FileHandle {
    /// File descriptor
    pub fd: u32,
    /// File path
    pub path: String,
    /// Capability gating this file
    pub capability: Capability,
    /// Encryption key id, for encrypted files
    pub key_id: Option<u64>,
}

/// File metadata.
#[derive(Clone, Copy, Debug, PartialEq, Eq, Structural)]
pub struct FileMetadata {
    /// File size in bytes
    pub size: usize,
    /// Creation timestamp
    pub created: u64,
    /// Last modification timestamp
    pub modified: u64,
    /// Owner process id
    pub owner: u32,
    /// Whether the contents are encrypted
    pub encrypted: bool,
}

/// Open a file after validating the capability for the read right; the
/// handle carries the capability onward. Finding the file on media
/// belongs to the platform layer.
pub fn open(
    path: &str,
    capability: &Capability,
    registry: &mut CapabilityRegistry,
) -> (r: Result<FileHandle, FsError>)
    requires
        old(registry).wf(),
    ensures
        final(registry).wf(),
        final(registry).caps() == old(registry).caps(),
        if validate_check(
            old(registry).caps(),
            old(registry).spec_clock(),
            *capability,
            Permission::Read,
        ) is Some {
            r == Err::<FileHandle, FsError>(FsError::PermissionDenied) && final(registry).audit()
                == old(registry).audit()
        } else {
            (r matches Ok(h) && h.fd == 1 && h.path@ == path@ && h.key_id is None) && final(registry).audit().len() == old(registry).audit().len() + 1
        },
{
    match registry.validate_capability(capability, Permission::Read) {
        Ok(_) => {},
        Err(_) => {
            return Err(FsError::PermissionDenied);
        },
    }
    Ok(
        FileHandle {
            fd: 1,
            path: path.to_string(),
            capability: capability.clone(),
            key_id: None,
        },
    )
}

/// Read from a file after validating its capability for the read right.
/// Media access belongs to the platform layer; no bytes arrive through
/// this core.
pub fn read(
    handle: &FileHandle,
    buffer: &mut Vec<u8>,
    registry: &mut CapabilityRegistry,
) -> (r: Result<usize, FsError>)
    requires
        old(registry).wf(),
    ensures
        final(registry).wf(),
        final(registry).caps() == old(registry).caps(),
        final(buffer)@ == old(buffer)@,
        if validate_check(
            old(registry).caps(),
            old(registry).spec_clock(),
            handle.capability,
            Permission::Read,
        ) is Some {
            r == Err::<usize, FsError>(FsError::PermissionDenied) && final(registry).audit() == old(registry).audit()
        } else {
            r == Ok::<usize, FsError>(0) && final(registry).audit().len() == old(registry).audit().len() + 1
        },
{
    match registry.validate_capability(&handle.capability, Permission::Read) {
        Ok(_) => {},
        Err(_) => {
            return Err(FsError::PermissionDenied);
        },
    }
    Ok(0)
}

/// Write to a file after validating its capability for the write right.
/// Media access belongs to the platform layer; the byte count is
/// accepted whole.
pub fn write(
    handle: &FileHandle,
    data: &[u8],
    registry: &mut CapabilityRegistry,
) -> (r: Result<usize, FsError>)
    requires
        old(registry).wf(),
    ensures
        final(registry).wf(),
        final(registry).caps() == old(registry).caps(),
        if validate_check(
            old(registry).caps(),
            old(registry).spec_clock(),
            handle.capability,
            Permission::Write,
        ) is Some {
            r == Err::<usize, FsError>(FsError::PermissionDenied) && final(registry).audit() == old(registry).audit()
        } else {
            r == Ok::<usize, FsError>(data@.len() as usize) && final(registry).audit().len() == old(registry).audit().len() + 1
        },
{
    match registry.validate_capability(&handle.capability, Permission::Write) {
        Ok(_) => {},
        Err(_) => {
            return Err(FsError::PermissionDenied);
        },
    }
    Ok(data.len())
}

/// Close a file, consuming the handle.
pub fn close(handle: FileHandle) -> (r: Result<(), FsError>)
    ensures
        r is Ok,
{
    Ok(())
}

/// Delete a file after validating the capability for the delete right.
/// Deletion is cryptographic erasure: destroying the key belongs to the
/// platform layer's key store.
pub fn delete(
    path: &str,
    capability: &Capability,
    registry: &mut CapabilityRegistry,
) -> (r: Result<(), FsError>)
    requires
        old(registry).wf(),
    ensures
        final(registry).wf(),
        final(registry).caps() == old(registry).caps(),
        if validate_check(
            old(registry).caps(),
            old(registry).spec_clock(),
            *capability,
            Permission::Delete,
        ) is Some {
            r == Err::<(), FsError>(FsError::PermissionDenied) && final(registry).audit() == old(registry).audit()
        } else {
            r is Ok && final(registry).audit().len() == old(registry).audit().len() + 1
        },
{
    match registry.validate_capability(capability, Permission::Delete) {
        Ok(_) => {},
        Err(_) => {
            return Err(FsError::PermissionDenied);
        },
    }
    Ok(())
}

} // verus!
