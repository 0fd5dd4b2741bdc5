//! UFS storage driver: capability-gated block requests.

use vstd::prelude::*;
use crate::capability::{Capability, CapabilityRegistry, Permission, validate_check};
use crate::drivers::DriverError;

verus! {

/// UFS standard versions.
#[derive(Clone, Copy, Debug, PartialEq, Eq, Structural)]
pub enum UfsVersion {
    /// UFS 3.1
    V3_1,
    /// UFS 4.0
    V4_0,
}

/// Storage operations.
#[derive(Clone, Copy, Debug, PartialEq, Eq, Structural)]
pub enum StorageOp {
    /// Read blocks
    Read,
    /// Write blocks
    Write,
    /// Flush the cache
    Flush,
    /// Trim blocks
    Trim,
}

/// One block request.
#[derive(Debug)]
pub struct StorageRequest {
    /// Operation
    pub op: StorageOp,
    /// Logical block address
    pub lba: u64,
    /// Number of blocks
    pub count: u32,
    /// Caller buffer address, as the platform reports it
    pub buffer: usize,
    /// Capability authorizing the operation
    pub capability: Capability,
}

/// The right a storage operation needs: read for reads, write for
/// everything that changes media state.
pub open spec fn op_permission(op: StorageOp) -> Permission {
    match op {
        StorageOp::Read => Permission::Read,
        _ => Permission::Write,
    }
}

/// The UFS driver.
#[derive(Debug)]
pub struct UfsDriver {
    /// UFS version
    version: UfsVersion,
    /// Total capacity in bytes
    capacity: u64,
    /// Block size in bytes
    block_size: u32,
    /// Hardware queue depth
    queue_depth: u32,
}

impl UfsDriver {
    /// Spec view of the version.
    pub closed spec fn spec_version(&self) -> UfsVersion {
        self.version
    }

    /// Spec view of the capacity.
    pub closed spec fn spec_capacity(&self) -> u64 {
        self.capacity
    }

    /// Spec view of the block size.
    pub closed spec fn spec_block_size(&self) -> u32 {
        self.block_size
    }

    /// Driver well-formedness: a nonzero block size.
    pub open spec fn wf(&self) -> bool {
        self.spec_block_size() > 0
    }

    /// A driver for a device not yet sized: 4KB blocks, queue depth 32.
    pub fn new(version: UfsVersion) -> (r: Self)
        ensures
            r.wf(),
            r.spec_version() == version,
            r.spec_capacity() == 0,
            r.spec_block_size() == 4096,
    {
        UfsDriver { version, capacity: 0, block_size: 4096, queue_depth: 32 }
    }

    /// Bring the controller up and size the device. Register programming
    /// belongs to the platform layer; the device this core models reports
    /// 256 GB.
    pub fn configure(&mut self) -> (r: Result<(), DriverError>)
        requires
            old(self).wf(),
        ensures
            r is Ok,
            final(self).wf(),
            final(self).spec_capacity() == 256u64 * 1024 * 1024 * 1024,
            final(self).spec_version() == old(self).spec_version(),
            final(self).spec_block_size() == old(self).spec_block_size(),
    {
        self.capacity = 256 * 1024 * 1024 * 1024;
        Ok(())
    }

    /// Validate and queue one request: the capability must grant the
    /// operation's right and the block range must lie on the device.
    /// Handing the command to the hardware queue belongs to the platform
    /// layer.
    pub fn submit_request(
        &mut self,
        registry: &mut CapabilityRegistry,
        request: StorageRequest,
    ) -> (r: Result<(), DriverError>)
        requires
            old(self).wf(),
            old(registry).wf(),
            request.lba + request.count <= u64::MAX,
        ensures
            final(self).wf(),
            final(registry).wf(),
            *final(self) == *old(self),
            final(registry).caps() == old(registry).caps(),
            if validate_check(
                old(registry).caps(),
                old(registry).spec_clock(),
                request.capability,
                op_permission(request.op),
            ) is Some {
                r == Err::<(), DriverError>(DriverError::PermissionDenied) && final(registry).audit() == old(registry).audit()
            } else {
                ({
                    &&& final(registry).audit().len() == old(registry).audit().len() + 1
                    &&& r == (if request.lba + request.count > old(self).spec_capacity() / (old(self).spec_block_size() as u64) {
                        Err::<(), DriverError>(DriverError::InvalidArgument)
                    } else {
                        Ok::<(), DriverError>(())
                    })
                })
            },
    {
        let permission = match request.op {
            StorageOp::Read => Permission::Read,
            StorageOp::Write | StorageOp::Flush | StorageOp::Trim => Permission::Write,
        };
        match registry.validate_capability(&request.capability, permission) {
            Ok(_) => {},
            Err(_) => {
                return Err(DriverError::PermissionDenied);
            },
        }
        if request.lba + request.count as u64 > self.capacity / self.block_size as u64 {
            return Err(DriverError::InvalidArgument);
        }
        Ok(())
    }

    /// Read a block range. On success the byte count of the range is
    /// returned; filling the caller's buffer belongs to the platform
    /// layer's completion path.
    pub fn read_blocks(
        &mut self,
        registry: &mut CapabilityRegistry,
        lba: u64,
        count: u32,
        buffer: &mut Vec<u8>,
        capability: &Capability,
    ) -> (r: Result<usize, DriverError>)
        requires
            old(self).wf(),
            old(registry).wf(),
            lba + count <= u64::MAX,
            count * old(self).spec_block_size() <= usize::MAX,
        ensures
            final(self).wf(),
            final(registry).wf(),
            *final(self) == *old(self),
            final(buffer)@ == old(buffer)@,
            r matches Ok(n) ==> n == count * old(self).spec_block_size(),
    {
        let request = StorageRequest {
            op: StorageOp::Read,
            lba,
            count,
            buffer: 0,
            capability: capability.clone(),
        };
        match self.submit_request(registry, request) {
            Ok(_) => {},
            Err(e) => {
                return Err(e);
            },
        }
        Ok((count as usize) * (self.block_size as usize))
    }

    /// Write a block range. On success the byte count of the range is
    /// returned; moving the data belongs to the platform layer's
    /// completion path.
    pub fn write_blocks(
        &mut self,
        registry: &mut CapabilityRegistry,
        lba: u64,
        count: u32,
        data: &[u8],
        capability: &Capability,
    ) -> (r: Result<usize, DriverError>)
        requires
            old(self).wf(),
            old(registry).wf(),
            lba + count <= u64::MAX,
            count * old(self).spec_block_size() <= usize::MAX,
        ensures
            final(self).wf(),
            final(registry).wf(),
            *final(self) == *old(self),
            r matches Ok(n) ==> n == count * old(self).spec_block_size(),
    {
        let request = StorageRequest {
            op: StorageOp::Write,
            lba,
            count,
            buffer: 0,
            capability: capability.clone(),
        };
        match self.submit_request(registry, request) {
            Ok(_) => {},
            Err(e) => {
                return Err(e);
            },
        }
        Ok((count as usize) * (self.block_size as usize))
    }

    /// Flush the device cache.
    pub fn flush(&mut self, registry: &mut CapabilityRegistry, capability: &Capability) -> (r:
        Result<(), DriverError>)
        requires
            old(self).wf(),
            old(registry).wf(),
        ensures
            final(self).wf(),
            final(registry).wf(),
            *final(self) == *old(self),
    {
        let request = StorageRequest {
            op: StorageOp::Flush,
            lba: 0,
            count: 0,
            buffer: 0,
            capability: capability.clone(),
        };
        match self.submit_request(registry, request) {
            Ok(_) => Ok(()),
            Err(e) => Err(e),
        }
    }

    /// Total capacity in bytes.
    pub fn get_capacity(&self) -> (r: u64)
        ensures
            r == self.spec_capacity(),
    {
        self.capacity
    }

    /// Block size in bytes.
    pub fn get_block_size(&self) -> (r: u32)
        ensures
            r == self.spec_block_size(),
    {
        self.block_size
    }
}

} // verus!
