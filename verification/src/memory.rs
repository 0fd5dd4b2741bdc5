//! Memory management: address ranges, region descriptors, and memory
//! capabilities with containment-checked delegation.

use vstd::prelude::*;

verus! {

/// Page size (4KB).
pub const PAGE_SIZE: usize = 4096;

/// A half-open physical address range.
#[derive(Clone, Copy, Debug, PartialEq, Eq, Structural)]
pub struct AddressRange {
    /// Start address, inclusive
    pub start: usize,
    /// End address, exclusive
    pub end: usize,
}

impl AddressRange {
    /// The range starting at `start` covering `size` bytes.
    pub fn new(start: usize, size: usize) -> (r: Self)
        requires
            start + size <= usize::MAX,
        ensures
            r.start == start,
            r.end == start + size,
    {
        AddressRange { start, end: start + size }
    }

    /// Whether an address lies in the range.
    pub fn contains(&self, addr: usize) -> (r: bool)
        ensures
            r == (self.start <= addr < self.end),
    {
        addr >= self.start && addr < self.end
    }

    /// The size of the range in bytes.
    pub fn size(&self) -> (r: usize)
        requires
            self.start <= self.end,
        ensures
            r == self.end - self.start,
    {
        self.end - self.start
    }
}

/// Region classes of the physical memory map.
#[derive(Clone, Copy, Debug, PartialEq, Eq, Structural)]
pub enum RegionType {
    /// Available RAM
    Available,
    /// Kernel code (read-execute)
    KernelCode,
    /// Kernel data (read-write)
    KernelData,
    /// Device memory (MMIO)
    Device,
    /// Reserved by hardware
    Reserved,
    /// Secure enclave memory
    SecureEnclave,
}

/// Memory access permissions.
#[derive(Clone, Copy, Debug, PartialEq, Eq, Structural)]
pub struct Permissions {
    /// Read permission
    pub read: bool,
    /// Write permission
    pub write: bool,
    /// Execute permission
    pub execute: bool,
    /// Locked: cannot be changed
    pub locked: bool,
}

impl Permissions {
    /// Read-only permission.
    pub fn read_only() -> (r: Self)
        ensures
            r == (Permissions { read: true, write: false, execute: false, locked: false }),
    {
        Permissions { read: true, write: false, execute: false, locked: false }
    }

    /// Read-write permission.
    pub fn read_write() -> (r: Self)
        ensures
            r == (Permissions { read: true, write: true, execute: false, locked: false }),
    {
        Permissions { read: true, write: true, execute: false, locked: false }
    }
}

/// One region of the physical memory map.
#[derive(Clone, Copy, Debug, PartialEq, Eq, Structural)]
pub struct MemoryRegion {
    /// Physical start address
    pub start: usize,
    /// Size in bytes
    pub size: usize,
    /// Region class
    pub region_type: RegionType,
    /// Access permissions
    pub permissions: Permissions,
}

/// A memory capability: an unforgeable grant of access to one address
/// range.
#[derive(Clone, Copy, Debug, PartialEq, Eq, Structural)]
pub struct MemoryCapability {
    /// Unique capability id
    id: u64,
    /// Granted address range
    range: AddressRange,
    /// Access permissions
    permissions: Permissions,
    /// Expiry timestamp (0 = never expires)
    expiry: u64,
    /// Parent capability id, when delegated
    parent: Option<u64>,
}

impl MemoryCapability {
    /// Spec view of the id.
    pub closed spec fn spec_id(&self) -> u64 {
        self.id
    }

    /// Spec view of the range.
    pub closed spec fn spec_range(&self) -> AddressRange {
        self.range
    }

    /// Spec view of the permissions.
    pub closed spec fn spec_permissions(&self) -> Permissions {
        self.permissions
    }

    /// Spec view of the parent id.
    pub closed spec fn spec_parent(&self) -> Option<u64> {
        self.parent
    }

    /// The granted range.
    pub fn range(&self) -> (r: AddressRange)
        ensures
            r == self.spec_range(),
    {
        self.range
    }

    /// The granted permissions.
    pub fn permissions(&self) -> (r: Permissions)
        ensures
            r == self.spec_permissions(),
    {
        self.permissions
    }
}

/// Memory statistics.
#[derive(Clone, Copy, Debug, PartialEq, Eq, Structural)]
pub struct MemoryStats {
    /// Total physical memory
    pub total: usize,
    /// Free memory
    pub free: usize,
    /// Used memory
    pub used: usize,
}

/// The memory manager: totals and the capability id mint.
pub struct MemoryManager {
    /// Total physical memory in bytes
    total: usize,
    /// Free memory in bytes
    free: usize,
    /// Next memory capability id
    next_cap_id: u64,
}

impl MemoryManager {
    /// Spec view of total memory.
    pub closed spec fn spec_total(&self) -> usize {
        self.total
    }

    /// Spec view of free memory.
    pub closed spec fn spec_free(&self) -> usize {
        self.free
    }

    /// Spec view of the next capability id.
    pub closed spec fn spec_next_cap_id(&self) -> u64 {
        self.next_cap_id
    }

    /// A manager for a memory layout: `total` bytes of which `free` are
    /// available.
    pub fn new(total: usize, free: usize) -> (r: Self)
        requires
            free <= total,
        ensures
            r.spec_total() == total,
            r.spec_free() == free,
            r.spec_next_cap_id() == 1,
    {
        MemoryManager { total, free, next_cap_id: 1 }
    }

    /// Whether memory management is ready; an existing manager always is.
    pub fn is_initialized(&self) -> (r: bool)
        ensures
            r,
    {
        true
    }

    /// Mint a memory capability over a range, optionally delegated from a
    /// parent. Delegation requires the requested range to lie inside the
    /// parent's — a grant can only narrow.
    pub fn create_capability(
        &mut self,
        range: AddressRange,
        permissions: Permissions,
        parent: Option<&MemoryCapability>,
    ) -> (r: MemoryCapability)
        requires
            old(self).spec_next_cap_id() < u64::MAX,
            parent matches Some(p) ==> p.spec_range().start <= range.start && range.end
                <= p.spec_range().end,
        ensures
            r.spec_id() == old(self).spec_next_cap_id(),
            r.spec_range() == range,
            r.spec_permissions() == permissions,
            r.spec_parent() == (match parent {
                Some(p) => Some(p.spec_id()),
                None => None::<u64>,
            }),
            final(self).spec_next_cap_id() == old(self).spec_next_cap_id() + 1,
            final(self).spec_total() == old(self).spec_total(),
            final(self).spec_free() == old(self).spec_free(),
    {
        let id = self.next_cap_id;
        self.next_cap_id = self.next_cap_id + 1;
        MemoryCapability {
            id,
            range,
            permissions,
            expiry: 0,
            parent: match parent {
                Some(p) => Some(p.id),
                None => None,
            },
        }
    }

    /// Totals: free plus used equals total.
    pub fn get_stats(&self) -> (r: MemoryStats)
        requires
            self.spec_free() <= self.spec_total(),
        ensures
            r.total == self.spec_total(),
            r.free == self.spec_free(),
            r.used == self.spec_total() - self.spec_free(),
    {
        MemoryStats { total: self.total, free: self.free, used: self.total - self.free }
    }
}

} // verus!
