//! Sv39 page-table structures: virtual and physical addresses, entry
//! flags, entries, and the 512-entry table itself.
//!
//! The table is an index-based array of entries over an owned allocation;
//! walking and installing tables is the platform layer's business, so no
//! raw addresses appear here.

use vstd::prelude::*;

verus! {

/// Page size (4KB).
pub const PAGE_SIZE: usize = 4096;

/// Number of page table entries.
pub const PTE_COUNT: usize = 512;

/// Virtual address.
#[derive(Clone, Copy, Debug, PartialEq, Eq, Structural)]
pub struct VirtAddr(usize);

impl VirtAddr {
    /// The raw address value.
    pub closed spec fn spec_addr(self) -> usize {
        self.0
    }

    /// Wrap a raw virtual address.
    pub fn new(addr: usize) -> (r: Self)
        ensures
            r.spec_addr() == addr,
    {
        VirtAddr(addr)
    }

    /// The raw address value.
    pub fn as_usize(&self) -> (r: usize)
        ensures
            r == self.spec_addr(),
    {
        self.0
    }

    /// The virtual page number for a translation level: nine bits starting
    /// at bit `12 + level * 9`.
    pub fn vpn(&self, level: usize) -> (r: usize)
        requires
            level <= 2,
        ensures
            r == (self.spec_addr() >> (12 + level * 9)) & 0x1FF,
            r < 512,
    {
        let a = self.0;
        let shift = 12 + level * 9;
        proof {
            assert(shift < 32);
        }
        let r = (a >> shift) & 0x1FF;
        proof {
            assert((a >> shift) & 0x1FF < 512) by (bit_vector);
        }
        r
    }

    /// The offset within the page: the low twelve bits.
    pub fn offset(&self) -> (r: usize)
        ensures
            r == self.spec_addr() & 0xFFF,
    {
        self.0 & 0xFFF
    }

    /// Round down to the page boundary.
    pub fn align_down(&self) -> (r: Self)
        ensures
            r.spec_addr() == self.spec_addr() & !0xFFF,
    {
        VirtAddr(self.0 & !0xFFF)
    }

    /// Round up to the next page boundary.
    pub fn align_up(&self) -> (r: Self)
        requires
            self.spec_addr() + PAGE_SIZE - 1 <= usize::MAX,
        ensures
            r.spec_addr() == ((self.spec_addr() + PAGE_SIZE - 1) as usize) & !0xFFF,
    {
        VirtAddr((self.0 + (PAGE_SIZE - 1)) & !0xFFF)
    }
}

/// Physical address.
#[derive(Clone, Copy, Debug, PartialEq, Eq, Structural)]
pub struct PhysAddr(usize);

impl PhysAddr {
    /// The raw address value.
    pub closed spec fn spec_addr(self) -> usize {
        self.0
    }

    /// Wrap a raw physical address.
    pub fn new(addr: usize) -> (r: Self)
        ensures
            r.spec_addr() == addr,
    {
        PhysAddr(addr)
    }

    /// The raw address value.
    pub fn as_usize(&self) -> (r: usize)
        ensures
            r == self.spec_addr(),
    {
        self.0
    }

    /// The physical page number: the address shifted past the page offset.
    pub fn ppn(&self) -> (r: usize)
        ensures
            r == self.spec_addr() >> 12,
    {
        self.0 >> 12
    }
}

/// Page table entry flag bits.
#[derive(Clone, Copy, Debug, PartialEq, Eq, Structural)]
pub struct PTEFlags(u64);

impl PTEFlags {
    /// Entry is valid.
    pub const VALID: u64 = 1;

    /// Page may be read.
    pub const READ: u64 = 2;

    /// Page may be written.
    pub const WRITE: u64 = 4;

    /// Page may be executed.
    pub const EXEC: u64 = 8;

    /// Page is accessible from user mode.
    pub const USER: u64 = 16;

    /// Mapping is global.
    pub const GLOBAL: u64 = 32;

    /// Page has been accessed.
    pub const ACCESSED: u64 = 64;

    /// Page has been written.
    pub const DIRTY: u64 = 128;

    /// The raw flag bits.
    pub closed spec fn spec_bits(self) -> u64 {
        self.0
    }

    /// No flags set.
    pub fn new() -> (r: Self)
        ensures
            r.spec_bits() == 0,
    {
        PTEFlags(0)
    }

    /// Exactly the given flag bits.
    pub fn with_flags(flags: u64) -> (r: Self)
        ensures
            r.spec_bits() == flags,
    {
        PTEFlags(flags)
    }

    /// Raise a flag.
    pub fn set(&mut self, flag: u64)
        ensures
            final(self).spec_bits() == old(self).spec_bits() | flag,
    {
        self.0 = self.0 | flag;
    }

    /// Lower a flag.
    pub fn clear(&mut self, flag: u64)
        ensures
            final(self).spec_bits() == old(self).spec_bits() & !flag,
    {
        self.0 = self.0 & !flag;
    }

    /// Whether any of the given flag bits is set.
    pub fn contains(&self, flag: u64) -> (r: bool)
        ensures
            r == ((self.spec_bits() & flag) != 0),
    {
        (self.0 & flag) != 0
    }

    /// The raw flag bits.
    pub fn bits(&self) -> (r: u64)
        ensures
            r == self.spec_bits(),
    {
        self.0
    }
}

/// Page table entry: physical page number and flags packed in one word.
#[derive(Clone, Copy, Debug, PartialEq, Eq, Structural)]
pub struct PageTableEntry(u64);

impl PageTableEntry {
    /// The raw entry bits.
    pub closed spec fn spec_bits(self) -> u64 {
        self.0
    }

    /// An empty (invalid) entry.
    pub fn new() -> (r: Self)
        ensures
            r.spec_bits() == 0,
    {
        PageTableEntry(0)
    }

    /// An entry mapping the given physical page number with flags.
    pub fn from_ppn(ppn: usize, flags: PTEFlags) -> (r: Self)
        ensures
            r.spec_bits() == ((ppn as u64) << 10) | flags.spec_bits(),
    {
        PageTableEntry(((ppn as u64) << 10) | flags.bits())
    }

    /// Whether the valid bit is set.
    pub fn is_valid(&self) -> (r: bool)
        ensures
            r == ((self.spec_bits() & 1) != 0),
    {
        (self.0 & PTEFlags::VALID) != 0
    }

    /// Whether the entry is a leaf: valid with any of read, write or
    /// execute set.
    pub fn is_leaf(&self) -> (r: bool)
        ensures
            r == (((self.spec_bits() & 1) != 0) && ((self.spec_bits() & 14) != 0)),
    {
        let b = self.0;
        proof {
            assert((b & (2u64 | 4u64 | 8u64)) == (b & 14u64)) by (bit_vector);
        }
        self.is_valid() && ((b & (PTEFlags::READ | PTEFlags::WRITE | PTEFlags::EXEC)) != 0)
    }

    /// The mapped physical page number.
    pub fn ppn(&self) -> (r: usize)
        ensures
            r == ((self.spec_bits() >> 10) & 0xFFF_FFFF_FFFF) as usize,
    {
        ((self.0 >> 10) & 0xFFF_FFFF_FFFF) as usize
    }

    /// The mapped physical address.
    pub fn phys_addr(&self) -> (r: PhysAddr)
        ensures
            r.spec_addr() == ((((self.spec_bits() >> 10) & 0xFFF_FFFF_FFFF) as usize) << 12),
    {
        PhysAddr::new(self.ppn() << 12)
    }

    /// The flag bits of the entry: its low eight bits.
    pub fn flags(&self) -> (r: PTEFlags)
        ensures
            r.spec_bits() == self.spec_bits() & 0xFF,
    {
        PTEFlags(self.0 & 0xFF)
    }

    /// Point the entry at a physical page number with flags.
    pub fn set(&mut self, ppn: usize, flags: PTEFlags)
        ensures
            final(self).spec_bits() == ((ppn as u64) << 10) | flags.spec_bits(),
    {
        self.0 = ((ppn as u64) << 10) | flags.bits();
    }

    /// Empty the entry.
    pub fn clear(&mut self)
        ensures
            final(self).spec_bits() == 0,
    {
        self.0 = 0;
    }
}

/// One level of an Sv39 page table: 512 entries.
#[derive(Debug)]
pub struct PageTable {
    /// The entries, exactly `PTE_COUNT` of them
    entries: Vec<PageTableEntry>,
}

impl PageTable {
    /// The entries as a sequence.
    pub closed spec fn spec_entries(&self) -> Seq<PageTableEntry> {
        self.entries@
    }

    /// Table well-formedness: exactly 512 entries.
    pub open spec fn wf(&self) -> bool {
        self.spec_entries().len() == PTE_COUNT as int
    }

    /// A table of 512 empty entries.
    pub fn new() -> (r: Self)
        ensures
            r.wf(),
            forall|i: int| 0 <= i < PTE_COUNT as int ==> r.spec_entries()[i].spec_bits() == 0,
    {
        let mut entries: Vec<PageTableEntry> = Vec::new();
        let mut i: usize = 0;
        while i < PTE_COUNT
            invariant
                i <= PTE_COUNT,
                entries@.len() == i,
                forall|k: int| 0 <= k < i ==> entries@[k].spec_bits() == 0,
            decreases PTE_COUNT - i,
        {
            entries.push(PageTableEntry::new());
            i = i + 1;
        }
        PageTable { entries }
    }

    /// The entry at an index.
    pub fn entry(&self, index: usize) -> (r: &PageTableEntry)
        requires
            self.wf(),
            index < PTE_COUNT,
        ensures
            *r == self.spec_entries()[index as int],
    {
        &self.entries[index]
    }

    /// A mutable reference to the entry at an index.
    pub fn entry_mut(&mut self, index: usize) -> (r: &mut PageTableEntry)
        requires
            old(self).wf(),
            index < PTE_COUNT,
        ensures
            *r == old(self).spec_entries()[index as int],
            final(self).spec_entries() == old(self).spec_entries().update(index as int, *final(r)),
            final(self).wf(),
    {
        &mut self.entries[index]
    }

    /// Empty every entry.
    pub fn clear(&mut self)
        requires
            old(self).wf(),
        ensures
            final(self).wf(),
            forall|i: int|
                0 <= i < PTE_COUNT as int ==> final(self).spec_entries()[i].spec_bits() == 0,
    {
        let fresh = PageTable::new();
        self.entries = fresh.entries;
    }
}

} // verus!
