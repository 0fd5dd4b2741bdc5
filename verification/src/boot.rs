//! Boot information handed over by the bootloader, and the platforms
//! this kernel runs on.

use vstd::prelude::*;

verus! {

/// Hardware platforms.
#[derive(Clone, Copy, Debug, PartialEq, Eq, Structural)]
pub enum Platform {
    /// SHAKTI C-Class RISC-V processor
    ShaktiCClass,
    /// ARM v9 with realm management
    ArmV9RME,
    /// QEMU emulation, for development
    QemuRiscV64,
}

/// What the bootloader hands the kernel.
#[derive(Clone, Copy, Debug, PartialEq, Eq, Structural)]
pub struct BootInfo {
    /// Physical memory start address
    pub memory_start: usize,
    /// Physical memory size in bytes
    pub memory_size: usize,
    /// Device tree blob address
    pub dtb_addr: usize,
    /// Whether the bootloader signature verified
    pub signature_verified: bool,
    /// The platform detected
    pub platform: Platform,
}

impl BootInfo {
    /// The end of physical memory.
    pub fn memory_end(&self) -> (r: usize)
        requires
            self.memory_start + self.memory_size <= usize::MAX,
        ensures
            r == self.memory_start + self.memory_size,
    {
        self.memory_start + self.memory_size
    }
}

} // verus!
