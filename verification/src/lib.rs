//! Core of a capability-based microkernel.
//!
//! The trust kernel sits in `capability`, `ring_buffer`, `wire` and
//! `ipc`: unforgeable, delegatable, revocable capability tokens with an
//! audit trail; a single-producer single-consumer byte transport; and
//! the zero-copy IPC channel built on both. Around it stand the
//! subsystems that consume capabilities — memory and paging, the
//! filesystem, networking, drivers, scheduling, power, security and the
//! userspace layers — each holding its decision logic here while the
//! platform layer below performs the device and processor work.

pub mod capability;
pub mod ipc;
pub mod ring_buffer;
pub mod wire;
pub mod page_table;
pub mod net;
pub mod tcp;
pub mod drivers;
pub mod crypto;
pub mod android;
pub mod security;
pub mod power;
pub mod memory;
pub mod ai;
pub mod init;
pub mod ui;
pub mod fs;
pub mod scheduler;
pub mod process;
pub mod syscall;
pub mod trap;
pub mod boot;
pub mod uart;
pub mod allocator;

use vstd::prelude::*;

verus! {

/// Kernel version string.
pub fn version() -> (r: &'static str)
    ensures
        r@ == "0.1.0"@,
{
    "0.1.0"
}

/// Kernel name.
pub fn name() -> (r: &'static str)
    ensures
        r@ == "SurakshaOS"@,
{
    "SurakshaOS"
}


} // verus!


