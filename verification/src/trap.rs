//! Trap causes.

use vstd::prelude::*;

verus! {

/// Why the processor trapped.
#[derive(Clone, Copy, Debug, PartialEq, Eq, Structural)]
pub enum TrapCause {
    /// Instruction address misaligned
    InstructionMisaligned,
    /// Instruction access fault
    InstructionFault,
    /// Illegal instruction
    IllegalInstruction,
    /// Breakpoint
    Breakpoint,
    /// Load address misaligned
    LoadMisaligned,
    /// Load access fault
    LoadFault,
    /// Store address misaligned
    StoreMisaligned,
    /// Store access fault
    StoreFault,
    /// Environment call from user mode
    UserEcall,
    /// Environment call from supervisor mode
    SupervisorEcall,
    /// Page fault on instruction fetch
    InstructionPageFault,
    /// Page fault on load
    LoadPageFault,
    /// Page fault on store
    StorePageFault,
    /// Timer interrupt
    TimerInterrupt,
    /// External interrupt
    ExternalInterrupt,
    /// Unknown cause
    Unknown,
}

/// Decode a RISC-V mcause value: the high bit distinguishes interrupts,
/// the low bits select the cause.
pub fn decode_cause(is_interrupt: bool, code: usize) -> (r: TrapCause)
    ensures
        is_interrupt ==> r == (if code == 7 {
            TrapCause::TimerInterrupt
        } else if code == 11 {
            TrapCause::ExternalInterrupt
        } else {
            TrapCause::Unknown
        }),
        !is_interrupt && code == 8 ==> r == TrapCause::UserEcall,
        !is_interrupt && code == 2 ==> r == TrapCause::IllegalInstruction,
{
    if is_interrupt {
        if code == 7 {
            TrapCause::TimerInterrupt
        } else if code == 11 {
            TrapCause::ExternalInterrupt
        } else {
            TrapCause::Unknown
        }
    } else {
        if code == 0 {
            TrapCause::InstructionMisaligned
        } else if code == 1 {
            TrapCause::InstructionFault
        } else if code == 2 {
            TrapCause::IllegalInstruction
        } else if code == 3 {
            TrapCause::Breakpoint
        } else if code == 4 {
            TrapCause::LoadMisaligned
        } else if code == 5 {
            TrapCause::LoadFault
        } else if code == 6 {
            TrapCause::StoreMisaligned
        } else if code == 7 {
            TrapCause::StoreFault
        } else if code == 8 {
            TrapCause::UserEcall
        } else if code == 9 {
            TrapCause::SupervisorEcall
        } else if code == 12 {
            TrapCause::InstructionPageFault
        } else if code == 13 {
            TrapCause::LoadPageFault
        } else if code == 15 {
            TrapCause::StorePageFault
        } else {
            TrapCause::Unknown
        }
    }
}

} // verus!
