//! Saved process contexts.
//!
//! The switch itself — saving and loading the registers — belongs to the
//! platform layer; here lives the saved-register record it operates on.

use vstd::prelude::*;

verus! {

/// The callee-saved register state of a suspended process.
#[derive(Clone, Copy, Debug, PartialEq, Eq)]
pub struct Context {
    /// Return address
    pub ra: usize,
    /// Stack pointer
    pub sp: usize,
    /// Saved registers
    pub s: [usize; 12],
}

impl Context {
    /// An all-zero context.
    pub fn new() -> (r: Self)
        ensures
            r.ra == 0,
            r.sp == 0,
            forall|i: int| 0 <= i < 12 ==> r.s[i] == 0,
    {
        Context { ra: 0, sp: 0, s: [0; 12] }
    }

    /// The starting context of a new process: control enters at `entry`
    /// on a stack topped at `stack_top`, with cleared saved registers.
    pub fn new_process(entry: usize, stack_top: usize) -> (r: Self)
        ensures
            r.ra == entry,
            r.sp == stack_top,
            forall|i: int| 0 <= i < 12 ==> r.s[i] == 0,
    {
        Context { ra: entry, sp: stack_top, s: [0; 12] }
    }
}

} // verus!
