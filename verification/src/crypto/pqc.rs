//! Post-quantum cryptography: key encapsulation and signatures.
//!
//! The lattice and hash-based algorithms are outside this core (the
//! platform provides them, accelerated where available); this core fixes
//! the standardized key, ciphertext and signature sizes, carries them as
//! plain bytes, and exposes the operations' shape. Placeholder values are
//! zeroed.

pub mod ml_kem;
pub mod ml_dsa;
pub mod slh_dsa;

use vstd::prelude::*;

verus! {

/// The accelerator state of the PQC subsystem.
pub struct PqcAccelerator {
    /// Whether a hardware accelerator was found and enabled
    enabled: bool,
}

impl PqcAccelerator {
    /// Spec view of the enabled flag.
    pub closed spec fn spec_enabled(&self) -> bool {
        self.enabled
    }

    /// Probe for an accelerator. Hardware discovery belongs to the
    /// platform layer; none is found through this core.
    pub fn init_accelerator() -> (r: Self)
        ensures
            !r.spec_enabled(),
    {
        PqcAccelerator { enabled: false }
    }

    /// Whether operations run hardware-accelerated.
    pub fn is_hw_accelerated(&self) -> (r: bool)
        ensures
            r == self.spec_enabled(),
    {
        self.enabled
    }
}

/// A vector of `n` zero bytes.
pub(crate) fn zeroed(n: usize) -> (r: Vec<u8>)
    ensures
        r@.len() == n,
        forall|i: int| 0 <= i < r@.len() ==> r@[i] == 0u8,
{
    let mut out: Vec<u8> = Vec::new();
    let mut i: usize = 0;
    while i < n
        invariant
            i <= n,
            out@.len() == i,
            forall|k: int| 0 <= k < i ==> out@[k] == 0u8,
        decreases n - i,
    {
        out.push(0);
        i = i + 1;
    }
    out
}

} // verus!
