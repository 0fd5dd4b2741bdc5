//! Cryptography: post-quantum primitives, symmetric encryption, and
//! hashing.
//!
//! The algorithms themselves are outside this core (the platform provides
//! accelerated implementations); here live the key, ciphertext and digest
//! containers with their size invariants, and the data flow around them.

pub mod pqc;
pub mod symmetric;
pub mod hash;

use vstd::prelude::*;

verus! {

/// The cryptography subsystem: hardware facilities discovered at boot.
pub struct CryptoSystem {
    /// Whether the subsystem completed initialization
    initialized: bool,
}

impl CryptoSystem {
    /// Spec view of the initialized flag.
    pub closed spec fn spec_initialized(&self) -> bool {
        self.initialized
    }

    /// Bring the subsystem up; discovery of accelerators belongs to the
    /// platform layer.
    pub fn new() -> (r: Self)
        ensures
            r.spec_initialized(),
    {
        CryptoSystem { initialized: true }
    }

    /// Whether the subsystem is ready.
    pub fn is_initialized(&self) -> (r: bool)
        ensures
            r == self.spec_initialized(),
    {
        self.initialized
    }
}

} // verus!
