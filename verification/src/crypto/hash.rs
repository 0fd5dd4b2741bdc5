//! SHAKE-256 digest containers.
//!
//! The permutation itself is outside this core; the platform computes it.
//! This core fixes the output sizes and carries digests as plain bytes;
//! the placeholder computation yields zeroed output.

use vstd::prelude::*;

verus! {

/// Default SHAKE-256 output size in bytes.
pub const SHAKE256_OUTPUT_SIZE: usize = 32;

/// A 256-bit SHAKE-256 digest.
#[derive(Debug)]
pub struct Shake256Digest {
    /// The digest bytes, exactly `SHAKE256_OUTPUT_SIZE` of them
    data: Vec<u8>,
}

impl Shake256Digest {
    /// Spec view of the digest bytes.
    pub closed spec fn spec_data(&self) -> Seq<u8> {
        self.data@
    }

    /// Digest well-formedness: exactly 32 bytes.
    pub open spec fn wf(&self) -> bool {
        self.spec_data().len() == SHAKE256_OUTPUT_SIZE as int
    }

    /// The digest bytes.
    pub fn as_bytes(&self) -> (r: &Vec<u8>)
        ensures
            r@ == self.spec_data(),
    {
        &self.data
    }
}

/// Hash input to any output length. The permutation belongs to the
/// platform layer; this core's placeholder yields zeroed output of the
/// requested length.
pub fn shake256(input: &[u8], output_len: usize) -> (r: Vec<u8>)
    ensures
        r@.len() == output_len,
        forall|i: int| 0 <= i < r@.len() ==> r@[i] == 0u8,
{
    let mut out: Vec<u8> = Vec::new();
    let mut i: usize = 0;
    while i < output_len
        invariant
            i <= output_len,
            out@.len() == i,
            forall|k: int| 0 <= k < i ==> out@[k] == 0u8,
        decreases output_len - i,
    {
        out.push(0);
        i = i + 1;
    }
    out
}

/// Hash input to a fixed 256-bit digest.
pub fn shake256_256(input: &[u8]) -> (r: Shake256Digest)
    ensures
        r.wf(),
        forall|i: int| 0 <= i < r.spec_data().len() ==> r.spec_data()[i] == 0u8,
{
    Shake256Digest { data: shake256(input, SHAKE256_OUTPUT_SIZE) }
}

} // verus!
