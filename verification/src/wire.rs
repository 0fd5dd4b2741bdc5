//! Little-endian byte packing for the fixed message wire format.

use vstd::prelude::*;

verus! {

/// The eight little-endian bytes of a 64-bit value.
pub open spec fn u64_le(x: u64) -> Seq<u8> {
    seq![
        (x & 0xFF) as u8,
        ((x >> 8) & 0xFF) as u8,
        ((x >> 16) & 0xFF) as u8,
        ((x >> 24) & 0xFF) as u8,
        ((x >> 32) & 0xFF) as u8,
        ((x >> 40) & 0xFF) as u8,
        ((x >> 48) & 0xFF) as u8,
        ((x >> 56) & 0xFF) as u8,
    ]
}

/// The four little-endian bytes of a 32-bit value.
pub open spec fn u32_le(x: u32) -> Seq<u8> {
    seq![
        (x & 0xFF) as u8,
        ((x >> 8) & 0xFF) as u8,
        ((x >> 16) & 0xFF) as u8,
        ((x >> 24) & 0xFF) as u8,
    ]
}

/// The 64-bit value read little-endian from eight bytes at `at` in `s`.
pub open spec fn u64_of_le(s: Seq<u8>, at: int) -> u64 {
    (s[at] as u64 | (s[at + 1] as u64) << 8 | (s[at + 2] as u64) << 16 | (s[at + 3] as u64) << 24
        | (s[at + 4] as u64) << 32 | (s[at + 5] as u64) << 40 | (s[at + 6] as u64) << 48 | (s[at
        + 7] as u64) << 56)
}

/// The 32-bit value read little-endian from four bytes at `at` in `s`.
pub open spec fn u32_of_le(s: Seq<u8>, at: int) -> u32 {
    (s[at] as u32 | (s[at + 1] as u32) << 8 | (s[at + 2] as u32) << 16 | (s[at + 3] as u32) << 24)
}

/// Append the eight little-endian bytes of `x` to `out`.
pub fn push_u64_le(out: &mut Vec<u8>, x: u64)
    ensures
        final(out)@ == old(out)@ + u64_le(x),
{
    let ghost pre = out@;
    out.push((x & 0xFF) as u8);
    out.push(((x >> 8) & 0xFF) as u8);
    out.push(((x >> 16) & 0xFF) as u8);
    out.push(((x >> 24) & 0xFF) as u8);
    out.push(((x >> 32) & 0xFF) as u8);
    out.push(((x >> 40) & 0xFF) as u8);
    out.push(((x >> 48) & 0xFF) as u8);
    out.push(((x >> 56) & 0xFF) as u8);
    proof {
        assert(out@ =~= pre + u64_le(x));
    }
}

/// Append the four little-endian bytes of `x` to `out`.
pub fn push_u32_le(out: &mut Vec<u8>, x: u32)
    ensures
        final(out)@ == old(out)@ + u32_le(x),
{
    let ghost pre = out@;
    out.push((x & 0xFF) as u8);
    out.push(((x >> 8) & 0xFF) as u8);
    out.push(((x >> 16) & 0xFF) as u8);
    out.push(((x >> 24) & 0xFF) as u8);
    proof {
        assert(out@ =~= pre + u32_le(x));
    }
}

/// Read a 64-bit value little-endian from eight bytes at `at` in `bytes`.
pub fn read_u64_le(bytes: &Vec<u8>, at: usize) -> (r: u64)
    requires
        at + 8 <= bytes@.len(),
    ensures
        r == u64_of_le(bytes@, at as int),
{
    let n = bytes.len();
    proof {
        assert(at + 8 <= n);
    }
    (bytes[at] as u64) | (bytes[at + 1] as u64) << 8 | (bytes[at + 2] as u64) << 16 | (bytes[at
        + 3] as u64) << 24 | (bytes[at + 4] as u64) << 32 | (bytes[at + 5] as u64) << 40 | (bytes[at
        + 6] as u64) << 48 | (bytes[at + 7] as u64) << 56
}

/// Read a 32-bit value little-endian from four bytes at `at` in `bytes`.
pub fn read_u32_le(bytes: &Vec<u8>, at: usize) -> (r: u32)
    requires
        at + 4 <= bytes@.len(),
    ensures
        r == u32_of_le(bytes@, at as int),
{
    let n = bytes.len();
    proof {
        assert(at + 4 <= n);
    }
    (bytes[at] as u32) | (bytes[at + 1] as u32) << 8 | (bytes[at + 2] as u32) << 16 | (bytes[at
        + 3] as u32) << 24
}

/// Decoding the eight little-endian bytes of `x` gives back `x`.
pub proof fn lemma_u64_le_round_trip(x: u64)
    ensures
        u64_of_le(u64_le(x), 0) == x,
{
    assert((x & 0xFF) as u8 as u64 | (((x >> 8) & 0xFF) as u8 as u64) << 8 | (((x >> 16)
        & 0xFF) as u8 as u64) << 16 | (((x >> 24) & 0xFF) as u8 as u64) << 24 | (((x >> 32)
        & 0xFF) as u8 as u64) << 32 | (((x >> 40) & 0xFF) as u8 as u64) << 40 | (((x >> 48)
        & 0xFF) as u8 as u64) << 48 | (((x >> 56) & 0xFF) as u8 as u64) << 56 == x) by (bit_vector);
}

/// Decoding the four little-endian bytes of `x` gives back `x`.
pub proof fn lemma_u32_le_round_trip(x: u32)
    ensures
        u32_of_le(u32_le(x), 0) == x,
{
    assert((x & 0xFF) as u8 as u32 | (((x >> 8) & 0xFF) as u8 as u32) << 8 | (((x >> 16)
        & 0xFF) as u8 as u32) << 16 | (((x >> 24) & 0xFF) as u8 as u32) << 24 == x) by (bit_vector);
}

/// Reading little-endian depends only on the eight bytes at `at`.
pub proof fn lemma_u64_of_le_slice(s: Seq<u8>, at: int)
    requires
        0 <= at,
        at + 8 <= s.len(),
    ensures
        u64_of_le(s, at) == u64_of_le(s.subrange(at, at + 8), 0),
{
}

/// Reading little-endian depends only on the four bytes at `at`.
pub proof fn lemma_u32_of_le_slice(s: Seq<u8>, at: int)
    requires
        0 <= at,
        at + 4 <= s.len(),
    ensures
        u32_of_le(s, at) == u32_of_le(s.subrange(at, at + 4), 0),
{
}

} // verus!
