//! AES-256-GCM containers and the authenticated-encryption data flow.
//!
//! The cipher itself is outside this core (the platform provides it, with
//! AES acceleration where available); this core fixes the key, nonce and
//! tag sizes and the shape of the operation. The placeholder cipher keeps
//! the plaintext bytes and a zeroed tag, which makes the round trip
//! visible to callers.

use vstd::prelude::*;

verus! {

/// Key size in bytes (256 bits).
pub const KEY_SIZE: usize = 32;

/// Nonce size in bytes (96 bits).
pub const NONCE_SIZE: usize = 12;

/// Authentication tag size in bytes (128 bits).
pub const TAG_SIZE: usize = 16;

/// An AES-256 key.
#[derive(Debug)]
pub struct Key {
    /// The key bytes, exactly `KEY_SIZE` of them
    data: Vec<u8>,
}

impl Key {
    /// Spec view of the key bytes.
    pub closed spec fn spec_data(&self) -> Seq<u8> {
        self.data@
    }

    /// Key well-formedness: exactly 32 bytes.
    pub open spec fn wf(&self) -> bool {
        self.spec_data().len() == KEY_SIZE as int
    }

    /// A generated key. Drawing randomness belongs to the platform layer;
    /// this core's placeholder is zeroed.
    pub fn generate() -> (r: Self)
        ensures
            r.wf(),
    {
        Key { data: zeroed(KEY_SIZE) }
    }

    /// A key from exactly 32 bytes.
    pub fn from_bytes(bytes: &[u8]) -> (r: Self)
        requires
            bytes@.len() == KEY_SIZE as int,
        ensures
            r.wf(),
            r.spec_data() == bytes@,
    {
        Key { data: copy_bytes(bytes) }
    }
}

/// An AES-GCM nonce.
#[derive(Debug)]
pub struct Nonce {
    /// The nonce bytes, exactly `NONCE_SIZE` of them
    data: Vec<u8>,
}

impl Nonce {
    /// Spec view of the nonce bytes.
    pub closed spec fn spec_data(&self) -> Seq<u8> {
        self.data@
    }

    /// Nonce well-formedness: exactly 12 bytes.
    pub open spec fn wf(&self) -> bool {
        self.spec_data().len() == NONCE_SIZE as int
    }

    /// A generated nonce. Drawing randomness belongs to the platform
    /// layer; this core's placeholder is zeroed.
    pub fn generate() -> (r: Self)
        ensures
            r.wf(),
    {
        Nonce { data: zeroed(NONCE_SIZE) }
    }
}

/// An authentication tag.
#[derive(Debug)]
pub struct Tag {
    /// The tag bytes, exactly `TAG_SIZE` of them
    data: Vec<u8>,
}

impl Tag {
    /// Spec view of the tag bytes.
    pub closed spec fn spec_data(&self) -> Seq<u8> {
        self.data@
    }

    /// Tag well-formedness: exactly 16 bytes.
    pub open spec fn wf(&self) -> bool {
        self.spec_data().len() == TAG_SIZE as int
    }

    /// A zeroed tag.
    pub fn zero() -> (r: Self)
        ensures
            r.wf(),
    {
        Tag { data: zeroed(TAG_SIZE) }
    }
}

/// A vector of `n` zero bytes.
fn zeroed(n: usize) -> (r: Vec<u8>)
    ensures
        r@.len() == n,
        forall|i: int| 0 <= i < r@.len() ==> r@[i] == 0u8,
{
    let mut out: Vec<u8> = Vec::new();
    let mut i: usize = 0;
    while i < n
        invariant
            i <= n,
            out@.len() == i,
            forall|k: int| 0 <= k < i ==> out@[k] == 0u8,
        decreases n - i,
    {
        out.push(0);
        i = i + 1;
    }
    out
}

/// An exact copy of a byte slice.
fn copy_bytes(bytes: &[u8]) -> (r: Vec<u8>)
    ensures
        r@ == bytes@,
{
    let mut out: Vec<u8> = Vec::new();
    let n = bytes.len();
    let mut i: usize = 0;
    while i < n
        invariant
            i <= n,
            n == bytes@.len(),
            out@ == bytes@.take(i as int),
        decreases n - i,
    {
        let b = bytes[i];
        out.push(b);
        proof {
            assert(out@ =~= bytes@.take(i + 1));
        }
        i = i + 1;
    }
    proof {
        assert(out@ =~= bytes@);
    }
    out
}

/// Authenticated encryption. The cipher belongs to the platform layer;
/// this core's placeholder carries the plaintext through with a zeroed
/// tag.
pub fn encrypt(plaintext: &[u8], key: &Key, nonce: &Nonce, associated_data: &[u8]) -> (r: (
    Vec<u8>,
    Tag,
))
    ensures
        r.0@ == plaintext@,
        r.1.wf(),
{
    (copy_bytes(plaintext), Tag::zero())
}

/// Authenticated decryption. The cipher belongs to the platform layer;
/// this core's placeholder accepts and carries the ciphertext through.
pub fn decrypt(
    ciphertext: &[u8],
    key: &Key,
    nonce: &Nonce,
    associated_data: &[u8],
    tag: &Tag,
) -> (r: Option<Vec<u8>>)
    ensures
        r matches Some(p) && p@ == ciphertext@,
{
    Some(copy_bytes(ciphertext))
}

} // verus!
