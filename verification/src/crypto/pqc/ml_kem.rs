//! ML-KEM-768 key encapsulation: standardized sizes and data flow.

use vstd::prelude::*;
use crate::crypto::pqc::zeroed;

verus! {

/// Public key size in bytes.
pub const PUBLIC_KEY_SIZE: usize = 1184;

/// Secret key size in bytes.
pub const SECRET_KEY_SIZE: usize = 2400;

/// Ciphertext size in bytes.
pub const CIPHERTEXT_SIZE: usize = 1088;

/// Shared secret size in bytes.
pub const SHARED_SECRET_SIZE: usize = 32;

/// An ML-KEM-768 public key.
#[derive(Debug)]
pub struct PublicKey {
    /// The key bytes, exactly `PUBLIC_KEY_SIZE` of them
    data: Vec<u8>,
}

impl PublicKey {
    /// Spec view of the key bytes.
    pub closed spec fn spec_data(&self) -> Seq<u8> {
        self.data@
    }

    /// Key well-formedness: the standardized size.
    pub open spec fn wf(&self) -> bool {
        self.spec_data().len() == PUBLIC_KEY_SIZE as int
    }
}

/// An ML-KEM-768 secret key.
#[derive(Debug)]
pub struct SecretKey {
    /// The key bytes, exactly `SECRET_KEY_SIZE` of them
    data: Vec<u8>,
}

impl SecretKey {
    /// Spec view of the key bytes.
    pub closed spec fn spec_data(&self) -> Seq<u8> {
        self.data@
    }

    /// Key well-formedness: the standardized size.
    pub open spec fn wf(&self) -> bool {
        self.spec_data().len() == SECRET_KEY_SIZE as int
    }
}

/// An ML-KEM-768 ciphertext.
#[derive(Debug)]
pub struct Ciphertext {
    /// The ciphertext bytes, exactly `CIPHERTEXT_SIZE` of them
    data: Vec<u8>,
}

impl Ciphertext {
    /// Spec view of the ciphertext bytes.
    pub closed spec fn spec_data(&self) -> Seq<u8> {
        self.data@
    }

    /// Ciphertext well-formedness: the standardized size.
    pub open spec fn wf(&self) -> bool {
        self.spec_data().len() == CIPHERTEXT_SIZE as int
    }
}

/// An ML-KEM-768 shared secret.
#[derive(Debug)]
pub struct SharedSecret {
    /// The secret bytes, exactly `SHARED_SECRET_SIZE` of them
    data: Vec<u8>,
}

impl SharedSecret {
    /// Spec view of the secret bytes.
    pub closed spec fn spec_data(&self) -> Seq<u8> {
        self.data@
    }

    /// Secret well-formedness: the standardized size.
    pub open spec fn wf(&self) -> bool {
        self.spec_data().len() == SHARED_SECRET_SIZE as int
    }

    /// The secret bytes.
    pub fn as_bytes(&self) -> (r: &Vec<u8>)
        ensures
            r@ == self.spec_data(),
    {
        &self.data
    }
}

/// Generate a keypair. The lattice sampling belongs to the platform
/// layer; this core's placeholder keys are zeroed.
pub fn keypair() -> (r: (PublicKey, SecretKey))
    ensures
        r.0.wf(),
        r.1.wf(),
{
    (PublicKey { data: zeroed(PUBLIC_KEY_SIZE) }, SecretKey { data: zeroed(SECRET_KEY_SIZE) })
}

/// Encapsulate a shared secret to a public key.
pub fn encapsulate(public_key: &PublicKey) -> (r: (Ciphertext, SharedSecret))
    ensures
        r.0.wf(),
        r.1.wf(),
{
    (Ciphertext { data: zeroed(CIPHERTEXT_SIZE) }, SharedSecret { data: zeroed(SHARED_SECRET_SIZE) })
}

/// Decapsulate a shared secret with the secret key.
pub fn decapsulate(ciphertext: &Ciphertext, secret_key: &SecretKey) -> (r: SharedSecret)
    ensures
        r.wf(),
{
    SharedSecret { data: zeroed(SHARED_SECRET_SIZE) }
}

} // verus!
