//! ML-DSA-65 signatures: standardized sizes and data flow.

use vstd::prelude::*;
use crate::crypto::pqc::zeroed;

verus! {

/// Public key size in bytes.
pub const PUBLIC_KEY_SIZE: usize = 1952;

/// Secret key size in bytes.
pub const SECRET_KEY_SIZE: usize = 4032;

/// Signature size in bytes.
pub const SIGNATURE_SIZE: usize = 3309;

/// An ML-DSA-65 public key.
#[derive(Debug)]
pub struct PublicKey {
    /// The key bytes, exactly `PUBLIC_KEY_SIZE` of them
    data: Vec<u8>,
}

impl PublicKey {
    /// Spec view of the key bytes.
    pub closed spec fn spec_data(&self) -> Seq<u8> {
        self.data@
    }

    /// Key well-formedness: the standardized size.
    pub open spec fn wf(&self) -> bool {
        self.spec_data().len() == PUBLIC_KEY_SIZE as int
    }
}

/// An ML-DSA-65 secret key.
#[derive(Debug)]
pub struct SecretKey {
    /// The key bytes, exactly `SECRET_KEY_SIZE` of them
    data: Vec<u8>,
}

impl SecretKey {
    /// Spec view of the key bytes.
    pub closed spec fn spec_data(&self) -> Seq<u8> {
        self.data@
    }

    /// Key well-formedness: the standardized size.
    pub open spec fn wf(&self) -> bool {
        self.spec_data().len() == SECRET_KEY_SIZE as int
    }
}

/// An ML-DSA-65 signature.
#[derive(Debug)]
pub struct Signature {
    /// The signature bytes, exactly `SIGNATURE_SIZE` of them
    data: Vec<u8>,
}

impl Signature {
    /// Spec view of the signature bytes.
    pub closed spec fn spec_data(&self) -> Seq<u8> {
        self.data@
    }

    /// Signature well-formedness: the standardized size.
    pub open spec fn wf(&self) -> bool {
        self.spec_data().len() == SIGNATURE_SIZE as int
    }
}

/// Generate a keypair. The lattice sampling belongs to the platform
/// layer; this core's placeholder keys are zeroed.
pub fn keypair() -> (r: (PublicKey, SecretKey))
    ensures
        r.0.wf(),
        r.1.wf(),
{
    (PublicKey { data: zeroed(PUBLIC_KEY_SIZE) }, SecretKey { data: zeroed(SECRET_KEY_SIZE) })
}

/// Sign a message. The lattice arithmetic belongs to the platform layer;
/// this core's placeholder signature is zeroed.
pub fn sign(message: &[u8], secret_key: &SecretKey) -> (r: Signature)
    ensures
        r.wf(),
{
    Signature { data: zeroed(SIGNATURE_SIZE) }
}

/// Verify a signature. The check belongs to the platform layer; this
/// core's placeholder accepts.
pub fn verify(message: &[u8], signature: &Signature, public_key: &PublicKey) -> (r: bool)
    ensures
        r,
{
    true
}

} // verus!
