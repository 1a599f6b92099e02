//! The trusted boundary to the cryptographic collaborators: the SHA3-256
//! digest, Ed25519 signing key material, and the operating system's
//! randomness source. Everything else in the crate is verified against the
//! contracts stated here.

use vstd::prelude::*;
use ed25519_dalek::Signer;
use rand::RngCore;
use sha3::Digest;

verus! {

/// The SHA3-256 digest of a byte string. Its value is fixed by the input
/// bytes alone; nothing else is assumed of it here.
pub uninterp spec fn sha3_of(data: Seq<u8>) -> Seq<u8>;

/// Relies on sha3's `Sha3_256` (through `Digest::digest`): the digest is a
/// function of the input bytes alone and is 32 bytes long.
#[verifier::external_body]
pub(crate) fn sha3_256(data: &Vec<u8>) -> (r: Vec<u8>)
    ensures
        r@ == sha3_of(data@),
        r@.len() == 32,
{
    sha3::Sha3_256::digest(data.as_slice()).to_vec()
}

/// Ed25519 signing key material, consumed opaquely: this crate only ever
/// hands it to the signing primitive below.
#[verifier::external_type_specification]
#[verifier::external_body]
pub struct ExSigningKey(ed25519_dalek::SigningKey);

/// Relies on ed25519_dalek's `Signer::sign` for `SigningKey`: it always
/// returns an Ed25519 signature, whose serialized form is 64 bytes.
#[verifier::external_body]
pub(crate) fn sign_bytes(key: &ed25519_dalek::SigningKey, msg: &Vec<u8>) -> (r: Vec<u8>)
    ensures
        r@.len() == 64,
{
    key.sign(msg.as_slice()).to_vec()
}

/// Relies on rand's `OsRng` (`RngCore::next_u64`): a draw from the operating
/// system's randomness source. Nothing is promised of its value; it may stop
/// the process if the source itself fails.
#[verifier::external_body]
pub(crate) fn draw_u64() -> u64 {
    rand::rngs::OsRng.next_u64()
}

} // verus!
