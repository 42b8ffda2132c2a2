//! The Ed25519 signature oracle.
use vstd::prelude::*;

use crate::error::Error;

verus! {

/// Whether Ed25519 strict verification accepts `signature` on `message` under
/// `public_key`. It depends on these bytes alone.
pub uninterp spec fn ed25519_accepts(public_key: Seq<u8>, message: Seq<u8>, signature: Seq<u8>) -> bool;

/// Relies on ed25519_dalek's `VerifyingKey::from_bytes` and
/// `VerifyingKey::verify_strict`, the check the Soroban host runs: a key that
/// does not decode is a rejection, and the verdict is a function of the bytes.
#[verifier::external_body]
fn ed25519_verify(public_key: &[u8; 32], message: &Vec<u8>, signature: &[u8; 64]) -> (r: bool)
    ensures
        r == ed25519_accepts(public_key@, message@, signature@),
{
    match ed25519_dalek::VerifyingKey::from_bytes(public_key) {
        Ok(key) => key.verify_strict(message.as_slice(), &ed25519_dalek::Signature::from_bytes(signature)).is_ok(),
        Err(_) => false,
    }
}

/// Verifies a signature and turns a rejection into `InvalidSignature`.
pub fn verify_ed25519_signature(public_key: &[u8; 32], message: &Vec<u8>, signature: &[u8; 64]) -> (r: Result<(), Error>)
    ensures
        r == (if ed25519_accepts(public_key@, message@, signature@) {
            Ok::<(), Error>(())
        } else {
            Err(Error::InvalidSignature)
        }),
{
    if ed25519_verify(public_key, message, signature) {
        Ok(())
    } else {
        Err(Error::InvalidSignature)
    }
}

} // verus!
