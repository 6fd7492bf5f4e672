use vstd::prelude::*;
use crate::backend::{key_pair_from_der, new_rsa_key, pkcs8_der};

verus! {

/// Why a fresh key pair could not be made.
#[derive(Debug)]
pub enum KeyGenerationError {
    /// The RSA key could not be generated or PKCS#8-encoded.
    Rsa(rsa::Error),
    /// The encoded key was not accepted as a signing key pair.
    KeyPair(rcgen::Error),
}

/// The size of the RSA modulus of every generated key, in bits.
pub const KEY_BITS: usize = 2048;

/// Generates a fresh RSA key pair with a 2048-bit modulus from the operating
/// system's secure random source, and returns it with the size of its
/// modulus. Every call draws a new key; a failure is returned, never retried.
pub fn generate() -> (r: Result<(rcgen::KeyPair, usize), KeyGenerationError>)
    ensures
        r matches Ok((_, bits)) ==> bits == KEY_BITS,
{
    let (private_key, bits) = match new_rsa_key(KEY_BITS) {
        Ok(k) => k,
        Err(e) => return Err(KeyGenerationError::Rsa(e)),
    };
    let der = match pkcs8_der(&private_key) {
        Ok(d) => d,
        Err(e) => return Err(KeyGenerationError::Rsa(e)),
    };
    match key_pair_from_der(der) {
        Ok(kp) => Ok((kp, bits)),
        Err(e) => Err(KeyGenerationError::KeyPair(e)),
    }
}

} // verus!
