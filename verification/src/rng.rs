//! Secure random bytes for salts and nonces. Every seal operation draws a
//! fresh salt and a fresh nonce from here; a nonce must never repeat under a
//! given key.

use vstd::prelude::*;

verus! {

#[verifier::external_type_specification]
#[verifier::external_body]
pub struct ExUnspecified(ring::error::Unspecified);

/// Relies on ring's `SystemRandom::fill`: on success the buffer holds `n`
/// bytes from the system's cryptographically secure random source. Nothing
/// is assumed about the values themselves.
#[verifier::external_body]
pub(crate) fn random_bytes(n: usize) -> (r: Result<Vec<u8>, ring::error::Unspecified>)
    ensures
        r matches Ok(v) ==> v@.len() == n,
{
    let mut buf = vec![0u8; n];
    ring::rand::SecureRandom::fill(&ring::rand::SystemRandom::new(), &mut buf)?;
    Ok(buf)
}

} // verus!
