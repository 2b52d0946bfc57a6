//! The authenticated cipher: AES-256-GCM over a single plaintext blob, with
//! no associated data and a 128-bit tag appended to the ciphertext.

use vstd::prelude::*;
use crate::kdf::KEY_LEN;

verus! {

/// Length in bytes of every nonce.
pub const NONCE_LEN: usize = 12;

/// Length in bytes of the appended authentication tag.
pub const TAG_LEN: usize = 16;

/// Failure of authenticated decryption: the tag does not verify, meaning a
/// wrong key (a wrong master password) or tampered/corrupted ciphertext; by
/// design the two are indistinguishable.
#[derive(Clone, Copy, Debug, PartialEq, Eq)]
pub enum CipherError {
    AuthenticationFailure,
}

/// The ciphertext-with-tag AES-256-GCM produces for a key, nonce and
/// plaintext. Deterministic in all three arguments.
pub uninterp spec fn aes_gcm_seal_spec(key: Seq<u8>, nonce: Seq<u8>, pt: Seq<u8>) -> Seq<u8>;

/// The plaintext AES-256-GCM authenticated decryption recovers for a key,
/// nonce and ciphertext-with-tag, or `None` when the tag does not verify.
pub uninterp spec fn aes_gcm_open_spec(key: Seq<u8>, nonce: Seq<u8>, ct: Seq<u8>) -> Option<
    Seq<u8>,
>;

/// Relies on ring's `LessSafeKey::seal_in_place_append_tag` with
/// `AES_256_GCM` and empty associated data: it encrypts deterministically,
/// appends the 16-byte tag, and opening the result under the same key and
/// nonce yields the plaintext again.
#[verifier::external_body]
fn aead_seal(key: &Vec<u8>, nonce: &Vec<u8>, pt: &Vec<u8>) -> (r: Vec<u8>)
    requires
        key@.len() == KEY_LEN,
        nonce@.len() == NONCE_LEN,
        pt@.len() <= u32::MAX - TAG_LEN,
    ensures
        r@ == aes_gcm_seal_spec(key@, nonce@, pt@),
        r@.len() == pt@.len() + TAG_LEN,
        aes_gcm_open_spec(key@, nonce@, r@) == Some(pt@),
{
    let unbound = ring::aead::UnboundKey::new(&ring::aead::AES_256_GCM, key).unwrap();
    let sealing = ring::aead::LessSafeKey::new(unbound);
    let n: [u8; 12] = nonce.clone().try_into().unwrap();
    let nonce_seq = ring::aead::Nonce::assume_unique_for_key(n);
    let mut buf = pt.clone();
    sealing.seal_in_place_append_tag(nonce_seq, ring::aead::Aad::empty(), &mut buf).unwrap();
    buf
}

/// Relies on ring's `LessSafeKey::open_in_place` with `AES_256_GCM` and empty
/// associated data: it verifies the tag and decrypts, and errs exactly when
/// the tag does not verify.
#[verifier::external_body]
fn aead_open(key: &Vec<u8>, nonce: &Vec<u8>, ct: &Vec<u8>) -> (r: Result<
    Vec<u8>,
    ring::error::Unspecified,
>)
    requires
        key@.len() == KEY_LEN,
        nonce@.len() == NONCE_LEN,
        ct@.len() <= u32::MAX,
    ensures
        match r {
            Ok(p) => aes_gcm_open_spec(key@, nonce@, ct@) == Some(p@),
            Err(_) => aes_gcm_open_spec(key@, nonce@, ct@) is None,
        },
{
    let unbound = ring::aead::UnboundKey::new(&ring::aead::AES_256_GCM, key)?;
    let opening = ring::aead::LessSafeKey::new(unbound);
    let n: [u8; 12] = nonce.clone().try_into().map_err(|_| ring::error::Unspecified)?;
    let nonce_seq = ring::aead::Nonce::assume_unique_for_key(n);
    let mut buf = ct.clone();
    let pt = opening.open_in_place(nonce_seq, ring::aead::Aad::empty(), &mut buf)?;
    Ok(pt.to_vec())
}

/// Seals a plaintext under a 32-byte key and a 12-byte nonce, appending the
/// authentication tag. Opening the result under the same key and nonce gives
/// the plaintext back.
pub fn seal(key: &Vec<u8>, nonce: &Vec<u8>, plaintext: &Vec<u8>) -> (r: Vec<u8>)
    requires
        key@.len() == KEY_LEN,
        nonce@.len() == NONCE_LEN,
        plaintext@.len() <= u32::MAX - TAG_LEN,
    ensures
        r@ == aes_gcm_seal_spec(key@, nonce@, plaintext@),
        r@.len() == plaintext@.len() + TAG_LEN,
        aes_gcm_open_spec(key@, nonce@, r@) == Some(plaintext@),
{
    aead_seal(key, nonce, plaintext)
}

/// Verifies the tag and decrypts; `AuthenticationFailure` exactly when the
/// tag does not verify, and never a silently corrupted plaintext.
pub fn open(key: &Vec<u8>, nonce: &Vec<u8>, ciphertext: &Vec<u8>) -> (r: Result<
    Vec<u8>,
    CipherError,
>)
    requires
        key@.len() == KEY_LEN,
        nonce@.len() == NONCE_LEN,
        ciphertext@.len() <= u32::MAX,
    ensures
        match r {
            Ok(p) => aes_gcm_open_spec(key@, nonce@, ciphertext@) == Some(p@),
            Err(_) => aes_gcm_open_spec(key@, nonce@, ciphertext@) is None,
        },
{
    match aead_open(key, nonce, ciphertext) {
        Ok(p) => Ok(p),
        Err(_) => Err(CipherError::AuthenticationFailure),
    }
}

} // verus!
