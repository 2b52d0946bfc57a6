//! Key derivation: turns a master password and a salt into a fixed-length
//! symmetric key, with PBKDF2-HMAC-SHA256 at a fixed iteration count.

use vstd::prelude::*;
use vstd::utf8::{encode_scalar, encode_utf8};

verus! {

/// PBKDF2 iteration count used for every key derivation.
pub const ITERATION_COUNT: u32 = 100000;

/// The longest password (in characters) the vault accepts: its UTF-8 bytes
/// must fit a 32-bit length, four bytes per character at worst.
pub const MAX_PASSWORD_LEN: usize = 0x3fff_ffff;

/// UTF-8 uses at most four bytes per character.
pub proof fn lemma_encode_utf8_len(chars: Seq<char>)
    ensures
        encode_utf8(chars).len() <= 4 * chars.len(),
    decreases chars.len(),
{
    if chars.len() == 0 {
    } else {
        assert(encode_scalar(chars[0] as u32).len() <= 4);
        lemma_encode_utf8_len(chars.drop_first());
    }
}

/// Length in bytes of the salt a caller must supply.
pub const SALT_LEN: usize = 16;

/// Length in bytes of every derived key.
pub const KEY_LEN: usize = 32;

/// The 32-byte key PBKDF2-HMAC-SHA256 derives, at the fixed iteration count,
/// from a password's bytes and a salt. Deterministic: the same password and
/// salt always give the same key.
pub uninterp spec fn pbkdf2_key_spec(password: Seq<u8>, salt: Seq<u8>) -> Seq<u8>;

/// Relies on ring's `pbkdf2::derive` with `PBKDF2_HMAC_SHA256`: it fills the
/// output deterministically from the password, salt and iteration count
/// alone; 32 bytes are requested here.
#[verifier::external_body]
pub(crate) fn pbkdf2_key(password: &[u8], salt: &[u8]) -> (r: Vec<u8>)
    requires
        password@.len() <= u32::MAX,
        salt@.len() <= u32::MAX,
    ensures
        r@ == pbkdf2_key_spec(password@, salt@),
        r@.len() == KEY_LEN,
{
    let mut key = [0u8; 32];
    let iterations = core::num::NonZeroU32::new(ITERATION_COUNT).unwrap();
    ring::pbkdf2::derive(ring::pbkdf2::PBKDF2_HMAC_SHA256, iterations, salt, password, &mut key);
    key.to_vec()
}

/// Derives the symmetric key for a password and a 16-byte salt.
/// Deterministic, so unlock can regenerate the exact key used at lock time.
pub fn derive(password: &str, salt: &Vec<u8>) -> (key: Vec<u8>)
    requires
        salt@.len() == SALT_LEN,
        password@.len() <= MAX_PASSWORD_LEN,
    ensures
        key@ == pbkdf2_key_spec(encode_utf8(password@), salt@),
        key@.len() == KEY_LEN,
{
    proof {
        lemma_encode_utf8_len(password@);
    }
    pbkdf2_key(password.as_bytes(), salt.as_slice())
}

} // verus!
