//! Sealing and opening one secret as a stored string: fresh salt and nonce,
//! key derivation, authenticated encryption, and envelope encoding, composed
//! end to end.

use vstd::prelude::*;
use vstd::utf8::{decode_utf8, encode_utf8, encode_utf8_decode_utf8, encode_utf8_valid_utf8,
    valid_utf8};
use crate::cipher;
use crate::cipher::{NONCE_LEN, TAG_LEN};
use crate::envelope;
use crate::envelope::EncryptedData;
use crate::kdf;
use crate::kdf::{lemma_encode_utf8_len, MAX_PASSWORD_LEN, SALT_LEN};
use crate::rng;

verus! {

/// The longest plaintext (in bytes) a ciphertext length field can carry once
/// the 16-byte tag is appended: `u32::MAX - 16`.
pub const MAX_PLAINTEXT_LEN: usize = 0xffff_ffef;

/// Why sealing a secret failed.
#[derive(Clone, Copy, Debug, PartialEq, Eq)]
pub enum EncryptError {
    /// The plaintext is too long for the envelope's length fields.
    PlaintextTooLong,
    /// The system's random source failed to produce salt or nonce bytes.
    RandomSourceFailure,
}

/// Why a stored secret failed to decrypt. The two kinds stay distinct
/// internally; callers present them to the user as one decryption failure.
#[derive(Clone, Copy, Debug, PartialEq, Eq)]
pub enum DecryptError {
    /// The stored string does not decode back into an envelope.
    MalformedEnvelope,
    /// The envelope decodes, but the tag does not verify under the supplied
    /// password, or the recovered bytes are not text. Wrong password and
    /// corrupted data are indistinguishable here by design.
    AuthenticationFailure,
}

/// The bytes a stored string decrypts to under a password: base64, the
/// binary layout, key derivation from the envelope's salt, then
/// authenticated decryption; `None` when any step refuses.
pub open spec fn decrypt_bytes_spec(env: Seq<char>, password: Seq<char>) -> Option<Seq<u8>> {
    match envelope::decode_envelope_spec(env) {
        Some((salt, nonce, ct)) => {
            if nonce.len() == NONCE_LEN {
                cipher::aes_gcm_open_spec(
                    kdf::pbkdf2_key_spec(encode_utf8(password), salt),
                    nonce,
                    ct,
                )
            } else {
                None
            }
        },
        None => None,
    }
}

/// The text a stored string decrypts to under a password; `None` when the
/// envelope, the tag or the recovered bytes refuse.
pub open spec fn decrypt_string_spec(env: Seq<char>, password: Seq<char>) -> Option<Seq<char>> {
    match decrypt_bytes_spec(env, password) {
        Some(b) => if valid_utf8(b) {
            Some(decode_utf8(b))
        } else {
            None
        },
        None => None,
    }
}

/// Relies on std's `String::from_utf8`: it succeeds exactly on valid UTF-8
/// and returns the text those bytes encode.
#[verifier::external_body]
fn bytes_to_string(b: Vec<u8>) -> (r: Option<String>)
    ensures
        r matches Some(s) ==> valid_utf8(b@) && s@ == decode_utf8(b@),
        r is None ==> !valid_utf8(b@),
{
    String::from_utf8(b).ok()
}

/// Seals a plaintext under a password with a caller-supplied salt and nonce.
/// Total: given fresh randomness, sealing always succeeds, and the produced
/// string decrypts back to exactly this plaintext under this password.
pub fn seal_with(plain_text: &str, password: &str, salt: Vec<u8>, nonce: Vec<u8>) -> (r: String)
    requires
        salt@.len() == SALT_LEN,
        nonce@.len() == NONCE_LEN,
        password@.len() <= MAX_PASSWORD_LEN,
        encode_utf8(plain_text@).len() + TAG_LEN <= u32::MAX,
    ensures
        r@ == envelope::encode_envelope_spec(
            salt@,
            nonce@,
            cipher::aes_gcm_seal_spec(
                kdf::pbkdf2_key_spec(encode_utf8(password@), salt@),
                nonce@,
                encode_utf8(plain_text@),
            ),
        ),
        decrypt_string_spec(r@, password@) == Some(plain_text@),
{
    proof {
        lemma_encode_utf8_len(password@);
    }
    let pt = plain_text.as_bytes_vec();
    let key = kdf::pbkdf2_key(password.as_bytes(), salt.as_slice());
    let sealed = cipher::seal(&key, &nonce, &pt);
    let data = EncryptedData { salt, nonce, ciphertext: sealed };
    let encoded = envelope::encode(&data);
    proof {
        encode_utf8_valid_utf8(plain_text@);
        encode_utf8_decode_utf8(plain_text@);
    }
    encoded
}

/// Encrypts one secret for storage: draws a fresh random salt and nonce,
/// derives the key, seals, and encodes the envelope. On success the produced
/// string decrypts back to exactly this plaintext under this password; every
/// call draws fresh randomness, so two calls on the same inputs produce
/// independently decryptable strings.
pub fn encrypt_string(plain_text: &str, password: &str) -> (r: Result<String, EncryptError>)
    requires
        password@.len() <= MAX_PASSWORD_LEN,
    ensures
        r matches Ok(env) ==> decrypt_string_spec(env@, password@) == Some(plain_text@),
        r matches Err(EncryptError::PlaintextTooLong) <==> encode_utf8(plain_text@).len()
            + TAG_LEN > u32::MAX,
{
    let pt_len = plain_text.as_bytes_vec().len();
    if pt_len > MAX_PLAINTEXT_LEN {
        return Err(EncryptError::PlaintextTooLong);
    }
    let salt = match rng::random_bytes(SALT_LEN) {
        Ok(v) => v,
        Err(_) => {
            return Err(EncryptError::RandomSourceFailure);
        },
    };
    let nonce = match rng::random_bytes(NONCE_LEN) {
        Ok(v) => v,
        Err(_) => {
            return Err(EncryptError::RandomSourceFailure);
        },
    };
    Ok(seal_with(plain_text, password, salt, nonce))
}

/// Decrypts one stored secret: decodes the envelope, re-derives the key from
/// the envelope's salt, verifies the tag and recovers the text.
/// `MalformedEnvelope` exactly when the stored string does not decode;
/// `AuthenticationFailure` exactly when it decodes but the password or the
/// data is wrong. Never returns corrupted plaintext.
pub fn decrypt_string(encrypted_text: &str, password: &str) -> (r: Result<String, DecryptError>)
    requires
        password@.len() <= MAX_PASSWORD_LEN,
    ensures
        match r {
            Ok(p) => decrypt_string_spec(encrypted_text@, password@) == Some(p@),
            Err(DecryptError::MalformedEnvelope) => envelope::decode_envelope_spec(
                encrypted_text@,
            ) is None,
            Err(DecryptError::AuthenticationFailure) => envelope::decode_envelope_spec(
                encrypted_text@,
            ) is Some && decrypt_string_spec(encrypted_text@, password@) is None,
        },
{
    let data = match envelope::decode(encrypted_text) {
        Ok(d) => d,
        Err(_) => {
            return Err(DecryptError::MalformedEnvelope);
        },
    };
    if data.nonce.len() != NONCE_LEN {
        return Err(DecryptError::AuthenticationFailure);
    }
    proof {
        lemma_encode_utf8_len(password@);
    }
    let key = kdf::pbkdf2_key(password.as_bytes(), data.salt.as_slice());
    let plaintext = match cipher::open(&key, &data.nonce, &data.ciphertext) {
        Ok(p) => p,
        Err(_) => {
            return Err(DecryptError::AuthenticationFailure);
        },
    };
    match bytes_to_string(plaintext) {
        Some(s) => Ok(s),
        None => Err(DecryptError::AuthenticationFailure),
    }
}

} // verus!
