//! The master-password checksum: a one-way digest persisted alongside the
//! vault, so a wrong password is rejected fast without attempting any
//! decryption. It is never reversible to the password.

use vstd::prelude::*;
use vstd::utf8::encode_utf8;

verus! {

/// The 32-byte SHA-256 digest of a byte string.
pub uninterp spec fn sha256_spec(data: Seq<u8>) -> Seq<u8>;

/// Relies on sha2's `Sha256::digest`: one-shot SHA-256, 32 bytes computed
/// from the input alone.
#[verifier::external_body]
fn sha256_digest(data: &[u8]) -> (r: Vec<u8>)
    ensures
        r@ == sha256_spec(data@),
        r@.len() == 32,
{
    let digest = <sha2::Sha256 as sha2::Digest>::digest(data);
    digest.as_slice().to_vec()
}

/// Relies on std's `String::push`: appends one character.
#[verifier::external_body]
fn push_char(s: &mut String, c: char)
    ensures
        final(s)@ == old(s)@.push(c),
{
    s.push(c);
}

/// The lowercase hexadecimal digit for a value below 16.
pub open spec fn hex_digit(v: u8) -> char
    recommends
        v < 16,
{
    if v < 10 {
        (v + 48) as char
    } else {
        (v + 87) as char
    }
}

/// Lowercase hexadecimal text of a byte string, two digits per byte, most
/// significant nibble first.
pub open spec fn hex_of(b: Seq<u8>) -> Seq<char> {
    Seq::new(
        2 * b.len(),
        |i: int|
            if i % 2 == 0 {
                hex_digit(b[i / 2] / 16)
            } else {
                hex_digit(b[i / 2] % 16)
            },
    )
}

/// The checksum of a password: lowercase hex SHA-256 of its bytes.
pub open spec fn checksum_spec(text: Seq<char>) -> Seq<char> {
    hex_of(sha256_spec(encode_utf8(text)))
}

/// The hexadecimal digit character for a nibble.
fn hex_char(v: u8) -> (c: char)
    requires
        v < 16,
    ensures
        c == hex_digit(v),
{
    if v < 10 {
        (v + 48) as char
    } else {
        (v + 87) as char
    }
}

/// Renders bytes as lowercase hexadecimal text.
fn hex_string(b: &Vec<u8>) -> (r: String)
    ensures
        r@ == hex_of(b@),
{
    let mut out = String::new();
    let mut i: usize = 0;
    while i < b.len()
        invariant
            i <= b.len(),
            out@ == hex_of(b@).take(2 * i as int),
        decreases b.len() - i,
    {
        push_char(&mut out, hex_char(b[i] / 16));
        push_char(&mut out, hex_char(b[i] % 16));
        proof {
            assert(out@ =~= hex_of(b@).take(2 * (i + 1) as int));
        }
        i = i + 1;
    }
    proof {
        assert(out@ =~= hex_of(b@));
    }
    out
}

/// The persisted password checksum: lowercase hex SHA-256 of the text.
/// Recomputed identically on every verification.
pub fn create_checksum(text: &str) -> (r: String)
    ensures
        r@ == checksum_spec(text@),
        r@.len() == 64,
{
    let digest = sha256_digest(text.as_bytes());
    hex_string(&digest)
}

} // verus!
