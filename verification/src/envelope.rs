//! The encoded envelope: one encrypted secret at rest.
//!
//! The binary layout is three big-endian length-prefixed fields, concatenated
//! in order: `u32 salt_len | salt | u32 nonce_len | nonce | u32 ct_len | ct`.
//! The whole buffer is then base64-encoded into a single storable string.

use vstd::prelude::*;

verus! {

/// One encrypted secret: its key-derivation salt, the cipher nonce, and the
/// ciphertext with the authentication tag appended.
#[derive(Clone, Debug, PartialEq, Eq)]
pub struct EncryptedData {
    pub salt: Vec<u8>,
    pub nonce: Vec<u8>,
    pub ciphertext: Vec<u8>,
}

/// The one way a stored envelope can be bad: it does not decode back into
/// salt, nonce and ciphertext.
#[derive(Clone, Copy, Debug, PartialEq, Eq)]
pub enum EnvelopeError {
    MalformedEnvelope,
}

/// The value a 4-byte big-endian length field holds.
pub open spec fn be32_value(b0: u8, b1: u8, b2: u8, b3: u8) -> u32 {
    ((b0 as u32) << 24) | ((b1 as u32) << 16) | ((b2 as u32) << 8) | (b3 as u32)
}

/// The 4 bytes of a length field, most significant first.
pub open spec fn be32_bytes(n: u32) -> Seq<u8> {
    seq![
        ((n >> 24) & 0xff) as u8,
        ((n >> 16) & 0xff) as u8,
        ((n >> 8) & 0xff) as u8,
        (n & 0xff) as u8,
    ]
}

pub proof fn lemma_be32_round_trip(n: u32)
    ensures
        be32_value(be32_bytes(n)[0], be32_bytes(n)[1], be32_bytes(n)[2], be32_bytes(n)[3]) == n,
{
    assert(((((n >> 24) & 0xff) as u8) as u32) << 24 | ((((n >> 16) & 0xff) as u8) as u32) << 16
        | ((((n >> 8) & 0xff) as u8) as u32) << 8 | (((n & 0xff) as u8) as u32) == n)
        by (bit_vector);
}

/// The framed bytes of an envelope, before base64.
pub open spec fn frame_spec(salt: Seq<u8>, nonce: Seq<u8>, ct: Seq<u8>) -> Seq<u8>
    recommends
        salt.len() <= u32::MAX,
        nonce.len() <= u32::MAX,
        ct.len() <= u32::MAX,
{
    be32_bytes(salt.len() as u32) + salt + be32_bytes(nonce.len() as u32) + nonce + be32_bytes(
        ct.len() as u32,
    ) + ct
}

/// What parsing framed bytes yields: the three fields, or nothing when the
/// buffer is shorter than the minimum header or a declared length would read
/// past the end. Trailing bytes after the ciphertext are ignored.
pub open spec fn parse_frame_spec(b: Seq<u8>) -> Option<(Seq<u8>, Seq<u8>, Seq<u8>)> {
    if b.len() < 12 {
        None
    } else {
        let salt_len = be32_value(b[0], b[1], b[2], b[3]) as int;
        if 4 + salt_len > b.len() {
            None
        } else {
            let salt = b.subrange(4, 4 + salt_len);
            let p1 = 4 + salt_len;
            if p1 + 4 > b.len() {
                None
            } else {
                let nonce_len = be32_value(b[p1], b[p1 + 1], b[p1 + 2], b[p1 + 3]) as int;
                if p1 + 4 + nonce_len > b.len() {
                    None
                } else {
                    let nonce = b.subrange(p1 + 4, p1 + 4 + nonce_len);
                    let p2 = p1 + 4 + nonce_len;
                    if p2 + 4 > b.len() {
                        None
                    } else {
                        let ct_len = be32_value(b[p2], b[p2 + 1], b[p2 + 2], b[p2 + 3]) as int;
                        if p2 + 4 + ct_len > b.len() {
                            None
                        } else {
                            Some((salt, nonce, b.subrange(p2 + 4, p2 + 4 + ct_len)))
                        }
                    }
                }
            }
        }
    }
}

/// Round-trip law for the binary layout: parsing a framed triple gives the
/// triple back, for any field contents whose lengths fit the length fields.
pub proof fn lemma_frame_round_trip(salt: Seq<u8>, nonce: Seq<u8>, ct: Seq<u8>)
    requires
        salt.len() <= u32::MAX,
        nonce.len() <= u32::MAX,
        ct.len() <= u32::MAX,
    ensures
        parse_frame_spec(frame_spec(salt, nonce, ct)) == Some((salt, nonce, ct)),
{
    let b = frame_spec(salt, nonce, ct);
    lemma_be32_round_trip(salt.len() as u32);
    lemma_be32_round_trip(nonce.len() as u32);
    lemma_be32_round_trip(ct.len() as u32);
    assert(b.len() == 12 + salt.len() + nonce.len() + ct.len());
    let p1 = 4 + salt.len() as int;
    let p2 = p1 + 4 + nonce.len() as int;
    assert(be32_value(b[0], b[1], b[2], b[3]) == salt.len() as u32);
    assert(b.subrange(4, 4 + salt.len() as int) =~= salt);
    assert(be32_value(b[p1], b[p1 + 1], b[p1 + 2], b[p1 + 3]) == nonce.len() as u32);
    assert(b.subrange(p1 + 4, p1 + 4 + nonce.len() as int) =~= nonce);
    assert(be32_value(b[p2], b[p2 + 1], b[p2 + 2], b[p2 + 3]) == ct.len() as u32);
    assert(b.subrange(p2 + 4, p2 + 4 + ct.len() as int) =~= ct);
}

/// Appends the 4 big-endian bytes of `n`.
fn push_be32(out: &mut Vec<u8>, n: u32)
    ensures
        final(out)@ == old(out)@ + be32_bytes(n),
{
    out.push(((n >> 24) & 0xff) as u8);
    out.push(((n >> 16) & 0xff) as u8);
    out.push(((n >> 8) & 0xff) as u8);
    out.push((n & 0xff) as u8);
    proof {
        assert(out@ =~= old(out)@ + be32_bytes(n));
    }
}

/// Appends a copy of `src`.
fn push_bytes(out: &mut Vec<u8>, src: &Vec<u8>)
    ensures
        final(out)@ == old(out)@ + src@,
{
    let mut i: usize = 0;
    while i < src.len()
        invariant
            i <= src.len(),
            out@ == old(out)@ + src@.take(i as int),
        decreases src.len() - i,
    {
        out.push(src[i]);
        proof {
            assert(out@ =~= old(out)@ + src@.take(i + 1 as int));
        }
        i = i + 1;
    }
    proof {
        assert(out@ =~= old(out)@ + src@);
    }
}

/// A copy of `src[start .. start + len]`.
fn copy_range(src: &Vec<u8>, start: usize, len: usize) -> (r: Vec<u8>)
    requires
        start + len <= src.len(),
    ensures
        r@ == src@.subrange(start as int, start as int + len as int),
{
    let mut out: Vec<u8> = Vec::new();
    let mut i: usize = 0;
    while i < len
        invariant
            i <= len,
            start + len <= src.len(),
            out@ == src@.subrange(start as int, start as int + i as int),
        decreases len - i,
    {
        out.push(src[start + i]);
        proof {
            assert(out@ =~= src@.subrange(start as int, start as int + i + 1 as int));
        }
        i = i + 1;
    }
    out
}

/// The big-endian value of the 4 bytes at `pos`.
fn read_be32(b: &Vec<u8>, pos: usize) -> (r: u32)
    requires
        pos + 4 <= b.len(),
    ensures
        r == be32_value(b@[pos as int], b@[pos as int + 1], b@[pos as int + 2], b@[pos as int + 3]),
{
    ((b[pos] as u32) << 24) | ((b[pos + 1] as u32) << 16) | ((b[pos + 2] as u32) << 8) | (b[pos
        + 3] as u32)
}

/// The text that base64 (standard alphabet, padded) produces for given bytes.
pub uninterp spec fn b64_encode_spec(b: Seq<u8>) -> Seq<char>;

/// The bytes that base64 decoding recovers from given text, or `None` when
/// the text is not valid base64.
pub uninterp spec fn b64_decode_spec(s: Seq<char>) -> Option<Seq<u8>>;

#[verifier::external_type_specification]
#[verifier::external_body]
pub struct ExDecodeError(base64::DecodeError);

/// Relies on base64's `Engine::encode` with the standard engine: decoding the
/// produced text yields the input bytes again.
#[verifier::external_body]
fn b64_encode(b: &Vec<u8>) -> (r: String)
    ensures
        r@ == b64_encode_spec(b@),
        b64_decode_spec(r@) == Some(b@),
{
    base64::Engine::encode(&base64::engine::general_purpose::STANDARD, b)
}

/// Relies on base64's `Engine::decode` with the standard engine: it returns
/// the decoded bytes, and an error exactly on text that is not valid base64.
#[verifier::external_body]
fn b64_decode(s: &str) -> (r: Result<Vec<u8>, base64::DecodeError>)
    ensures
        match r {
            Ok(v) => b64_decode_spec(s@) == Some(v@),
            Err(_) => b64_decode_spec(s@) is None,
        },
{
    base64::Engine::decode(&base64::engine::general_purpose::STANDARD, s)
}

/// The stored string for a (salt, nonce, ciphertext) triple.
pub open spec fn encode_envelope_spec(salt: Seq<u8>, nonce: Seq<u8>, ct: Seq<u8>) -> Seq<char> {
    b64_encode_spec(frame_spec(salt, nonce, ct))
}

/// What decoding a stored string yields: base64, then the binary layout.
pub open spec fn decode_envelope_spec(s: Seq<char>) -> Option<(Seq<u8>, Seq<u8>, Seq<u8>)> {
    match b64_decode_spec(s) {
        Some(b) => parse_frame_spec(b),
        None => None,
    }
}

/// Serializes an envelope into its stored string. Decoding the result gives
/// the three fields back.
pub fn encode(data: &EncryptedData) -> (r: String)
    requires
        data.salt@.len() <= u32::MAX,
        data.nonce@.len() <= u32::MAX,
        data.ciphertext@.len() <= u32::MAX,
    ensures
        r@ == encode_envelope_spec(data.salt@, data.nonce@, data.ciphertext@),
        decode_envelope_spec(r@) == Some((data.salt@, data.nonce@, data.ciphertext@)),
{
    let framed = encode_frame(data);
    let s = b64_encode(&framed);
    proof {
        lemma_frame_round_trip(data.salt@, data.nonce@, data.ciphertext@);
    }
    s
}

/// Deserializes a stored string; `MalformedEnvelope` exactly on strings that
/// are not valid base64 or whose bytes do not parse as the binary layout.
pub fn decode(s: &str) -> (r: Result<EncryptedData, EnvelopeError>)
    ensures
        match r {
            Ok(d) => decode_envelope_spec(s@) == Some((d.salt@, d.nonce@, d.ciphertext@)),
            Err(_) => decode_envelope_spec(s@) is None,
        },
{
    let bytes = match b64_decode(s) {
        Ok(v) => v,
        Err(_) => {
            return Err(EnvelopeError::MalformedEnvelope);
        },
    };
    match parse_frame(&bytes) {
        Some(d) => Ok(d),
        None => Err(EnvelopeError::MalformedEnvelope),
    }
}

/// Frames the three fields into the binary layout.
pub fn encode_frame(data: &EncryptedData) -> (r: Vec<u8>)
    requires
        data.salt@.len() <= u32::MAX,
        data.nonce@.len() <= u32::MAX,
        data.ciphertext@.len() <= u32::MAX,
    ensures
        r@ == frame_spec(data.salt@, data.nonce@, data.ciphertext@),
{
    let mut out: Vec<u8> = Vec::new();
    push_be32(&mut out, data.salt.len() as u32);
    push_bytes(&mut out, &data.salt);
    push_be32(&mut out, data.nonce.len() as u32);
    push_bytes(&mut out, &data.nonce);
    push_be32(&mut out, data.ciphertext.len() as u32);
    push_bytes(&mut out, &data.ciphertext);
    out
}

/// Parses framed bytes back into the three fields; `None` exactly on the
/// buffers `parse_frame_spec` rejects.
pub fn parse_frame(b: &Vec<u8>) -> (r: Option<EncryptedData>)
    ensures
        match r {
            Some(data) => parse_frame_spec(b@) == Some(
                (data.salt@, data.nonce@, data.ciphertext@),
            ),
            None => parse_frame_spec(b@) is None,
        },
{
    if b.len() < 12 {
        return None;
    }
    let salt_len = read_be32(b, 0) as usize;
    if salt_len > b.len() - 4 {
        return None;
    }
    let salt = copy_range(b, 4, salt_len);
    let p1 = 4 + salt_len;
    if p1 > b.len() - 4 {
        return None;
    }
    let nonce_len = read_be32(b, p1) as usize;
    if nonce_len > b.len() - (p1 + 4) {
        return None;
    }
    let nonce = copy_range(b, p1 + 4, nonce_len);
    let p2 = p1 + 4 + nonce_len;
    if p2 > b.len() - 4 {
        return None;
    }
    let ct_len = read_be32(b, p2) as usize;
    if ct_len > b.len() - (p2 + 4) {
        return None;
    }
    let ciphertext = copy_range(b, p2 + 4, ct_len);
    Some(EncryptedData { salt, nonce, ciphertext })
}

} // verus!
