use rs_postgres::envelope::{decode, encode, EncryptedData, EnvelopeError};

fn round_trip(salt: Vec<u8>, nonce: Vec<u8>, ciphertext: Vec<u8>) {
    let data = EncryptedData {
        salt: salt.clone(),
        nonce: nonce.clone(),
        ciphertext: ciphertext.clone(),
    };
    let s = encode(&data);
    let out = decode(&s).expect("a freshly encoded envelope must decode");
    assert_eq!(out.salt, salt);
    assert_eq!(out.nonce, nonce);
    assert_eq!(out.ciphertext, ciphertext);
}

#[test]
fn encode_decode_round_trip() {
    round_trip(vec![0u8; 16], vec![1u8; 12], vec![2u8, 3, 4, 5, 6]);
}

#[test]
fn encode_decode_round_trip_empty_fields() {
    round_trip(vec![], vec![], vec![]);
}

#[test]
fn encode_decode_round_trip_large_ciphertext() {
    let ct: Vec<u8> = (0..10_000u32).map(|i| (i % 251) as u8).collect();
    round_trip(vec![7u8; 16], vec![9u8; 12], ct);
}

#[test]
fn encode_exact_layout() {
    // salt 00 01, nonce 02, ciphertext 03 04 05, each field length-prefixed
    // as big-endian u32, then base64 of the 18 framed bytes.
    let data = EncryptedData {
        salt: vec![0u8, 1],
        nonce: vec![2u8],
        ciphertext: vec![3u8, 4, 5],
    };
    assert_eq!(encode(&data), "AAAAAgABAAAAAQIAAAADAwQF");
}

#[test]
fn decode_exact_layout() {
    let out = decode("AAAAAgABAAAAAQIAAAADAwQF").unwrap();
    assert_eq!(out.salt, vec![0u8, 1]);
    assert_eq!(out.nonce, vec![2u8]);
    assert_eq!(out.ciphertext, vec![3u8, 4, 5]);
}

#[test]
fn decode_rejects_bad_base64() {
    assert_eq!(decode("not base64 !!!"), Err(EnvelopeError::MalformedEnvelope));
}

#[test]
fn decode_rejects_short_buffer() {
    // "AAAA" decodes to 3 bytes, below the 12-byte minimum header.
    assert_eq!(decode("AAAA"), Err(EnvelopeError::MalformedEnvelope));
    assert_eq!(decode(""), Err(EnvelopeError::MalformedEnvelope));
}

#[test]
fn decode_rejects_length_past_end() {
    // 12 zero bytes give salt_len 0, nonce_len 0, but only 4 bytes remain
    // for the ciphertext length field and it reads past the end when large.
    // 00000002 0001 (salt) then nonce length 00000005 with only one byte left.
    let bytes: Vec<u8> = vec![0, 0, 0, 2, 0, 1, 0, 0, 0, 5, 9];
    let text = base64::Engine::encode(&base64::engine::general_purpose::STANDARD, &bytes);
    assert_eq!(decode(&text), Err(EnvelopeError::MalformedEnvelope));
}

#[test]
fn decode_ignores_trailing_bytes() {
    // The three fields parse and one stray byte follows; the parser reads
    // exactly the declared lengths.
    let bytes: Vec<u8> = vec![0, 0, 0, 1, 7, 0, 0, 0, 1, 8, 0, 0, 0, 1, 9, 255];
    let text = base64::Engine::encode(&base64::engine::general_purpose::STANDARD, &bytes);
    let out = decode(&text).unwrap();
    assert_eq!(out.salt, vec![7u8]);
    assert_eq!(out.nonce, vec![8u8]);
    assert_eq!(out.ciphertext, vec![9u8]);
}
