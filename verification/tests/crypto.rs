use rs_postgres::checksum::create_checksum;
use rs_postgres::cipher::{open, seal, CipherError};
use rs_postgres::crypt::{decrypt_string, encrypt_string, DecryptError};

#[test]
fn seal_open_round_trip() {
    let salt = vec![5u8; 16];
    let nonce = vec![6u8; 12];
    let key = rs_postgres::kdf::derive("hunter2", &salt);
    let plaintext: Vec<u8> = b"attack at dawn".to_vec();
    let sealed = seal(&key, &nonce, &plaintext);
    assert_eq!(open(&key, &nonce, &sealed), Ok(plaintext));
}

#[test]
fn seal_appends_tag_and_transforms() {
    let salt = vec![5u8; 16];
    let nonce = vec![6u8; 12];
    let key = rs_postgres::kdf::derive("hunter2", &salt);
    let plaintext: Vec<u8> = b"attack at dawn".to_vec();
    let sealed = seal(&key, &nonce, &plaintext);
    assert_eq!(sealed.len(), plaintext.len() + 16);
    assert_ne!(&sealed[..plaintext.len()], &plaintext[..]);
}

#[test]
fn open_rejects_wrong_password() {
    let salt = vec![5u8; 16];
    let nonce = vec![6u8; 12];
    let key1 = rs_postgres::kdf::derive("hunter2", &salt);
    let key2 = rs_postgres::kdf::derive("wrong-pw", &salt);
    let sealed = seal(&key1, &nonce, &b"attack at dawn".to_vec());
    assert_eq!(open(&key2, &nonce, &sealed), Err(CipherError::AuthenticationFailure));
}

#[test]
fn open_rejects_every_single_bit_flip() {
    let salt = vec![5u8; 16];
    let nonce = vec![6u8; 12];
    let key = rs_postgres::kdf::derive("hunter2", &salt);
    let sealed = seal(&key, &nonce, &b"topsecret".to_vec());
    for byte in 0..sealed.len() {
        for bit in 0..8 {
            let mut tampered = sealed.clone();
            tampered[byte] ^= 1u8 << bit;
            assert_eq!(
                open(&key, &nonce, &tampered),
                Err(CipherError::AuthenticationFailure),
                "flip at byte {byte} bit {bit} must not pass"
            );
        }
    }
}

#[test]
fn derived_key_depends_on_salt_and_is_deterministic() {
    let salt_a = vec![1u8; 16];
    let salt_b = vec![2u8; 16];
    let k1 = rs_postgres::kdf::derive("hunter2", &salt_a);
    let k2 = rs_postgres::kdf::derive("hunter2", &salt_b);
    let k3 = rs_postgres::kdf::derive("hunter2", &salt_a);
    let k4 = rs_postgres::kdf::derive("other", &salt_a);
    assert_eq!(k1.len(), 32);
    assert_eq!(k1, k3);
    assert_ne!(k1, k2);
    assert_ne!(k1, k4);
}

#[test]
fn encrypt_decrypt_round_trip() {
    let encrypted = encrypt_string("secret-db-pw", "hunter2").unwrap();
    assert_eq!(decrypt_string(&encrypted, "hunter2"), Ok("secret-db-pw".to_string()));
}

#[test]
fn encrypt_decrypt_round_trip_empty_and_unicode() {
    let e1 = encrypt_string("", "hunter2").unwrap();
    assert_eq!(decrypt_string(&e1, "hunter2"), Ok(String::new()));
    let e2 = encrypt_string("пароль-сервера", "ключ").unwrap();
    assert_eq!(decrypt_string(&e2, "ключ"), Ok("пароль-сервера".to_string()));
}

#[test]
fn decrypt_rejects_wrong_password() {
    let encrypted = encrypt_string("secret-db-pw", "hunter2").unwrap();
    assert_eq!(
        decrypt_string(&encrypted, "wrong-pw"),
        Err(DecryptError::AuthenticationFailure)
    );
}

#[test]
fn decrypt_rejects_malformed_text() {
    assert_eq!(decrypt_string("@@@", "hunter2"), Err(DecryptError::MalformedEnvelope));
    assert_eq!(decrypt_string("AAAA", "hunter2"), Err(DecryptError::MalformedEnvelope));
}

#[test]
fn decrypt_rejects_wrong_nonce_length() {
    // a well-formed envelope whose nonce is not 12 bytes cannot ever open
    let data = rs_postgres::envelope::EncryptedData {
        salt: vec![0u8; 16],
        nonce: vec![1u8; 3],
        ciphertext: vec![2u8; 20],
    };
    let text = rs_postgres::envelope::encode(&data);
    assert_eq!(
        decrypt_string(&text, "hunter2"),
        Err(DecryptError::AuthenticationFailure)
    );
}

#[test]
fn two_seals_of_one_plaintext_differ_but_both_decrypt() {
    let a = encrypt_string("secret-db-pw", "hunter2").unwrap();
    let b = encrypt_string("secret-db-pw", "hunter2").unwrap();
    assert_ne!(a, b, "fresh salt and nonce must make every envelope unique");
    assert_eq!(decrypt_string(&a, "hunter2"), Ok("secret-db-pw".to_string()));
    assert_eq!(decrypt_string(&b, "hunter2"), Ok("secret-db-pw".to_string()));
}

#[test]
fn checksum_known_vectors() {
    assert_eq!(
        create_checksum("abc"),
        "ba7816bf8f01cfea414140de5dae2223b00361a396177a9cb410ff61f20015ad"
    );
    assert_eq!(
        create_checksum(""),
        "e3b0c44298fc1c149afbf4c8996fb92427ae41e4649b934ca495991b7852b855"
    );
}

#[test]
fn checksum_deterministic_and_discriminating() {
    assert_eq!(create_checksum("hunter2"), create_checksum("hunter2"));
    assert_ne!(create_checksum("hunter2"), create_checksum("hunter3"));
    assert_ne!(create_checksum("W1"), create_checksum("W2"));
    assert_eq!(create_checksum("hunter2").len(), 64);
}
