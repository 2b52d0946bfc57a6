use rs_postgres::vault::{PlainSecret, Vault, VaultError};

fn one_secret() -> Vec<PlainSecret> {
    vec![PlainSecret { name: "p1".to_string(), value: "secret-db-pw".to_string() }]
}

fn locked_vault() -> Vault {
    let mut vault = Vault::default();
    vault.initialize("hunter2");
    vault.lock(&one_secret(), "hunter2").unwrap();
    vault
}

#[test]
fn initialize_then_lock_then_unlock() {
    let vault = locked_vault();
    let out = vault.unlock("hunter2").unwrap();
    assert_eq!(out.len(), 1);
    assert_eq!(out[0].name, "p1");
    assert_eq!(out[0].value, "secret-db-pw");
}

#[test]
fn unlock_with_wrong_password_is_rejected_fast() {
    let vault = locked_vault();
    assert_eq!(vault.unlock("wrong-pw"), Err(VaultError::IncorrectPassword));
}

#[test]
fn corrupted_record_fails_whole_unlock_naming_it() {
    let mut vault = locked_vault();
    // corrupt one byte of the stored envelope string
    let stored = vault.secrets[0].envelope.clone();
    let mut bytes = stored.into_bytes();
    bytes[0] = if bytes[0] == b'B' { b'C' } else { b'B' };
    vault.secrets[0].envelope = String::from_utf8(bytes).unwrap();
    match vault.unlock("hunter2") {
        Err(VaultError::DecryptionFailure(name)) => assert_eq!(name, "p1"),
        other => panic!("corruption must fail the unlock, got {:?}", other),
    }
}

#[test]
fn corruption_names_the_failing_record_among_many() {
    let mut vault = Vault::default();
    vault.initialize("hunter2");
    let plain = vec![
        PlainSecret { name: "p1".to_string(), value: "first".to_string() },
        PlainSecret { name: "p2".to_string(), value: "second".to_string() },
    ];
    vault.lock(&plain, "hunter2").unwrap();
    let stored = vault.secrets[1].envelope.clone();
    let mut bytes = stored.into_bytes();
    let mid = bytes.len() / 2;
    bytes[mid] = if bytes[mid] == b'B' { b'C' } else { b'B' };
    vault.secrets[1].envelope = String::from_utf8(bytes).unwrap();
    match vault.unlock("hunter2") {
        Err(VaultError::DecryptionFailure(name)) => assert_eq!(name, "p2"),
        other => panic!("corruption must fail the unlock, got {:?}", other),
    }
}

#[test]
fn change_password_reencrypts_under_new_password() {
    let mut vault = locked_vault();
    vault.change_password("hunter2", "newpw", &one_secret()).unwrap();
    let out = vault.unlock("newpw").unwrap();
    assert_eq!(out[0].value, "secret-db-pw");
    assert_eq!(vault.unlock("hunter2"), Err(VaultError::IncorrectPassword));
}

#[test]
fn change_password_rejects_wrong_old_password() {
    let mut vault = locked_vault();
    let before = vault.secrets[0].envelope.clone();
    assert_eq!(
        vault.change_password("wrong-pw", "newpw", &one_secret()),
        Err(VaultError::IncorrectPassword)
    );
    assert_eq!(vault.secrets[0].envelope, before, "a rejected change must not touch the vault");
    assert!(vault.unlock("hunter2").is_ok());
}

#[test]
fn lock_empty_set_always_succeeds() {
    // with no records to seal, a save makes no random draw and is owed Ok
    let mut vault = Vault::default();
    vault.initialize("hunter2");
    assert_eq!(vault.lock(&Vec::new(), "hunter2"), Ok(()));
    assert_eq!(vault.unlock("hunter2").unwrap().len(), 0);
}

#[test]
fn change_password_on_empty_set_always_succeeds() {
    let mut vault = Vault::default();
    vault.initialize("hunter2");
    vault.lock(&Vec::new(), "hunter2").unwrap();
    assert_eq!(vault.change_password("hunter2", "newpw", &Vec::new()), Ok(()));
    assert_eq!(vault.unlock("newpw").unwrap().len(), 0);
    assert_eq!(vault.unlock("hunter2"), Err(VaultError::IncorrectPassword));
}

#[test]
fn lock_several_records_keeps_names_and_order() {
    let mut vault = Vault::default();
    vault.initialize("hunter2");
    let plain = vec![
        PlainSecret { name: "alpha".to_string(), value: "a-pw".to_string() },
        PlainSecret { name: "beta".to_string(), value: "b-pw".to_string() },
        PlainSecret { name: "alpha".to_string(), value: "same-name".to_string() },
    ];
    vault.lock(&plain, "hunter2").unwrap();
    let out = vault.unlock("hunter2").unwrap();
    assert_eq!(out.len(), 3);
    assert_eq!((out[0].name.as_str(), out[0].value.as_str()), ("alpha", "a-pw"));
    assert_eq!((out[1].name.as_str(), out[1].value.as_str()), ("beta", "b-pw"));
    assert_eq!((out[2].name.as_str(), out[2].value.as_str()), ("alpha", "same-name"));
}

#[test]
fn relocking_replaces_envelopes() {
    let mut vault = locked_vault();
    let first = vault.secrets[0].envelope.clone();
    vault.lock(&one_secret(), "hunter2").unwrap();
    assert_ne!(vault.secrets[0].envelope, first, "every save re-encrypts with fresh randomness");
    assert_eq!(vault.unlock("hunter2").unwrap()[0].value, "secret-db-pw");
}

#[test]
fn clear_storage_returns_to_first_run() {
    let mut vault = locked_vault();
    vault.clear_storage();
    assert!(vault.checksum.is_none());
    assert!(vault.secrets.is_empty());
    // a new password can then be established from scratch
    vault.initialize("fresh-pw");
    vault.lock(&one_secret(), "fresh-pw").unwrap();
    assert_eq!(vault.unlock("fresh-pw").unwrap()[0].value, "secret-db-pw");
}
