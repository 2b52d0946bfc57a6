//! The vault: the state machine over the whole credential set. It owns the
//! persisted password checksum and the encrypted records; the master
//! password is passed in by the session and never stored here.

use vstd::prelude::*;
use vstd::utf8::encode_utf8;
use crate::checksum;
use crate::checksum::checksum_spec;
use crate::cipher::TAG_LEN;
use crate::crypt;
use crate::crypt::decrypt_string_spec;
use crate::kdf::MAX_PASSWORD_LEN;

verus! {

/// One secret in working memory: a record name and its plaintext value.
#[derive(Clone, Debug, PartialEq, Eq)]
pub struct PlainSecret {
    pub name: String,
    pub value: String,
}

/// One secret at rest: a record name and the encoded envelope protecting
/// its value.
#[derive(Clone, Debug, PartialEq, Eq)]
pub struct EncodedSecret {
    pub name: String,
    pub envelope: String,
}

/// Errors the vault surfaces to its caller. A wrong password and corrupted
/// data stay distinct from each other; the finer decrypt kinds are collapsed
/// into one decryption failure so no cryptographic detail leaks to the user.
#[derive(Clone, Debug, PartialEq, Eq)]
pub enum VaultError {
    /// The supplied master password's checksum does not match the stored one.
    IncorrectPassword,
    /// A stored record failed to decode or decrypt; carries the record name.
    DecryptionFailure(String),
    /// Sealing a record failed while saving: the plaintext is too long for
    /// an envelope, or the system's random source failed.
    EncryptionFailure,
}

/// The vault's persisted state: the optional master-password checksum
/// (absent on first run) and the encrypted records. Exactly one exists per
/// installation.
#[derive(Clone, Debug)]
pub struct Vault {
    pub checksum: Option<String>,
    pub secrets: Vec<EncodedSecret>,
}

/// No checksum stored yet: first run, no password established.
pub open spec fn is_uninitialized(v: Vault) -> bool {
    v.checksum is None
}

/// The stored checksum exists and matches the password.
pub open spec fn password_matches(v: Vault, password: Seq<char>) -> bool {
    v.checksum matches Some(c) && c@ == checksum_spec(password)
}

impl Default for Vault {
    /// The first-run vault: no checksum, no secrets.
    fn default() -> (v: Vault)
        ensures
            is_uninitialized(v),
            v.secrets@.len() == 0,
    {
        Vault { checksum: None, secrets: Vec::new() }
    }
}

impl Vault {
    /// First-time password creation: computes and persists the password's
    /// checksum. No secrets exist yet to decrypt, and none are touched.
    pub fn initialize(&mut self, password: &str)
        requires
            is_uninitialized(*old(self)),
        ensures
            password_matches(*final(self), password@),
            final(self).secrets@ == old(self).secrets@,
    {
        self.checksum = Some(checksum::create_checksum(password));
    }

    /// Login: recomputes the supplied password's checksum against the stored
    /// one, and only on a match decrypts every record. `IncorrectPassword`
    /// exactly on a checksum mismatch, before any decryption is attempted.
    /// If any single record fails despite a matching checksum, the whole
    /// unlock fails with `DecryptionFailure` naming that record — a
    /// half-unlocked credential set is never returned.
    pub fn unlock(&self, password: &str) -> (r: Result<Vec<PlainSecret>, VaultError>)
        requires
            self.checksum is Some,
            password@.len() <= MAX_PASSWORD_LEN,
        ensures
            match r {
                Ok(plain) => {
                    &&& password_matches(*self, password@)
                    &&& plain@.len() == self.secrets@.len()
                    &&& forall|i: int|
                        0 <= i < plain@.len() ==> {
                            &&& (#[trigger] plain@[i]).name@ == self.secrets@[i].name@
                            &&& decrypt_string_spec(self.secrets@[i].envelope@, password@)
                                == Some(plain@[i].value@)
                        }
                },
                Err(VaultError::IncorrectPassword) => !password_matches(*self, password@),
                Err(VaultError::DecryptionFailure(n)) => {
                    &&& password_matches(*self, password@)
                    &&& exists|i: int|
                        0 <= i < self.secrets@.len() && decrypt_string_spec(
                            (#[trigger] self.secrets@[i]).envelope@,
                            password@,
                        ) is None && n@ == self.secrets@[i].name@
                },
                Err(VaultError::EncryptionFailure) => false,
            },
    {
        match &self.checksum {
            Some(stored) => {
                let computed = checksum::create_checksum(password);
                if !(*stored == computed) {
                    return Err(VaultError::IncorrectPassword);
                }
            },
            None => {
                return Err(VaultError::IncorrectPassword);
            },
        }
        let mut plain: Vec<PlainSecret> = Vec::new();
        let mut i: usize = 0;
        while i < self.secrets.len()
            invariant
                i <= self.secrets@.len(),
                plain@.len() == i,
                forall|j: int|
                    0 <= j < i as int ==> {
                        &&& (#[trigger] plain@[j]).name@ == self.secrets@[j].name@
                        &&& decrypt_string_spec(self.secrets@[j].envelope@, password@) == Some(
                            plain@[j].value@,
                        )
                    },
                password_matches(*self, password@),
                password@.len() <= MAX_PASSWORD_LEN,
            decreases self.secrets@.len() - i,
        {
            let rec = &self.secrets[i];
            match crypt::decrypt_string(rec.envelope.as_str(), password) {
                Ok(value) => {
                    plain.push(PlainSecret { name: rec.name.clone(), value });
                },
                Err(_) => {
                    return Err(VaultError::DecryptionFailure(rec.name.clone()));
                },
            }
            i = i + 1;
        }
        Ok(plain)
    }

    /// Save: re-encrypts the whole plaintext set under the password — a
    /// fresh salt and nonce for every record, never ciphertext reuse — and
    /// replaces all stored records. The checksum is untouched. Failure can
    /// only come from sealing a record, so with no records to seal the save
    /// always succeeds; on failure the vault is unchanged.
    pub fn lock(&mut self, plain: &Vec<PlainSecret>, password: &str) -> (r: Result<
        (),
        VaultError,
    >)
        requires
            password@.len() <= MAX_PASSWORD_LEN,
        ensures
            final(self).checksum == old(self).checksum,
            match r {
                Ok(()) => {
                    &&& final(self).secrets@.len() == plain@.len()
                    &&& forall|i: int|
                        0 <= i < plain@.len() ==> {
                            &&& final(self).secrets@[i].name@ == (#[trigger] plain@[i]).name@
                            &&& decrypt_string_spec(final(self).secrets@[i].envelope@, password@)
                                == Some(plain@[i].value@)
                            &&& encode_utf8(plain@[i].value@).len() + TAG_LEN <= u32::MAX
                        }
                },
                Err(VaultError::EncryptionFailure) => {
                    &&& plain@.len() > 0
                    &&& final(self).secrets@ == old(self).secrets@
                },
                Err(_) => false,
            },
    {
        let mut sealed: Vec<EncodedSecret> = Vec::new();
        let mut i: usize = 0;
        while i < plain.len()
            invariant
                i <= plain@.len(),
                sealed@.len() == i,
                forall|j: int|
                    0 <= j < i as int ==> {
                        &&& sealed@[j].name@ == (#[trigger] plain@[j]).name@
                        &&& decrypt_string_spec(sealed@[j].envelope@, password@) == Some(
                            plain@[j].value@,
                        )
                        &&& encode_utf8(plain@[j].value@).len() + TAG_LEN <= u32::MAX
                    },
                password@.len() <= MAX_PASSWORD_LEN,
            decreases plain@.len() - i,
        {
            let rec = &plain[i];
            match crypt::encrypt_string(rec.value.as_str(), password) {
                Ok(envelope) => {
                    sealed.push(EncodedSecret { name: rec.name.clone(), envelope });
                },
                Err(_) => {
                    return Err(VaultError::EncryptionFailure);
                },
            }
            i = i + 1;
        }
        self.secrets = sealed;
        Ok(())
    }

    /// Password change: verifies the old password's checksum, re-encrypts
    /// every currently-decrypted secret under the new password, and stores
    /// the new checksum. `IncorrectPassword` exactly when the old password
    /// does not match; with a matching old password and no records to
    /// re-encrypt it always succeeds; on any failure the vault is unchanged.
    pub fn change_password(
        &mut self,
        old_password: &str,
        new_password: &str,
        plain: &Vec<PlainSecret>,
    ) -> (r: Result<(), VaultError>)
        requires
            old(self).checksum is Some,
            new_password@.len() <= MAX_PASSWORD_LEN,
        ensures
            match r {
                Ok(()) => {
                    &&& password_matches(*old(self), old_password@)
                    &&& password_matches(*final(self), new_password@)
                    &&& final(self).secrets@.len() == plain@.len()
                    &&& forall|i: int|
                        0 <= i < plain@.len() ==> {
                            &&& final(self).secrets@[i].name@ == (#[trigger] plain@[i]).name@
                            &&& decrypt_string_spec(
                                final(self).secrets@[i].envelope@,
                                new_password@,
                            ) == Some(plain@[i].value@)
                            &&& encode_utf8(plain@[i].value@).len() + TAG_LEN <= u32::MAX
                        }
                },
                Err(VaultError::IncorrectPassword) => {
                    &&& !password_matches(*old(self), old_password@)
                    &&& final(self).checksum == old(self).checksum
                    &&& final(self).secrets@ == old(self).secrets@
                },
                Err(VaultError::EncryptionFailure) => {
                    &&& password_matches(*old(self), old_password@)
                    &&& plain@.len() > 0
                    &&& final(self).checksum == old(self).checksum
                    &&& final(self).secrets@ == old(self).secrets@
                },
                Err(_) => false,
            },
    {
        match &self.checksum {
            Some(stored) => {
                let computed = checksum::create_checksum(old_password);
                if !(*stored == computed) {
                    return Err(VaultError::IncorrectPassword);
                }
            },
            None => {
                return Err(VaultError::IncorrectPassword);
            },
        }
        match self.lock(plain, new_password) {
            Ok(()) => {
                self.checksum = Some(checksum::create_checksum(new_password));
                Ok(())
            },
            Err(e) => Err(e),
        }
    }

    /// Destructive reset: discards every stored secret and the checksum,
    /// returning the vault to its first-run state. Irreversible — the
    /// caller must have confirmed explicitly before invoking this.
    pub fn clear_storage(&mut self)
        ensures
            is_uninitialized(*final(self)),
            final(self).secrets@.len() == 0,
    {
        self.checksum = None;
        self.secrets = Vec::new();
    }
}

} // verus!
