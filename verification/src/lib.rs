//! Credential vault for a PostgreSQL desktop client.
//!
//! Server passwords are protected at rest by authenticated encryption: a key
//! is derived from a master password and a random salt, each secret is sealed
//! under a fresh salt and nonce, and the result is framed and base64-encoded
//! into a single storable string. A one-way checksum of the master password
//! allows fast rejection of a wrong password before any decryption is tried.

pub mod checksum;
pub mod cipher;
pub mod config;
pub mod crypt;
pub mod envelope;
pub mod forms;
pub mod kdf;
pub mod rng;
pub mod translate;
pub mod vault;
