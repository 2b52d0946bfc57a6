//! The persisted configuration record: plain server fields plus, for each
//! server, one password field that holds the plaintext in working memory
//! after unlock and the encoded envelope string at rest, and the optional
//! master-password checksum. How the record is loaded and written is the
//! external store's concern.

use vstd::prelude::*;
use crate::vault::{EncodedSecret, PlainSecret};

verus! {

/// One configured server entry.
#[derive(Clone, Debug)]
pub struct Server {
    pub alias: String,
    pub ip: String,
    pub port: u16,
    pub user: String,
    pub password: String,
    pub service_database: String,
}

/// The top-level persisted record. An absent `password_hash` means no
/// master password has been established yet.
#[derive(Clone, Debug)]
pub struct Config {
    pub servers: Vec<Server>,
    pub password_hash: Option<String>,
}

impl Default for Config {
    /// The first-run record: no servers, no checksum.
    fn default() -> (c: Config)
        ensures
            c.servers@.len() == 0,
            c.password_hash is None,
    {
        Config { servers: Vec::new(), password_hash: None }
    }
}

/// The working set handed to the vault when saving: one named plaintext
/// secret per server, the alias naming the record.
pub fn to_plain_secrets(config: &Config) -> (r: Vec<PlainSecret>)
    ensures
        r@.len() == config.servers@.len(),
        forall|i: int|
            0 <= i < r@.len() ==> (#[trigger] r@[i]).name@ == config.servers@[i].alias@
                && r@[i].value@ == config.servers@[i].password@,
{
    let mut out: Vec<PlainSecret> = Vec::new();
    let mut i: usize = 0;
    while i < config.servers.len()
        invariant
            i <= config.servers@.len(),
            out@.len() == i,
            forall|j: int|
                0 <= j < i as int ==> (#[trigger] out@[j]).name@ == config.servers@[j].alias@
                    && out@[j].value@ == config.servers@[j].password@,
        decreases config.servers@.len() - i,
    {
        let s = &config.servers[i];
        out.push(PlainSecret { name: s.alias.clone(), value: s.password.clone() });
        i = i + 1;
    }
    out
}

/// The stored records handed to the vault when unlocking: one encoded
/// envelope per server, taken from the password field at rest.
pub fn to_encoded_secrets(config: &Config) -> (r: Vec<EncodedSecret>)
    ensures
        r@.len() == config.servers@.len(),
        forall|i: int|
            0 <= i < r@.len() ==> (#[trigger] r@[i]).name@ == config.servers@[i].alias@
                && r@[i].envelope@ == config.servers@[i].password@,
{
    let mut out: Vec<EncodedSecret> = Vec::new();
    let mut i: usize = 0;
    while i < config.servers.len()
        invariant
            i <= config.servers@.len(),
            out@.len() == i,
            forall|j: int|
                0 <= j < i as int ==> (#[trigger] out@[j]).name@ == config.servers@[j].alias@
                    && out@[j].envelope@ == config.servers@[j].password@,
        decreases config.servers@.len() - i,
    {
        let s = &config.servers[i];
        out.push(EncodedSecret { name: s.alias.clone(), envelope: s.password.clone() });
        i = i + 1;
    }
    out
}

/// Two server entries denote the same connection: same address, port and
/// user. This identity, not the alias, is what deletion goes by.
pub open spec fn same_connection(a: Server, b: Server) -> bool {
    a.ip@ == b.ip@ && a.port == b.port && a.user@ == b.user@
}

/// Finds the stored entry for a connection: the last index whose address,
/// port and user match, or `None` when no entry matches.
pub fn find_server(servers: &Vec<Server>, target: &Server) -> (r: Option<usize>)
    ensures
        match r {
            Some(i) => {
                &&& i < servers@.len()
                &&& same_connection(servers@[i as int], *target)
                &&& forall|j: int|
                    i < j < servers@.len() ==> !same_connection(
                        #[trigger] servers@[j],
                        *target,
                    )
            },
            None => forall|j: int|
                0 <= j < servers@.len() ==> !same_connection(#[trigger] servers@[j], *target),
        },
{
    let mut found: Option<usize> = None;
    let mut i: usize = 0;
    while i < servers.len()
        invariant
            i <= servers@.len(),
            match found {
                Some(k) => {
                    &&& k < i
                    &&& same_connection(servers@[k as int], *target)
                    &&& forall|j: int|
                        k < j < i as int ==> !same_connection(#[trigger] servers@[j], *target)
                },
                None => forall|j: int|
                    0 <= j < i as int ==> !same_connection(#[trigger] servers@[j], *target),
            },
        decreases servers@.len() - i,
    {
        let s = &servers[i];
        if s.ip == target.ip && s.port == target.port && s.user == target.user {
            found = Some(i);
        }
        i = i + 1;
    }
    found
}

/// Removes the server entry at `index`, leaving every other entry and the
/// checksum unchanged.
pub fn remove_server(config: &mut Config, index: usize)
    requires
        index < old(config).servers@.len(),
    ensures
        final(config).password_hash == old(config).password_hash,
        final(config).servers@ == old(config).servers@.remove(index as int),
{
    config.servers.remove(index);
}

/// True when server `s` keeps every field of `orig` but carries `password`
/// in the password field.
pub open spec fn server_with_password(s: Server, orig: Server, password: Seq<char>) -> bool {
    &&& s.alias@ == orig.alias@
    &&& s.ip@ == orig.ip@
    &&& s.port == orig.port
    &&& s.user@ == orig.user@
    &&& s.password@ == password
    &&& s.service_database@ == orig.service_database@
}

/// Replaces each server's password field with the plaintext recovered for
/// it (the working copy after a successful unlock), leaving every other
/// field and the checksum unchanged.
pub fn apply_plain_secrets(config: &mut Config, plain: &Vec<PlainSecret>)
    requires
        plain@.len() == old(config).servers@.len(),
    ensures
        final(config).password_hash == old(config).password_hash,
        final(config).servers@.len() == old(config).servers@.len(),
        forall|i: int|
            0 <= i < plain@.len() ==> server_with_password(
                #[trigger] final(config).servers@[i],
                old(config).servers@[i],
                plain@[i].value@,
            ),
{
    let mut out: Vec<Server> = Vec::new();
    let mut i: usize = 0;
    while i < config.servers.len()
        invariant
            config == old(config),
            plain@.len() == config.servers@.len(),
            i <= config.servers@.len(),
            out@.len() == i,
            forall|j: int|
                0 <= j < i as int ==> server_with_password(
                    #[trigger] out@[j],
                    config.servers@[j],
                    plain@[j].value@,
                ),
        decreases config.servers@.len() - i,
    {
        let s = &config.servers[i];
        out.push(
            Server {
                alias: s.alias.clone(),
                ip: s.ip.clone(),
                port: s.port,
                user: s.user.clone(),
                password: plain[i].value.clone(),
                service_database: s.service_database.clone(),
            },
        );
        i = i + 1;
    }
    config.servers = out;
}

/// Replaces each server's password field with the envelope sealed for it
/// (the at-rest copy after a save), leaving every other field and the
/// checksum unchanged.
pub fn apply_encoded_secrets(config: &mut Config, sealed: &Vec<EncodedSecret>)
    requires
        sealed@.len() == old(config).servers@.len(),
    ensures
        final(config).password_hash == old(config).password_hash,
        final(config).servers@.len() == old(config).servers@.len(),
        forall|i: int|
            0 <= i < sealed@.len() ==> server_with_password(
                #[trigger] final(config).servers@[i],
                old(config).servers@[i],
                sealed@[i].envelope@,
            ),
{
    let mut out: Vec<Server> = Vec::new();
    let mut i: usize = 0;
    while i < config.servers.len()
        invariant
            config == old(config),
            sealed@.len() == config.servers@.len(),
            i <= config.servers@.len(),
            out@.len() == i,
            forall|j: int|
                0 <= j < i as int ==> server_with_password(
                    #[trigger] out@[j],
                    config.servers@[j],
                    sealed@[j].envelope@,
                ),
        decreases config.servers@.len() - i,
    {
        let s = &config.servers[i];
        out.push(
            Server {
                alias: s.alias.clone(),
                ip: s.ip.clone(),
                port: s.port,
                user: s.user.clone(),
                password: sealed[i].envelope.clone(),
                service_database: s.service_database.clone(),
            },
        );
        i = i + 1;
    }
    config.servers = out;
}

} // verus!
