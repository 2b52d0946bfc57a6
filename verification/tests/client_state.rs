use rs_postgres::config::{
    apply_encoded_secrets, apply_plain_secrets, to_encoded_secrets, to_plain_secrets, Config,
    Server,
};
use rs_postgres::forms::{
    parse_port, server_from_form, validate_add_server, AddServerWindow, DeleteServerWindow,
    FormError, LoginWindow, SQLResponseCopyWindow,
};
use rs_postgres::translate::{Language, Translator};
use rs_postgres::vault::{PlainSecret, Vault};

fn sample_server(alias: &str, password: &str) -> Server {
    Server {
        alias: alias.to_string(),
        ip: "127.0.0.1".to_string(),
        port: 5432,
        user: "postgres".to_string(),
        password: password.to_string(),
        service_database: "postgres".to_string(),
    }
}

#[test]
fn config_default_is_first_run() {
    let config = Config::default();
    assert!(config.servers.is_empty());
    assert!(config.password_hash.is_none());
}

#[test]
fn config_secrets_round_trip_through_vault() {
    let mut config = Config {
        servers: vec![sample_server("p1", "secret-db-pw"), sample_server("p2", "other-pw")],
        password_hash: None,
    };
    let mut vault = Vault::default();
    vault.initialize("hunter2");
    vault.lock(&to_plain_secrets(&config), "hunter2").unwrap();
    config.password_hash = vault.checksum.clone();
    apply_encoded_secrets(&mut config, &vault.secrets);
    assert_ne!(config.servers[0].password, "secret-db-pw", "at rest only envelopes are stored");

    // a later session reads the record back
    let session = Vault {
        checksum: config.password_hash.clone(),
        secrets: to_encoded_secrets(&config),
    };
    let plain = session.unlock("hunter2").unwrap();
    apply_plain_secrets(&mut config, &plain);
    assert_eq!(config.servers[0].password, "secret-db-pw");
    assert_eq!(config.servers[1].password, "other-pw");
    assert_eq!(config.servers[0].alias, "p1");
    assert_eq!(config.servers[0].ip, "127.0.0.1");
    assert_eq!(config.servers[0].port, 5432);
}

#[test]
fn converters_keep_names_and_values() {
    let config = Config {
        servers: vec![sample_server("a", "x"), sample_server("b", "y")],
        password_hash: None,
    };
    let plain = to_plain_secrets(&config);
    assert_eq!(plain.len(), 2);
    assert_eq!((plain[0].name.as_str(), plain[0].value.as_str()), ("a", "x"));
    assert_eq!((plain[1].name.as_str(), plain[1].value.as_str()), ("b", "y"));
    let encoded = to_encoded_secrets(&config);
    assert_eq!((encoded[1].name.as_str(), encoded[1].envelope.as_str()), ("b", "y"));
}

#[test]
fn apply_plain_secrets_touches_only_passwords() {
    let mut config = Config {
        servers: vec![sample_server("a", "old")],
        password_hash: Some("h".to_string()),
    };
    let plain = vec![PlainSecret { name: "a".to_string(), value: "new".to_string() }];
    apply_plain_secrets(&mut config, &plain);
    assert_eq!(config.servers[0].password, "new");
    assert_eq!(config.servers[0].alias, "a");
    assert_eq!(config.servers[0].user, "postgres");
    assert_eq!(config.password_hash, Some("h".to_string()));
}

#[test]
fn form_defaults_match_first_run() {
    let add = AddServerWindow::default();
    assert!(!add.show);
    assert_eq!(add.port_field, "5432");
    assert_eq!(add.service_database_field, "postgres");
    assert!(add.name_field.is_empty());

    let del = DeleteServerWindow::default();
    assert!(!del.show && del.server.is_none());

    let copy = SQLResponseCopyWindow::default();
    assert!(!copy.show && copy.response.is_none());

    let login = LoginWindow::default();
    assert!(login.show && !login.clear_storage);
    assert!(login.password.is_empty() && login.error.is_none());
}

#[test]
fn find_server_takes_the_last_matching_connection() {
    let mut a = sample_server("a", "x");
    let b = sample_server("b", "y");
    let mut c = sample_server("c", "z");
    a.port = 5000;
    c.port = 5000;
    // a and c share ip/user; only the ports tell connections apart
    let mut twin = sample_server("twin", "w");
    twin.port = 5000;
    let servers = vec![a.clone(), b.clone(), c.clone()];
    assert_eq!(rs_postgres::config::find_server(&servers, &twin), Some(2));
    assert_eq!(rs_postgres::config::find_server(&servers, &b), Some(1));
    let mut other = sample_server("o", "w");
    other.port = 9999;
    assert_eq!(rs_postgres::config::find_server(&servers, &other), None);
}

#[test]
fn remove_server_drops_exactly_one_entry() {
    let mut config = Config {
        servers: vec![sample_server("a", "x"), sample_server("b", "y")],
        password_hash: Some("h".to_string()),
    };
    rs_postgres::config::remove_server(&mut config, 0);
    assert_eq!(config.servers.len(), 1);
    assert_eq!(config.servers[0].alias, "b");
    assert_eq!(config.password_hash, Some("h".to_string()));
}

#[test]
fn port_parsing_follows_u16_rules() {
    assert_eq!(parse_port("5432"), Some(5432));
    assert_eq!(parse_port("+80"), Some(80));
    assert_eq!(parse_port("0"), Some(0));
    assert_eq!(parse_port("65535"), Some(65535));
    assert_eq!(parse_port("65536"), None);
    assert_eq!(parse_port(""), None);
    assert_eq!(parse_port("+"), None);
    assert_eq!(parse_port("12a"), None);
    assert_eq!(parse_port(" 1"), None);
    assert_eq!(parse_port("-1"), None);
    assert_eq!(parse_port("99999999999999999999"), None);
}

fn filled_form(name: &str, port: &str) -> AddServerWindow {
    let mut form = AddServerWindow::default();
    form.name_field = name.to_string();
    form.ip_field = "127.0.0.1".to_string();
    form.port_field = port.to_string();
    form.user_field = "postgres".to_string();
    form
}

#[test]
fn add_server_form_checks() {
    let servers = vec![sample_server("taken", "pw")];
    assert_eq!(validate_add_server(&filled_form("fresh", "5432"), &servers), vec![]);
    assert_eq!(
        validate_add_server(&AddServerWindow::default(), &servers),
        vec![FormError::NameRequired, FormError::IpRequired, FormError::UserRequired]
    );
    assert_eq!(
        validate_add_server(&filled_form("taken", "5432"), &servers),
        vec![FormError::NameNotUnique]
    );
    let long_name = "a".repeat(33);
    assert_eq!(
        validate_add_server(&filled_form(&long_name, "5432"), &servers),
        vec![FormError::NameTooLong]
    );
    assert_eq!(
        validate_add_server(&filled_form("fresh", "port"), &servers),
        vec![FormError::IncorrectPort]
    );
}

#[test]
fn server_built_from_form_carries_every_field() {
    let mut form = filled_form("fresh", "5433");
    form.password_field = "pw".to_string();
    let server = server_from_form(&form).unwrap();
    assert_eq!(server.alias, "fresh");
    assert_eq!(server.ip, "127.0.0.1");
    assert_eq!(server.port, 5433);
    assert_eq!(server.user, "postgres");
    assert_eq!(server.password, "pw");
    assert_eq!(server.service_database, "postgres");
    assert!(server_from_form(&filled_form("fresh", "oops")).is_none());
}

#[test]
fn translator_picks_language() {
    let en = Translator::new(Language::English);
    let ru = Translator::new(Language::Russian);
    assert_eq!(en.add_server(), "Add server");
    assert_eq!(ru.add_server(), "Добавить сервер");
    assert_eq!(en.incorrect_password_hash_mismatch(), "Incorrect password: hash mismatch");
    assert_eq!(ru.yes(), "Да");
    assert_eq!(en.name_is_required(), "- Name is required");
}

#[test]
fn translator_formats_affixed_texts() {
    let en = Translator::new(Language::English);
    let ru = Translator::new(Language::Russian);
    assert_eq!(en.version("1.2.3"), "Version 1.2.3");
    assert_eq!(ru.version("1.2.3"), "Версия 1.2.3");
    assert_eq!(en.time("42"), "Time: 42 ms");
    assert_eq!(ru.time("42"), "Время: 42 ms");
    assert_eq!(en.rows("7"), "Rows: 7");
}
