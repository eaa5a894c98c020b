use accountcat::config::{resolve, Config, ConfigFile, Database, EnvConfig, General, HashIds,
    LoadError, Login, Pki, Server};

fn empty_env() -> EnvConfig {
    EnvConfig {
        port: None,
        administrators: None,
        client_id: None,
        database: Database { host: None, user: None, password: None, database: None },
        salt: None,
        pki_ca: None,
    }
}

fn minimum_file() -> ConfigFile {
    ConfigFile {
        server: None,
        general: None,
        login: Some(Login { client_id: "dummy".to_string() }),
        database: None,
        hashids: Some(HashIds { salt: "salt".to_string() }),
        pki: None,
    }
}

#[test]
fn test_parse_minimum_config() {
    let config = resolve(Some(minimum_file()), empty_env()).unwrap();
    assert_eq!("dummy", config.login.client_id);
    assert_eq!("salt", config.hashids.salt);
    assert!(config.general.administrators.is_none());
}

#[test]
fn test_parse_administrators() {
    let file = ConfigFile {
        general: Some(General {
            administrators: Some(vec!["a".to_string(), "b".to_string(), "c".to_string()]),
        }),
        ..minimum_file()
    };
    let config = resolve(Some(file), empty_env()).unwrap();
    assert_eq!(vec!["a", "b", "c"], config.general.administrators.unwrap());
}

#[test]
fn missing_client_id_is_reported() {
    let file = ConfigFile { login: None, ..minimum_file() };
    let result = resolve(Some(file), empty_env());
    match result {
        Err(LoadError::MissingEssentialValue(name)) => assert_eq!("login.client_id", name),
        _ => panic!("expected a missing essential value"),
    }
}

#[test]
fn missing_salt_is_reported() {
    let file = ConfigFile { hashids: None, ..minimum_file() };
    let result = resolve(Some(file), empty_env());
    match result {
        Err(LoadError::MissingEssentialValue(name)) => assert_eq!("hashids.salt", name),
        _ => panic!("expected a missing essential value"),
    }
}

#[test]
fn environment_wins_over_file() {
    let env = EnvConfig {
        port: Some(8443),
        client_id: Some("env-client".to_string()),
        salt: Some("env-salt".to_string()),
        pki_ca: Some("/var/pki".to_string()),
        ..empty_env()
    };
    let file = ConfigFile {
        server: Some(Server { port: Some(80) }),
        pki: Some(Pki { ca: "./elsewhere".to_string() }),
        ..minimum_file()
    };
    let config: Config = resolve(Some(file), env).unwrap();
    assert_eq!(Some(8443), config.server.port);
    assert_eq!("env-client", config.login.client_id);
    assert_eq!("env-salt", config.hashids.salt);
    assert_eq!("/var/pki", config.pki.ca);
}

#[test]
fn database_defaults_fill_gaps() {
    let config = resolve(Some(minimum_file()), empty_env()).unwrap();
    assert_eq!(Some("localhost".to_string()), config.database.host);
    assert_eq!(Some("postgres".to_string()), config.database.user);
    assert_eq!(None, config.database.password);
    assert_eq!(Some("accountcat".to_string()), config.database.database);
}

#[test]
fn database_without_name_drops_the_name() {
    let db = Database {
        host: Some("db.internal".to_string()),
        user: Some("svc".to_string()),
        password: Some("hunter2".to_string()),
        database: Some("accounts".to_string()),
    };
    let stripped = db.without_name();
    assert_eq!(Some("db.internal".to_string()), stripped.host);
    assert_eq!(Some("svc".to_string()), stripped.user);
    assert_eq!(Some("hunter2".to_string()), stripped.password);
    assert_eq!(None, stripped.database);
}

#[test]
fn default_pki_directory() {
    let config = resolve(Some(minimum_file()), empty_env()).unwrap();
    assert_eq!("./pki", config.pki.ca);
}

#[test]
fn server_or_prefers_its_own_port() {
    let merged = Server { port: Some(1) }.or(Some(Server { port: Some(2) }));
    assert_eq!(Some(1), merged.port);
    let filled = Server { port: None }.or(Some(Server { port: Some(2) }));
    assert_eq!(Some(2), filled.port);
}

#[test]
fn general_or_prefers_its_own_administrators() {
    let merged = General { administrators: None }.or(Some(General {
        administrators: Some(vec!["a".to_string()]),
    }));
    assert_eq!(Some(vec!["a".to_string()]), merged.administrators);
}
