use mortimeriot::logging::TracingLevel;
use mortimeriot::server::cli::{
    apply_overrides, config_path_or_default, init_settings, InitArgs, LogLevel, Settings, StartArgs,
};
use mortimeriot::server::Error;

fn no_overrides() -> StartArgs {
    StartArgs { config: None, listener_ip: None, port: None, sqlite_db_path: None }
}

#[test]
fn server_log_levels_map_to_tracing_levels() {
    assert_eq!(LogLevel::Error.to_tracing_level(), TracingLevel::Error);
    assert_eq!(LogLevel::Warn.to_tracing_level(), TracingLevel::Warn);
    assert_eq!(LogLevel::Info.to_tracing_level(), TracingLevel::Info);
    assert_eq!(LogLevel::Debug.to_tracing_level(), TracingLevel::Debug);
    assert_eq!(LogLevel::Trace.to_tracing_level(), TracingLevel::Trace);
}

#[test]
fn default_settings() {
    let settings = Settings::default();
    assert_eq!(settings.listener_ip, "0.0.0.0");
    assert_eq!(settings.port, 2111);
    assert_eq!(settings.sqlite_db_path, "./mortimeriot.db");
}

#[test]
fn config_path_defaults_to_toml_file() {
    assert_eq!(config_path_or_default(None), "mortimeriot.toml");
    assert_eq!(config_path_or_default(Some("/etc/m.toml".to_owned())), "/etc/m.toml");
}

#[test]
fn overrides_replace_only_given_settings() {
    let loaded = Settings {
        listener_ip: "127.0.0.1".to_owned(),
        port: 8080,
        sqlite_db_path: "/var/db.sqlite".to_owned(),
    };
    let same = apply_overrides(loaded.clone(), no_overrides());
    assert_eq!((same.listener_ip.as_str(), same.port, same.sqlite_db_path.as_str()), ("127.0.0.1", 8080, "/var/db.sqlite"));

    let args = StartArgs { port: Some(9000), ..no_overrides() };
    let changed = apply_overrides(loaded.clone(), args.clone());
    assert_eq!((changed.listener_ip.as_str(), changed.port, changed.sqlite_db_path.as_str()), ("127.0.0.1", 9000, "/var/db.sqlite"));
    let twice = apply_overrides(changed, args);
    assert_eq!(twice.port, 9000);
    assert_eq!(twice.listener_ip, "127.0.0.1");

    let all = StartArgs {
        config: Some("ignored.toml".to_owned()),
        listener_ip: Some("10.0.0.1".to_owned()),
        port: Some(1),
        sqlite_db_path: Some("x.db".to_owned()),
    };
    let replaced = apply_overrides(loaded, all);
    assert_eq!((replaced.listener_ip.as_str(), replaced.port, replaced.sqlite_db_path.as_str()), ("10.0.0.1", 1, "x.db"));
}

#[test]
fn init_writes_defaults_with_overrides() {
    let plain = init_settings(InitArgs { config: None, listener_ip: None, port: None, sqlite_db_path: None });
    assert_eq!((plain.listener_ip.as_str(), plain.port, plain.sqlite_db_path.as_str()), ("0.0.0.0", 2111, "./mortimeriot.db"));
    let custom = init_settings(InitArgs {
        config: None,
        listener_ip: Some("127.0.0.1".to_owned()),
        port: None,
        sqlite_db_path: Some("data/m.db".to_owned()),
    });
    assert_eq!((custom.listener_ip.as_str(), custom.port, custom.sqlite_db_path.as_str()), ("127.0.0.1", 2111, "data/m.db"));
    let via_start = apply_overrides(
        Settings::default(),
        StartArgs { listener_ip: Some("127.0.0.1".to_owned()), sqlite_db_path: Some("data/m.db".to_owned()), ..no_overrides() },
    );
    assert_eq!(via_start.listener_ip, custom.listener_ip);
    assert_eq!(via_start.port, custom.port);
    assert_eq!(via_start.sqlite_db_path, custom.sqlite_db_path);
}

#[test]
fn error_texts() {
    assert_eq!(Error::MissingConfig("a.toml".to_owned()).describe(), "Missing required config file at a.toml");
    assert_eq!(Error::MissingDatabase("b.db".to_owned()).describe(), "Missing required sqlite database file at b.db");
    assert_eq!(
        Error::MissingIngestApiKey.describe(),
        "Missing required environment variable MORTIMERIOT_INGEST_API_KEY"
    );
    assert_eq!(Error::InvalidTimestamp.describe(), "Invalid UNIX timestamp");
}
