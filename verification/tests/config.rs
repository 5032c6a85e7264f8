use braiinspool_bot::config::{
    child_path, default_config_file, default_dir, Config, ConfigFile, ConfigFileMatrix, LogLevel,
};
use std::path::Path;

fn file(main_path: Option<&str>, log_level: Option<&str>) -> ConfigFile {
    ConfigFile {
        main_path: main_path.map(|p| p.to_string()),
        log_level: log_level.map(|l| l.to_string()),
        proxy: Some("socks5h://127.0.0.1:9050".to_string()),
        matrix: ConfigFileMatrix {
            homeserver_url: "https://matrix.org".to_string(),
            proxy: None,
            user_id: "@bot:matrix.org".to_string(),
            password: "secret".to_string(),
        },
    }
}

#[test]
fn child_path_joins_as_the_standard_library_does() {
    let bases = ["", "/", "/home/u", "/home/u/", "rel", "rel/"];
    let names = ["config", ".braiinspool_bot", "matrix/db", "/abs", ""];
    for base in bases {
        for name in names {
            let expected = Path::new(base).join(name);
            assert_eq!(child_path(base, name), expected.to_str().unwrap());
        }
    }
}

#[test]
fn child_path_examples() {
    assert_eq!(child_path("/home/u", "matrix/db"), "/home/u/matrix/db");
    assert_eq!(child_path("/home/u/", "matrix/db"), "/home/u/matrix/db");
    assert_eq!(child_path("", "matrix/db"), "matrix/db");
    assert_eq!(child_path("/home/u", "/etc"), "/etc");
}

#[test]
fn default_paths() {
    assert_eq!(default_dir("/home/u"), "/home/u/.braiinspool_bot");
    assert_eq!(default_config_file("/home/u"), "/home/u/.braiinspool_bot/config.toml");
}

#[test]
fn config_from_a_file_that_names_everything() {
    let config = Config::from_file(file(Some("/srv/bot"), Some("debug")), "/home/u/.braiinspool_bot");
    assert_eq!(config.main_path, "/srv/bot");
    assert!(matches!(config.log_level, LogLevel::Debug));
    assert_eq!(config.proxy.as_deref(), Some("socks5h://127.0.0.1:9050"));
    assert_eq!(config.matrix.db_path, "/srv/bot/matrix/db");
    assert_eq!(config.matrix.state_path, "/srv/bot/matrix/state");
    assert_eq!(config.matrix.homeserver_url, "https://matrix.org");
    assert_eq!(config.matrix.proxy, None);
    assert_eq!(config.matrix.user_id, "@bot:matrix.org");
    assert_eq!(config.matrix.password, "secret");
}

#[test]
fn config_from_a_file_that_names_little() {
    let config = Config::from_file(file(None, None), "/home/u/.braiinspool_bot");
    assert_eq!(config.main_path, "/home/u/.braiinspool_bot");
    assert!(matches!(config.log_level, LogLevel::Info));
    assert_eq!(config.matrix.db_path, "/home/u/.braiinspool_bot/matrix/db");
    assert_eq!(config.matrix.state_path, "/home/u/.braiinspool_bot/matrix/state");
}

#[test]
fn log_level_is_read_whatever_the_case() {
    let level = |name: &str| Config::from_file(file(None, Some(name)), "d").log_level;
    assert!(matches!(level("error"), LogLevel::Error));
    assert!(matches!(level("WARN"), LogLevel::Warn));
    assert!(matches!(level("Info"), LogLevel::Info));
    assert!(matches!(level("dEbUg"), LogLevel::Debug));
    assert!(matches!(level("TRACE"), LogLevel::Trace));
}

#[test]
fn log_level_that_is_none_is_info() {
    let level = |name: &str| Config::from_file(file(None, Some(name)), "d").log_level;
    assert!(matches!(level("off"), LogLevel::Info));
    assert!(matches!(level(""), LogLevel::Info));
    assert!(matches!(level("verbose"), LogLevel::Info));
    assert!(matches!(level(" trace"), LogLevel::Info));
}
