//! The credential store against a scratch config location: these exercise
//! the real config backend on disk.

use earningsfeed_cli::config::Config;
use earningsfeed_cli::error::ErrorKind;

#[test]
fn save_then_load_round_trips_a_credential() {
    let app = "earningsfeed-cli-store-test-a";
    let record = Config { api_key: Some("abc123xyz987".to_string()) };
    record.save(app).expect("save must succeed on a writable location");
    let loaded = Config::load(app).expect("load must succeed after a save");
    assert_eq!(loaded.api_key.as_deref(), Some("abc123xyz987"));
}

#[test]
fn save_none_then_load_gives_absent_credential() {
    let app = "earningsfeed-cli-store-test-b";
    let record = Config { api_key: Some("first-key-0123".to_string()) };
    record.save(app).expect("save must succeed on a writable location");
    let cleared = Config { api_key: None };
    cleared.save(app).expect("save must succeed on a writable location");
    let loaded = Config::load(app).expect("load must succeed after a save");
    assert!(loaded.api_key.is_none());
}

#[test]
fn load_without_a_file_is_an_absent_credential() {
    let app = "earningsfeed-cli-store-test-never-written";
    let loaded = Config::load(app).expect("a missing file is not an error");
    assert!(loaded.api_key.is_none());
}

#[test]
fn relogin_overwrites_the_stored_credential() {
    let app = "earningsfeed-cli-store-test-c";
    Config { api_key: Some("old-key-111222".to_string()) }
        .save(app)
        .expect("save must succeed on a writable location");
    Config { api_key: Some("new-key-333444".to_string()) }
        .save(app)
        .expect("save must succeed on a writable location");
    let loaded = Config::load(app).expect("load must succeed after a save");
    assert_eq!(loaded.api_key.as_deref(), Some("new-key-333444"));
}

#[test]
fn require_api_key_hands_out_the_stored_key() {
    let config = Config { api_key: Some("abc123xyz987".to_string()) };
    assert_eq!(config.require_api_key().ok(), Some("abc123xyz987"));
}

#[test]
fn require_api_key_fails_with_authentication_kind_when_absent() {
    let config = Config { api_key: None };
    let err = config.require_api_key().err().expect("no key must be refused");
    assert_eq!(err.kind_of(), ErrorKind::Authentication);
    assert_eq!(err.exit_code(), 3);
    assert_eq!(
        err.message(),
        "not authenticated. Run 'earningsfeed auth login' first."
    );
}

#[test]
fn config_path_names_the_app() {
    let path = Config::path("earningsfeed").expect("a config path exists");
    assert!(path.contains("earningsfeed"));
}
