use rustypaste_cli::config::{Args, Config};

#[test]
fn test_update_from_args_overrides() {
    let mut config = Config::default();
    config.server.address = "https://old.example/".to_string();
    let args = Args {
        server: Some("https://new.example/".to_string()),
        auth: Some("token123".to_string()),
        delete: true,
        oneshot: true,
        expire: Some("10min".to_string()),
        filename: Some("other.txt".to_string()),
        ..Args::default()
    };
    config.update_from_args(&args);
    assert_eq!(config.server.address, "https://new.example/");
    assert_eq!(config.server.auth_token.as_deref(), Some("token123"));
    assert_eq!(config.server.delete_token.as_deref(), Some("token123"));
    assert_eq!(config.paste.oneshot, Some(true));
    assert_eq!(config.paste.expire.as_deref(), Some("10min"));
    assert_eq!(config.paste.filename.as_deref(), Some("other.txt"));
}

#[test]
fn test_update_from_args_auth_without_delete() {
    let mut config = Config::default();
    config.server.delete_token = Some("keep".to_string());
    let args = Args { auth: Some("token123".to_string()), ..Args::default() };
    config.update_from_args(&args);
    assert_eq!(config.server.auth_token.as_deref(), Some("token123"));
    assert_eq!(config.server.delete_token.as_deref(), Some("keep"));
}

#[test]
fn test_update_from_args_nothing_given() {
    let mut config = Config::default();
    config.server.address = "https://paste.example/".to_string();
    config.paste.oneshot = Some(false);
    config.paste.expire = Some("1h".to_string());
    config.update_from_args(&Args::default());
    assert_eq!(config.server.address, "https://paste.example/");
    assert!(config.server.auth_token.is_none());
    assert!(config.server.delete_token.is_none());
    assert_eq!(config.paste.oneshot, Some(false));
    assert_eq!(config.paste.expire.as_deref(), Some("1h"));
    assert!(config.paste.filename.is_none());
}

#[test]
fn test_config_default_is_empty() {
    let config = Config::default();
    assert!(config.server.address.is_empty());
    assert!(config.server.auth_token.is_none());
    assert!(config.server.auth_token_file.is_none());
    assert!(config.server.delete_token.is_none());
    assert!(config.server.delete_token_file.is_none());
    assert!(config.paste.oneshot.is_none());
    assert!(config.paste.expire.is_none());
    assert!(config.paste.filename.is_none());
    assert!(config.style.is_none());
}
