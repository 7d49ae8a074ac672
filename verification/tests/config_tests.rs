use ddns_sync::config::{config_from_fields, parse_config};
use ddns_sync::errors::SyncError;

fn s(x: &str) -> Option<String> {
    Some(x.to_string())
}

#[test]
fn config_all_fields_present() {
    let c = config_from_fields(
        s("admin"),
        s("hunter2"),
        s("http://192.168.1.1"),
        s("key123"),
        s("zone456"),
    )
    .unwrap();
    assert_eq!(c.router.username, "admin");
    assert_eq!(c.router.password, "hunter2");
    assert_eq!(c.router.url, "http://192.168.1.1");
    assert_eq!(c.provider.api_key, "key123");
    assert_eq!(c.provider.zone_id, "zone456");
}

#[test]
fn config_missing_username_fails() {
    let r = config_from_fields(None, s("p"), s("u"), s("k"), s("z"));
    assert!(matches!(r, Err(SyncError::ConfigError)));
}

#[test]
fn config_missing_password_fails() {
    let r = config_from_fields(s("a"), None, s("u"), s("k"), s("z"));
    assert!(matches!(r, Err(SyncError::ConfigError)));
}

#[test]
fn config_missing_url_fails() {
    let r = config_from_fields(s("a"), s("p"), None, s("k"), s("z"));
    assert!(matches!(r, Err(SyncError::ConfigError)));
}

#[test]
fn config_missing_api_key_fails() {
    let r = config_from_fields(s("a"), s("p"), s("u"), None, s("z"));
    assert!(matches!(r, Err(SyncError::ConfigError)));
}

#[test]
fn config_missing_zone_id_fails() {
    let r = config_from_fields(s("a"), s("p"), s("u"), s("k"), None);
    assert!(matches!(r, Err(SyncError::ConfigError)));
}

#[test]
fn config_empty_field_fails() {
    let r = config_from_fields(s(""), s("p"), s("u"), s("k"), s("z"));
    assert!(matches!(r, Err(SyncError::ConfigError)));
}

#[test]
fn parse_config_valid_document() {
    let text = "[router]\nusername = \"admin\"\npassword = \"hunter2\"\nurl = \"http://192.168.1.1\"\n\n[provider]\napi_key = \"key123\"\nzone_id = \"zone456\"\n";
    let c = parse_config(text).unwrap();
    assert_eq!(c.router.username, "admin");
    assert_eq!(c.router.password, "hunter2");
    assert_eq!(c.router.url, "http://192.168.1.1");
    assert_eq!(c.provider.api_key, "key123");
    assert_eq!(c.provider.zone_id, "zone456");
}

#[test]
fn parse_config_missing_field_fails() {
    let text = "[router]\nusername = \"admin\"\nurl = \"http://192.168.1.1\"\n\n[provider]\napi_key = \"key123\"\nzone_id = \"zone456\"\n";
    let r = parse_config(text);
    assert!(matches!(r, Err(SyncError::ConfigError)));
}

#[test]
fn parse_config_missing_section_fails() {
    let text = "[router]\nusername = \"a\"\npassword = \"p\"\nurl = \"u\"\n";
    let r = parse_config(text);
    assert!(matches!(r, Err(SyncError::ConfigError)));
}

#[test]
fn parse_config_wrong_type_fails() {
    let text = "[router]\nusername = \"admin\"\npassword = 5\nurl = \"http://192.168.1.1\"\n\n[provider]\napi_key = \"key123\"\nzone_id = \"zone456\"\n";
    let r = parse_config(text);
    assert!(matches!(r, Err(SyncError::ConfigError)));
}

#[test]
fn parse_config_malformed_fails() {
    let r = parse_config("not = [valid");
    assert!(matches!(r, Err(SyncError::ConfigError)));
}
