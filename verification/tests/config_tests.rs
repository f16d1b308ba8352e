use rimmich::config::AppConfig;
use rimmich::i18n::Language;

#[test]
fn default_config_values() {
    let c = AppConfig::default();
    assert_eq!(c.current_user, "");
    assert_eq!(c.server_url, "http://localhost:2283");
    assert_eq!(c.concurrency, 5);
    assert_eq!(c.language, Language::English);
    assert_eq!(c.log_level, "info");
    assert_eq!(c.users.len(), 0);
}

#[test]
fn first_added_user_becomes_default() {
    let mut c = AppConfig::default();
    c.add_user("ana".to_string(), "key-ana".to_string());
    assert_eq!(c.current_user, "ana");
    assert_eq!(c.lookup_api_key("ana").as_deref(), Some("key-ana"));
    c.add_user("bo".to_string(), "key-bo".to_string());
    // The default stays with the first account.
    assert_eq!(c.current_user, "ana");
    assert_eq!(c.lookup_api_key("bo").as_deref(), Some("key-bo"));
    assert_eq!(c.lookup_api_key("ana").as_deref(), Some("key-ana"));
    assert_eq!(c.lookup_api_key("nobody"), None);
}

#[test]
fn adding_an_existing_name_replaces_its_key() {
    let mut c = AppConfig::default();
    c.add_user("ana".to_string(), "old".to_string());
    c.add_user("bo".to_string(), "key-bo".to_string());
    c.add_user("ana".to_string(), "new".to_string());
    assert_eq!(c.users.len(), 2);
    assert_eq!(c.lookup_api_key("ana").as_deref(), Some("new"));
    assert_eq!(c.lookup_api_key("bo").as_deref(), Some("key-bo"));
}

#[test]
fn deleting_the_default_user_promotes_the_first_remaining() {
    let mut c = AppConfig::default();
    c.add_user("ana".to_string(), "a".to_string());
    c.add_user("bo".to_string(), "b".to_string());
    c.add_user("cy".to_string(), "c".to_string());
    assert_eq!(c.current_user, "ana");
    c.delete_user("ana");
    assert_eq!(c.lookup_api_key("ana"), None);
    assert_eq!(c.current_user, "bo");
    c.delete_user("cy");
    assert_eq!(c.current_user, "bo");
    c.delete_user("bo");
    assert_eq!(c.current_user, "");
    assert_eq!(c.users.len(), 0);
}

#[test]
fn deleting_another_user_keeps_the_default() {
    let mut c = AppConfig::default();
    c.add_user("ana".to_string(), "a".to_string());
    c.add_user("bo".to_string(), "b".to_string());
    c.delete_user("bo");
    assert_eq!(c.current_user, "ana");
    assert_eq!(c.lookup_api_key("bo"), None);
    assert_eq!(c.lookup_api_key("ana").as_deref(), Some("a"));
}

#[test]
fn set_default_user_changes_only_the_default() {
    let mut c = AppConfig::default();
    c.add_user("ana".to_string(), "a".to_string());
    c.add_user("bo".to_string(), "b".to_string());
    c.set_default_user("bo".to_string());
    assert_eq!(c.current_user, "bo");
    assert_eq!(c.users.len(), 2);
    assert_eq!(c.server_url, "http://localhost:2283");
}
