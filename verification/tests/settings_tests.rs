use luxamor::settings::{config_defaults, gen_random_key, is_runtime_generated, runtime_psk, ConfigValue, Settings, KEY_LEN};

fn empty_settings() -> Settings {
    Settings { link_len: None, haas_url: None, haas_key: None, ping_timeout: None, pre_shared_key: None, admin_name: None }
}

#[test]
fn defaults_of_the_settings() {
    let d = config_defaults("KEY");
    let shown: Vec<(String, String)> = d
        .iter()
        .map(|(k, v)| {
            (k.clone(), match v {
                ConfigValue::Int(i) => format!("int {}", i),
                ConfigValue::Text(t) => format!("text {}", t),
            })
        })
        .collect();
    let expected: Vec<(String, String)> = vec![
        ("link_len".to_string(), "int 16".to_string()),
        ("haas_url".to_string(), "text http://homeassistant.local:8123".to_string()),
        ("ping_timeout".to_string(), "int 300".to_string()),
        ("port".to_string(), "int 5892".to_string()),
        ("db".to_string(), "text db/db.sqlite".to_string()),
        ("PRE_SHARED_KEY".to_string(), "text RUNTIME_GENERATED-KEY".to_string()),
    ];
    assert_eq!(shown, expected);
}

#[test]
fn runtime_psk_is_marked() {
    assert_eq!(runtime_psk("abc"), "RUNTIME_GENERATED-abc");
    assert!(is_runtime_generated(&runtime_psk("abc")));
    assert!(is_runtime_generated(&runtime_psk("")));
    assert!(is_runtime_generated("RUNTIME_GENERATED"));
    assert!(!is_runtime_generated("my password"));
    assert!(!is_runtime_generated("RUNTIME_GENERATE"));
    assert!(!is_runtime_generated(""));
}

#[test]
fn random_key_has_64_alphanumerics() {
    let k = gen_random_key();
    assert_eq!(KEY_LEN, 64);
    assert_eq!(k.chars().count(), 64);
    assert!(k.chars().all(|c| c.is_ascii_alphanumeric()));
    assert_ne!(k, gen_random_key());
}

#[test]
fn settings_fall_back_to_defaults() {
    let s = empty_settings();
    assert_eq!(s.link_len(), 16);
    assert_eq!(s.ping_timeout(), 300);
    assert_eq!(s.haas_url(), "http://homeassistant.local:8123");
}

#[test]
fn settings_use_configured_values() {
    let s = Settings {
        link_len: Some(8),
        haas_url: Some("http://x:1".to_string()),
        ping_timeout: Some(60),
        ..empty_settings()
    };
    assert_eq!(s.link_len(), 8);
    assert_eq!(s.ping_timeout(), 60);
    assert_eq!(s.haas_url(), "http://x:1");
}
