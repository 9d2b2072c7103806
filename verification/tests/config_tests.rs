//! Tests of configuration loading and the default mapping.

use language_handler::config::{create_default_config, load_or_create_config};

const DEFAULT_APPS: [&str; 6] = [
    "Terminal",
    "iTerm2",
    "iTerm",
    "Code",
    "Visual Studio Code",
    "Xcode",
];

#[test]
fn default_config_holds_the_six_entries() {
    let rules = create_default_config();
    assert_eq!(rules.len(), 6);
    for app in DEFAULT_APPS {
        let resolved = rules.resolve(app).expect("a default rule must resolve");
        assert_eq!(resolved.layout, "US");
        assert!(!resolved.fuzzy);
    }
}

#[test]
fn invalid_json_falls_back_to_defaults() {
    let loaded = load_or_create_config(Some("{ this is not json"));
    assert!(loaded.used_default);
    assert_eq!(loaded.rules.len(), 6);
    for app in DEFAULT_APPS {
        assert_eq!(loaded.rules.resolve(app).unwrap().layout, "US");
    }
}

#[test]
fn wrong_shape_falls_back_to_defaults() {
    let loaded = load_or_create_config(Some("{\"Terminal\": 3}"));
    assert!(loaded.used_default);
    assert_eq!(loaded.rules.len(), 6);
}

#[test]
fn missing_content_falls_back_to_defaults() {
    let loaded = load_or_create_config(None);
    assert!(loaded.used_default);
    assert_eq!(loaded.rules.len(), 6);
}

#[test]
fn valid_mapping_is_loaded() {
    let loaded = load_or_create_config(Some("{\"Safari\": \"RU\", \"Mail\": \"CN\"}"));
    assert!(!loaded.used_default);
    assert_eq!(loaded.rules.len(), 2);
    assert_eq!(loaded.rules.resolve("Safari").unwrap().layout, "RU");
    assert_eq!(loaded.rules.resolve("Mail").unwrap().layout, "CN");
    assert!(loaded.rules.resolve("Terminal").is_none());
}

#[test]
fn empty_object_is_an_empty_mapping() {
    let loaded = load_or_create_config(Some("{}"));
    assert!(!loaded.used_default);
    assert_eq!(loaded.rules.len(), 0);
}

#[test]
fn repeated_key_keeps_one_entry() {
    let loaded = load_or_create_config(Some("{\"A\": \"US\", \"A\": \"RU\"}"));
    assert!(!loaded.used_default);
    assert_eq!(loaded.rules.len(), 1);
}
