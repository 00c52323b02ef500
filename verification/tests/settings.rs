use hyprnote::json::{parse_json, JsonValue};
use hyprnote::settings::{
    connections_to_provider_map, insert_provider, provider_config_from_values, settings_from_json_text,
    settings_from_parts,
    ConnectionRow, ProviderConfig,
};

fn row(p: &str, url: &str, key: &str) -> ConnectionRow {
    ConnectionRow { provider_id: p.to_string(), base_url: url.to_string(), api_key: key.to_string() }
}

#[test]
fn later_connections_replace_earlier_ones() {
    let map = connections_to_provider_map(vec![
        row("deepgram", "", "k1"),
        row("openai", "https://o", ""),
        row("deepgram", "https://d", "k2"),
    ]);
    assert_eq!(map.len(), 2);
    let (id, cfg) = &map[0];
    assert_eq!(id, "deepgram");
    assert_eq!(cfg.base_url.as_deref(), Some("https://d"));
    assert_eq!(cfg.api_key.as_deref(), Some("k2"));
    let (id, cfg) = &map[1];
    assert_eq!(id, "openai");
    assert_eq!(cfg.api_key, None);
}

#[test]
fn settings_need_a_provider_or_a_connection() {
    let pairs = vec![("current_stt_provider".to_string(), "".to_string())];
    assert!(settings_from_parts(&pairs, Vec::new()).is_none());
    let pairs = vec![
        ("current_stt_provider".to_string(), "deepgram".to_string()),
        ("current_stt_model".to_string(), "nova".to_string()),
        ("current_stt_model".to_string(), "nova-3".to_string()),
    ];
    let s = settings_from_parts(&pairs, Vec::new()).unwrap();
    assert_eq!(s.current_stt_provider.as_deref(), Some("deepgram"));
    assert_eq!(s.current_stt_model.as_deref(), Some("nova-3"));
    let s = settings_from_parts(&Vec::new(), vec![row("x", "", "")]).unwrap();
    assert_eq!(s.current_stt_provider, None);
    assert_eq!(s.stt_providers.len(), 1);
}

#[test]
fn json_values_are_trimmed() {
    let c = provider_config_from_values(Some("  https://x  "), Some("   "));
    assert_eq!(c.base_url.as_deref(), Some("https://x"));
    assert_eq!(c.api_key, None);
    let mut map = Vec::new();
    insert_provider(&mut map, "a".to_string(), ProviderConfig { base_url: None, api_key: None });
    insert_provider(&mut map, "a".to_string(), c);
    assert_eq!(map.len(), 1);
    assert_eq!(map[0].1.base_url.as_deref(), Some("https://x"));
}

use hyprnote::settings::{migration_writes, Settings, SettingsWrite};

#[test]
fn settings_file_migration() {
    let file = Settings {
        current_stt_provider: Some("deepgram".to_string()),
        current_stt_model: None,
        stt_providers: vec![(
            "deepgram".to_string(),
            ProviderConfig { base_url: None, api_key: Some("k".to_string()) },
        )],
    };
    assert!(migration_writes(true, false, Some(&file)).is_empty());
    assert!(migration_writes(false, false, None).is_empty());
    let writes = migration_writes(false, false, Some(&file));
    assert_eq!(writes.len(), 2);
    match &writes[0] {
        SettingsWrite::SetSetting { key, value } => {
            assert_eq!(*key, "current_stt_provider");
            assert_eq!(value, "deepgram");
        }
        _ => panic!("expected a setting"),
    }
    match &writes[1] {
        SettingsWrite::UpsertConnection { kind, provider_id, base_url, api_key } => {
            assert_eq!(*kind, "stt");
            assert_eq!(provider_id, "deepgram");
            assert_eq!(base_url, "");
            assert_eq!(api_key, "k");
        }
        _ => panic!("expected a connection"),
    }
}

#[test]
fn old_settings_file_is_read_from_its_ai_section() {
    let text = r#"{
        "ai": {
            "current_stt_provider": "deepgram",
            "current_stt_model": "",
            "stt": {
                "deepgram": { "base_url": "  https://api.deepgram.com  ", "api_key": "   " },
                "custom": { "base_url": 3 },
                "broken": "not an object"
            }
        },
        "other": true
    }"#;
    let s = settings_from_json_text(text).expect("settings");
    assert_eq!(s.current_stt_provider.as_deref(), Some("deepgram"));
    assert_eq!(s.current_stt_model.as_deref(), Some(""));
    assert_eq!(s.stt_providers.len(), 2);
    let dg = s.stt_providers.iter().find(|(k, _)| k == "deepgram").expect("deepgram");
    assert_eq!(dg.1.base_url.as_deref(), Some("https://api.deepgram.com"));
    assert_eq!(dg.1.api_key, None);
    let custom = s.stt_providers.iter().find(|(k, _)| k == "custom").expect("custom");
    assert_eq!(custom.1.base_url, None);
    assert!(s.stt_providers.iter().all(|(k, _)| k != "broken"));

    assert!(settings_from_json_text("not json").is_none());
    assert!(settings_from_json_text("{\"ai\": 1}").is_none());
    assert!(settings_from_json_text("[]").is_none());
    let empty = settings_from_json_text("{\"ai\": {}}").expect("settings");
    assert!(empty.current_stt_provider.is_none() && empty.stt_providers.is_empty());
}

#[test]
fn json_values_are_read_member_for_member() {
    match parse_json("{\"b\": [1, null, false], \"a\": \"x\"}") {
        Some(JsonValue::Object(members)) => {
            assert_eq!(members.len(), 2);
            let a = members.iter().find(|(k, _)| k == "a").expect("a");
            assert!(matches!(&a.1, JsonValue::Str(s) if s == "x"));
            let b = members.iter().find(|(k, _)| k == "b").expect("b");
            match &b.1 {
                JsonValue::Array(items) => {
                    assert_eq!(items.len(), 3);
                    assert!(matches!(&items[0], JsonValue::Number(n) if n == "1"));
                    assert!(matches!(items[1], JsonValue::Null));
                    assert!(matches!(items[2], JsonValue::Bool(false)));
                }
                _ => panic!("expected an array"),
            }
        }
        _ => panic!("expected an object"),
    }
    assert!(parse_json("{").is_none());
}
