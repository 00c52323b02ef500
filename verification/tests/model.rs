use hyprnote::model::{
    canonical_cactus_name, check_supported_kind, current_model_line, download_status, find_cactus_model,
    find_model,
    format_provider_config_status, is_current_model, matches_kind, progress_position,
    DesktopModelSettings, ModelKind, ModelProviderConfig,
};

fn empty_settings() -> DesktopModelSettings {
    DesktopModelSettings {
        current_stt_provider: None,
        current_stt_model: None,
        current_llm_provider: None,
        current_llm_model: None,
    }
}

#[test]
fn stt_current_model_uses_serialized_name() {
    let mut current = empty_settings();
    current.current_stt_provider = Some("hyprnote".to_string());
    current.current_stt_model = Some("QuantizedTiny".to_string());
    assert!(is_current_model(ModelKind::Stt, Some("QuantizedTiny"), &current));
    assert!(!is_current_model(ModelKind::Stt, Some("QuantizedBase"), &current));
    current.current_stt_provider = Some("deepgram".to_string());
    assert!(!is_current_model(ModelKind::Stt, Some("QuantizedTiny"), &current));
    current.current_stt_provider = Some("hyprnote".to_string());
    current.current_stt_model = Some("cloud".to_string());
    assert!(!is_current_model(ModelKind::Stt, Some("cloud"), &current));
}

#[test]
fn llm_current_model_uses_serialized_name() {
    let mut current = empty_settings();
    current.current_llm_model = Some("Llama3p2_3bQ4".to_string());
    assert!(is_current_model(ModelKind::Llm, Some("Llama3p2_3bQ4"), &current));
    assert!(!is_current_model(ModelKind::Llm, None, &current));
    assert!(is_current_model(ModelKind::Llm, None, &empty_settings()));
}

#[test]
fn kinds_and_supported_lists() {
    assert!(matches_kind(ModelKind::Stt, None));
    assert!(matches_kind(ModelKind::Llm, Some(ModelKind::Llm)));
    assert!(!matches_kind(ModelKind::Llm, Some(ModelKind::Stt)));
    assert!(check_supported_kind(Some(ModelKind::Stt)).is_ok());
    let e = check_supported_kind(Some(ModelKind::Llm)).err().unwrap();
    assert_eq!(e.name, "--supported");
    assert_eq!(e.reason, "Only STT has a shared supported model list right now; use `--kind stt`.");
    let e = check_supported_kind(None).err().unwrap();
    assert_eq!(e.reason, "Pass `--kind stt` (supported list is STT-only right now).");
}

#[test]
fn provider_config_status() {
    assert_eq!(format_provider_config_status(None), "config=missing");
    let c = ModelProviderConfig { base_url: Some("u".to_string()), has_api_key: false };
    assert_eq!(format_provider_config_status(Some(&c)), "config=base_url:set api_key:missing");
}

#[test]
fn cactus_names() {
    assert_eq!(canonical_cactus_name("whisper-small-int4"), "cactus-whisper-small-int4");
    assert_eq!(canonical_cactus_name("cactus-x"), "cactus-x");
    let names = vec!["whisper-tiny".to_string(), "cactus-a".to_string(), "cactus-b".to_string()];
    assert_eq!(find_cactus_model(&names, "b"), Some(2));
    assert_eq!(find_cactus_model(&names, "cactus-a"), Some(1));
    assert_eq!(find_cactus_model(&names, "whisper-tiny"), None);
}

#[test]
fn statuses_and_progress() {
    assert_eq!(download_status(Some(true), false), "downloaded");
    assert_eq!(download_status(Some(false), true), "not-downloaded");
    assert_eq!(download_status(Some(false), false), "unavailable");
    assert_eq!(download_status(None, true), "error");
    assert_eq!(progress_position(-1), None);
    assert_eq!(progress_position(55), Some(55));
    assert_eq!(progress_position(120), Some(100));
}

use hyprnote::model::{model_row_line, ModelRow};

#[test]
fn model_rows_as_lines() {
    let mut row = ModelRow {
        active: true,
        name: "cactus-a".to_string(),
        kind: "stt".to_string(),
        status: "downloaded".to_string(),
        display_name: "A".to_string(),
        description: "Apple Neural Engine".to_string(),
        install_path: "/m/a".to_string(),
    };
    assert_eq!(model_row_line(&row), "*\tcactus-a\tstt\tdownloaded\tA (Apple Neural Engine)");
    row.active = false;
    row.description = String::new();
    assert_eq!(model_row_line(&row), "\tcactus-a\tstt\tdownloaded\tA");
}

#[test]
fn current_lines_and_exact_lookup() {
    assert_eq!(
        current_model_line(ModelKind::Stt, Some("deepgram"), None, "config=missing"),
        "stt\tprovider=deepgram\tmodel=unset\tconfig=missing"
    );
    assert_eq!(
        current_model_line(ModelKind::Llm, None, None, "config=unavailable"),
        "llm\tprovider=unset\tmodel=unset\tconfig=unavailable"
    );
    let names = vec!["am-parakeet-v2".to_string(), "cactus-whisper-small-int4".to_string()];
    assert_eq!(find_model(&names, "cactus-whisper-small-int4"), Some(1));
    assert_eq!(find_model(&names, "whisper-small-int4"), None);
}
