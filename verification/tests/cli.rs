use hyprnote::cli::{
    check_base_url, desktop_action_message, desktop_outcome, parse_base_url, recording_file_name,
    stt_overrides, AudioMode, AudioSource, ChannelKind, DesktopAction, GlobalArgs,
};

#[test]
fn audio_source_reports_dual_modes() {
    assert!(!AudioSource::Input.is_dual());
    assert!(!AudioSource::Output.is_dual());
    assert!(AudioSource::RawDual.is_dual());
    assert!(AudioSource::AecDual.is_dual());
}

#[test]
fn audio_source_flags() {
    assert!(AudioSource::AecDual.uses_aec());
    assert!(!AudioSource::RawDual.uses_aec());
    assert!(AudioSource::Mock.is_mock());
    assert!(!AudioSource::Input.is_mock());
    assert!(matches!(AudioSource::Input.single_capture_channel(), Ok(ChannelKind::Mic)));
    assert!(matches!(AudioSource::Mock.single_capture_channel(), Ok(ChannelKind::Mic)));
    assert!(matches!(AudioSource::Output.single_capture_channel(), Ok(ChannelKind::Speaker)));
    match AudioSource::AecDual.single_capture_channel() {
        Err(f) => {
            assert_eq!(f.operation, "create single audio stream");
            assert_eq!(f.reason, "dual audio modes use create_dual_audio_stream");
        }
        Ok(_) => panic!("expected an error"),
    }
}

#[test]
fn base_url_must_be_http_or_https() {
    assert_eq!(parse_base_url("https://api.example.com/v1"), Ok("https://api.example.com/v1".to_string()));
    assert_eq!(parse_base_url("http://localhost:8080"), Ok("http://localhost:8080".to_string()));
    assert_eq!(
        parse_base_url("ftp://example.com"),
        Err("invalid URL 'ftp://example.com': scheme must be http or https".to_string())
    );
    let err = parse_base_url("not a url").unwrap_err();
    assert!(err.starts_with("invalid URL 'not a url': "));
    assert!(err.len() > "invalid URL 'not a url': ".len());
}

#[test]
fn base_url_check_on_given_parse_outcomes() {
    assert_eq!(check_base_url("x", Err("relative URL without a base".to_string())),
        Err("invalid URL 'x': relative URL without a base".to_string()));
    assert_eq!(check_base_url("https://a", Ok("https".to_string())), Ok("https://a".to_string()));
    assert!(check_base_url("ws://a", Ok("ws".to_string())).is_err());
}

#[test]
fn record_mode_file_name_and_channels() {
    assert_eq!(recording_file_name("20240101_120000", AudioMode::Dual), "recording_20240101_120000_dual.wav");
    assert_eq!(AudioMode::Input.suffix(), "input");
    assert_eq!(AudioMode::Output.channels(), 1);
    assert_eq!(AudioMode::Dual.channels(), 2);
}

#[test]
fn desktop_outcomes() {
    assert!(matches!(desktop_outcome(false, Ok(()), None), Ok(DesktopAction::OpenedDownloadPage)));
    match desktop_outcome(false, Err("boom".to_string()), None) {
        Err(f) => {
            assert_eq!(f.operation, "open desktop app or download page");
            assert_eq!(f.reason, "boom\nPlease visit: https://char.com/download");
        }
        Ok(_) => panic!("expected an error"),
    }
    assert!(matches!(desktop_outcome(true, Ok(()), Some(1)), Ok(DesktopAction::OpenedApp)));
    match desktop_outcome(true, Ok(()), None) {
        Err(f) => assert_eq!(f.operation, "open desktop app"),
        Ok(_) => panic!("expected an error"),
    }
    assert_eq!(desktop_action_message(DesktopAction::OpenedApp), "Opened desktop app");
}

#[test]
fn stt_overrides_copy_the_global_options() {
    let global = GlobalArgs {
        base_url: Some("https://x".to_string()),
        api_key: None,
        model: Some("m".to_string()),
        language: "en".to_string(),
        no_color: false,
        base: None,
    };
    let o = stt_overrides(&global, Some(7u8));
    assert_eq!(o.provider, Some(7));
    assert_eq!(o.base_url.as_deref(), Some("https://x"));
    assert_eq!(o.api_key, None);
    assert_eq!(o.model.as_deref(), Some("m"));
    assert_eq!(o.language, "en");
}
