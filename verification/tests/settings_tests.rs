use handy::bindings::{Bindings, ShortcutBinding};
use handy::settings::{
    config_fingerprint, decide_stored_config, get_default_settings, get_history_limit,
    get_recording_retention_period, get_stored_binding, persisted_config, sanitize_settings,
    AppSettings, AutoSubmitKey, LoadOutcome, LogLevel, OverlayPosition, PasteMethod, Platform,
    RecordingRetentionPeriod, SecretString, SoundTheme, StoredConfig, APP_VERSION,
    LOCKED_WORD_CORRECTION_THRESHOLD_BITS,
};

fn binding(id: &str, keys: &str) -> ShortcutBinding {
    ShortcutBinding {
        id: id.to_string(),
        name: "Custom".to_string(),
        description: "Something else".to_string(),
        default_binding: "f1".to_string(),
        current_binding: keys.to_string(),
    }
}

fn customized(platform: Platform) -> AppSettings {
    let mut s = get_default_settings(platform);
    let mut b = Bindings::new();
    b.insert("transcribe".to_string(), binding("transcribe", "ctrl+alt+t"));
    b.insert("unknown".to_string(), binding("unknown", "f9"));
    s.bindings = b;
    s.push_to_talk = false;
    s.audio_feedback_volume_bits = 0.5f32.to_bits();
    s.mistral_transcription_api_key = SecretString::new("sk-test".to_string());
    s.selected_model = "other-model".to_string();
    s.selected_microphone = Some("USB Mic".to_string());
    s.log_level = LogLevel::Trace;
    s.debug_mode = true;
    s.history_limit = 99;
    s.custom_words = vec!["Handy".to_string()];
    s.paste_method = PasteMethod::CtrlV;
    s.overlay_position = OverlayPosition::Top;
    s.whisper_gpu_device = 3;
    s.word_correction_threshold_bits = 0.5f64.to_bits();
    s.start_hidden = true;
    s.auto_submit_key = AutoSubmitKey::CtrlEnter;
    s
}

#[test]
fn default_settings_values() {
    let s = get_default_settings(Platform::Linux);
    assert!(s.push_to_talk);
    assert_eq!(f32::from_bits(s.audio_feedback_volume_bits), 1.0);
    assert_eq!(f64::from_bits(s.word_correction_threshold_bits), 0.18);
    assert_eq!(s.selected_model, "voxtral-mini-latest");
    assert_eq!(s.mistral_transcription_base_url, "https://api.mistral.ai/v1");
    assert_eq!(s.selected_language, "auto");
    assert_eq!(s.app_language, "en");
    assert_eq!(s.history_limit, 10);
    assert_eq!(s.log_level, LogLevel::Debug);
    assert_eq!(s.whisper_gpu_device, -1);
    assert_eq!(s.mistral_transcription_api_key.expose(), "");
    assert_eq!(s.bindings.len(), 2);
    let t = s.bindings.get("transcribe").unwrap();
    assert_eq!(t.current_binding, "ctrl+space");
    assert_eq!(t.name, "Transcribe");
    let c = s.bindings.get("cancel").unwrap();
    assert_eq!(c.default_binding, "escape");
    assert_eq!(c.description, "Cancels the current recording.");
}

#[test]
fn default_shortcut_depends_on_platform() {
    let mac = get_default_settings(Platform::MacOs);
    assert_eq!(mac.bindings.get("transcribe").unwrap().current_binding, "option+space");
    let win = get_default_settings(Platform::Windows);
    assert_eq!(win.bindings.get("transcribe").unwrap().default_binding, "ctrl+space");
    let other = get_default_settings(Platform::Other);
    assert_eq!(other.bindings.get("transcribe").unwrap().current_binding, "alt+space");
}

#[test]
fn sanitize_locks_settings_and_keeps_user_choices() {
    let s = sanitize_settings(customized(Platform::Linux), Platform::Linux);
    assert!(!s.push_to_talk);
    assert_eq!(f32::from_bits(s.audio_feedback_volume_bits), 0.5);
    assert_eq!(s.mistral_transcription_api_key.expose(), "sk-test");
    assert_eq!(s.selected_microphone.as_deref(), Some("USB Mic"));
    assert_eq!(s.log_level, LogLevel::Trace);
    assert_eq!(s.selected_model, "voxtral-mini-latest");
    assert!(!s.debug_mode);
    assert!(!s.start_hidden);
    assert_eq!(s.history_limit, 10);
    assert!(s.custom_words.is_empty());
    assert_eq!(s.paste_method, PasteMethod::Direct);
    assert_eq!(s.overlay_position, OverlayPosition::Bottom);
    assert_eq!(s.whisper_gpu_device, -1);
    assert_eq!(s.word_correction_threshold_bits, LOCKED_WORD_CORRECTION_THRESHOLD_BITS);
    assert_eq!(s.auto_submit_key, AutoSubmitKey::Enter);
    assert_eq!(s.sound_theme, SoundTheme::Marimba);
}

#[test]
fn sanitize_keeps_default_bindings_with_current_keys() {
    let s = sanitize_settings(customized(Platform::Linux), Platform::Linux);
    assert_eq!(s.bindings.len(), 2);
    assert!(!s.bindings.contains_key("unknown"));
    let t = s.bindings.get("transcribe").unwrap();
    assert_eq!(t.current_binding, "ctrl+alt+t");
    assert_eq!(t.default_binding, "ctrl+space");
    assert_eq!(t.name, "Transcribe");
    let c = s.bindings.get("cancel").unwrap();
    assert_eq!(c.current_binding, "escape");
}

#[test]
fn sanitize_twice_equals_once() {
    let once = sanitize_settings(customized(Platform::MacOs), Platform::MacOs);
    let twice = sanitize_settings(once.clone(), Platform::MacOs);
    assert_eq!(
        twice.bindings.get("transcribe").unwrap().current_binding,
        once.bindings.get("transcribe").unwrap().current_binding
    );
    assert_eq!(twice.push_to_talk, once.push_to_talk);
    assert_eq!(twice.history_limit, once.history_limit);
    assert_eq!(twice.mistral_transcription_api_key.expose(), once.mistral_transcription_api_key.expose());
}

#[test]
fn defaults_are_unchanged_by_sanitize() {
    let d = get_default_settings(Platform::Windows);
    let s = sanitize_settings(d.clone(), Platform::Windows);
    assert_eq!(s.bindings.get("transcribe").unwrap().current_binding, "ctrl+space");
    assert_eq!(s.push_to_talk, d.push_to_talk);
    assert_eq!(s.audio_feedback_volume_bits, d.audio_feedback_volume_bits);
    assert_eq!(s.log_level, d.log_level);
}

#[test]
fn fingerprint_is_sha256_hex_of_version_and_tag() {
    let f = config_fingerprint();
    assert_eq!(f, "00cc200872e5ce5e19bd4fedf4fd369cc3aa478f8a75afe588b4fc22f27cb6ec");
    assert_eq!(f.len(), 64);
}

#[test]
fn load_after_write_gives_sanitized_settings() {
    let fp = config_fingerprint();
    let written = persisted_config(customized(Platform::Linux), fp.clone(), Platform::Linux);
    assert_eq!(written.version, APP_VERSION);
    assert_eq!(written.fingerprint, fp);
    match decide_stored_config(StoredConfig::Parsed(written), &fp, Platform::Linux) {
        LoadOutcome::Loaded(s) => {
            assert_eq!(s.selected_model, "voxtral-mini-latest");
            assert!(!s.push_to_talk);
            assert_eq!(s.bindings.get("transcribe").unwrap().current_binding, "ctrl+alt+t");
        }
        _ => panic!("written config should load"),
    }
}

#[test]
fn mismatched_or_broken_config_is_recreated() {
    let fp = config_fingerprint();
    let mut written = persisted_config(customized(Platform::Linux), fp.clone(), Platform::Linux);
    written.version = "0.9.0".to_string();
    assert!(matches!(
        decide_stored_config(StoredConfig::Parsed(written), &fp, Platform::Linux),
        LoadOutcome::Recreate { remove_old: true }
    ));
    let other = persisted_config(customized(Platform::Linux), "abc".to_string(), Platform::Linux);
    assert!(matches!(
        decide_stored_config(StoredConfig::Parsed(other), &fp, Platform::Linux),
        LoadOutcome::Recreate { remove_old: true }
    ));
    assert!(matches!(
        decide_stored_config(StoredConfig::Unparsable, &fp, Platform::Linux),
        LoadOutcome::Recreate { remove_old: true }
    ));
    assert!(matches!(
        decide_stored_config(StoredConfig::Unreadable, &fp, Platform::Linux),
        LoadOutcome::Recreate { remove_old: false }
    ));
}

#[test]
fn log_level_names_and_numbers() {
    assert_eq!(LogLevel::from_name("trace"), Some(LogLevel::Trace));
    assert_eq!(LogLevel::from_name("DEBUG"), Some(LogLevel::Debug));
    assert_eq!(LogLevel::from_name("Info"), Some(LogLevel::Info));
    assert_eq!(LogLevel::from_name("wArN"), Some(LogLevel::Warn));
    assert_eq!(LogLevel::from_name("error"), Some(LogLevel::Error));
    assert_eq!(LogLevel::from_name("verbose"), None);
    assert_eq!(LogLevel::from_name(" info"), None);
    assert_eq!(LogLevel::from_number(1), Some(LogLevel::Trace));
    assert_eq!(LogLevel::from_number(5), Some(LogLevel::Error));
    assert_eq!(LogLevel::from_number(0), None);
    assert_eq!(LogLevel::from_number(6), None);
    assert_eq!(LogLevel::Warn.name(), "warn");
}

#[test]
fn debug_output_redacts_api_keys() {
    let mut settings = get_default_settings(Platform::Linux);
    settings.mistral_transcription_api_key =
        SecretString::new("secret_mistral_key_123".to_string());

    let debug_output = settings.mistral_transcription_api_key.debug_text();

    assert!(!debug_output.contains("secret_mistral_key_123"));
    assert!(debug_output.contains("[REDACTED]"));
}

#[test]
fn empty_secret_debug_text() {
    assert_eq!(SecretString::new(String::new()).debug_text(), "\"\"");
}

#[test]
fn sound_theme_paths() {
    assert_eq!(SoundTheme::Marimba.to_start_path(), "resources/marimba_start.wav");
    assert_eq!(SoundTheme::Marimba.to_stop_path(), "resources/marimba_stop.wav");
}

#[test]
fn settings_getters() {
    let s = get_default_settings(Platform::Linux);
    assert_eq!(get_history_limit(&s), 10);
    assert_eq!(get_recording_retention_period(&s), RecordingRetentionPeriod::PreserveLimit);
    assert_eq!(get_stored_binding(&s, "cancel").current_binding, "escape");
}

#[test]
fn bindings_insert_replaces() {
    let mut b = Bindings::new();
    b.insert("a".to_string(), binding("a", "x"));
    b.insert("a".to_string(), binding("a", "y"));
    assert_eq!(b.len(), 1);
    assert_eq!(b.get("a").unwrap().current_binding, "y");
    assert!(b.get("b").is_none());
    assert_eq!(b.to_entries().len(), 1);
}
