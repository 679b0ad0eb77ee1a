use handy::models::{check_model_choice, switch_active_model, EngineType, ModelManager};
use handy::settings::{get_default_settings, Platform};
use handy::transcription::{
    api_language, encode_wav, get_available_accelerators, TranscriptionManager,
};

#[test]
fn catalog_has_the_hosted_model() {
    let m = ModelManager::new();
    let all = m.get_available_models();
    assert_eq!(all.len(), 1);
    let info = m.get_model_info("voxtral-mini-latest").unwrap();
    assert_eq!(info.name, "Voxtral Mini (Mistral API)");
    assert_eq!(info.engine_type, EngineType::MistralApi);
    assert_eq!(f32::from_bits(info.accuracy_score_bits), 0.95);
    assert_eq!(f32::from_bits(info.speed_score_bits), 0.80);
    assert_eq!(info.supported_languages.len(), 8);
    assert!(info.is_remote);
    assert!(m.get_model_info("whisper-large").is_none());
}

#[test]
fn switching_to_the_hosted_model() {
    let m = ModelManager::new();
    let mut s = get_default_settings(Platform::Linux);
    s.selected_model = "old".to_string();
    let mut t = TranscriptionManager::new();
    assert!(t.unload_model().is_ok());
    let switch = switch_active_model(s, &m, &mut t, "voxtral-mini-latest");
    assert_eq!(switch.settings.unwrap().selected_model, "voxtral-mini-latest");
    assert!(switch.result.is_ok());
    assert_eq!(switch.events.len(), 2);
    assert_eq!(switch.events[0].event_type, "selection_changed");
    assert_eq!(switch.events[0].model_name.as_deref(), Some("Voxtral Mini (Mistral API)"));
    assert_eq!(switch.events[1].event_type, "loading_completed");
    assert_eq!(switch.events[1].model_id.as_deref(), Some("voxtral-mini-latest"));
    assert_eq!(t.get_current_model().as_deref(), Some("voxtral-mini-latest"));
}

#[test]
fn switching_to_another_model_is_refused() {
    let m = ModelManager::new();
    let mut t = TranscriptionManager::new();
    assert!(t.unload_model().is_ok());
    let switch = switch_active_model(get_default_settings(Platform::Linux), &m, &mut t, "tiny");
    assert!(switch.settings.is_none());
    assert!(switch.events.is_empty());
    assert_eq!(switch.result.err().unwrap(), "Only voxtral-mini-latest is supported");
    assert!(t.get_current_model().is_none());
}

#[test]
fn auto_select_rewrites_other_choice() {
    let m = ModelManager::new();
    let mut s = get_default_settings(Platform::Linux);
    assert!(m.auto_select_model_if_needed(s.clone()).is_none());
    s.selected_model = "x".to_string();
    assert_eq!(m.auto_select_model_if_needed(s).unwrap().selected_model, "voxtral-mini-latest");
}

#[test]
fn loading_and_unloading_models() {
    let catalog = ModelManager::new();
    let mut t = TranscriptionManager::new();
    assert!(t.is_model_loaded());
    assert_eq!(t.get_current_model().as_deref(), Some("voxtral-mini-latest"));
    assert!(t.unload_model().is_ok());
    assert!(t.get_current_model().is_none());
    assert_eq!(t.load_model(&catalog, "nope").err().unwrap(), "Model not found: nope");
    assert!(t.get_current_model().is_none());
    let ev = t.initiate_model_load(&catalog).unwrap();
    assert_eq!(ev.event_type, "loading_completed");
    assert_eq!(ev.model_id.as_deref(), Some("voxtral-mini-latest"));
    assert_eq!(ev.model_name.as_deref(), Some("Voxtral Mini (Mistral API)"));
    assert!(ev.error.is_none());
    assert_eq!(t.get_current_model().as_deref(), Some("voxtral-mini-latest"));
}

#[test]
fn api_language_mapping() {
    assert_eq!(api_language("auto"), None);
    assert_eq!(api_language("zh-Hans"), Some("zh".to_string()));
    assert_eq!(api_language("zh-Hant"), Some("zh".to_string()));
    assert_eq!(api_language("de"), Some("de".to_string()));
}

#[test]
fn wav_encoding_layout() {
    let wav = encode_wav(&[0, 1, -1, 32767]).ok().unwrap();
    assert_eq!(wav.len(), 44 + 8);
    assert_eq!(&wav[0..4], b"RIFF");
    assert_eq!(&wav[8..12], b"WAVE");
    assert_eq!(u16::from_le_bytes([wav[22], wav[23]]), 1);
    assert_eq!(u32::from_le_bytes([wav[24], wav[25], wav[26], wav[27]]), 16000);
    assert_eq!(&wav[44..], &[0, 0, 1, 0, 0xff, 0xff, 0xff, 0x7f]);
}

#[test]
fn wav_header_fields() {
    let wav = encode_wav(&[5, -2, 300]).ok().unwrap();
    let mut expected: Vec<u8> = Vec::new();
    expected.extend_from_slice(b"RIFF");
    expected.extend_from_slice(&(36u32 + 6).to_le_bytes());
    expected.extend_from_slice(b"WAVEfmt ");
    expected.extend_from_slice(&16u32.to_le_bytes());
    expected.extend_from_slice(&1u16.to_le_bytes());
    expected.extend_from_slice(&1u16.to_le_bytes());
    expected.extend_from_slice(&16000u32.to_le_bytes());
    expected.extend_from_slice(&32000u32.to_le_bytes());
    expected.extend_from_slice(&2u16.to_le_bytes());
    expected.extend_from_slice(&16u16.to_le_bytes());
    expected.extend_from_slice(b"data");
    expected.extend_from_slice(&6u32.to_le_bytes());
    expected.extend_from_slice(&[5, 0, 0xfe, 0xff, 0x2c, 0x01]);
    assert_eq!(wav, expected);
}

#[test]
fn empty_wav_is_a_bare_header() {
    let wav = encode_wav(&[]).ok().unwrap();
    assert_eq!(wav.len(), 44);
    assert_eq!(u32::from_le_bytes([wav[4], wav[5], wav[6], wav[7]]), 36);
    assert_eq!(u32::from_le_bytes([wav[40], wav[41], wav[42], wav[43]]), 0);
}

#[test]
fn transcription_preparation() {
    let t = TranscriptionManager::new();
    let mut s = get_default_settings(Platform::Linux);
    assert!(t.prepare_transcription(&s, &[]).ok().unwrap().is_none());
    assert_eq!(t.prepare_transcription(&s, &[1, 2]).err().unwrap(), "Mistral API key is required.");
    s.mistral_transcription_api_key.set("key".to_string());
    let job = t.prepare_transcription(&s, &[1, 2]).ok().unwrap().unwrap();
    assert_eq!(job.request.url, "https://api.mistral.ai/v1/audio/transcriptions");
    assert_eq!(job.request.model, "voxtral-mini-latest");
    assert!(job.request.language.is_none());
    assert_eq!(job.wav.len(), 48);
    assert_eq!(&job.wav[44..], &[1, 0, 2, 0]);
    assert_eq!(job.request.user_agent, "Handy/1.0 (+https://github.com/ShrootBuck/Handy)");
    assert_eq!(job.request.file_name, "recording.wav");
    assert_eq!(job.request.mime_type, "audio/wav");
}

#[test]
fn model_choice_is_checked() {
    assert!(check_model_choice("voxtral-mini-latest").is_ok());
    assert_eq!(check_model_choice("base").err().unwrap(), "Only voxtral-mini-latest is supported");
}

#[test]
fn transcription_preparation_reports_the_request_error() {
    let t = TranscriptionManager::new();
    let mut s = get_default_settings(Platform::Linux);
    s.mistral_transcription_api_key.set("key".to_string());
    s.mistral_transcription_base_url = " // ".to_string();
    assert_eq!(t.prepare_transcription(&s, &[7]).err().unwrap(), "Mistral base URL is required.");
}

#[test]
fn no_accelerators_offered() {
    let a = get_available_accelerators();
    assert!(a.whisper.is_empty() && a.ort.is_empty() && a.gpu_devices.is_empty());
}
