use handy::recording::{pad_samples, padded_sample_count, select_input_device, AudioRecordingManager};

fn started(binding: &str) -> AudioRecordingManager {
    let mut m = AudioRecordingManager::new();
    assert_eq!(m.begin_recording(), Ok(true));
    assert!(AudioRecordingManager::check_input_devices(false, true).is_ok());
    assert!(m.needs_recorder());
    m.recorder_created();
    m.stream_opened();
    assert!(m.finish_start(binding, true).is_ok());
    m
}

#[test]
fn start_then_stop_for_same_binding() {
    let mut m = started("transcribe");
    assert!(m.is_recording());
    assert!(m.check_laws());
    let end = m.stop_recording("transcribe").unwrap();
    assert!(end.stop_capture);
    assert!(end.close_recorder);
    assert!(!m.is_recording());
    assert!(!m.is_stream_open());
    assert!(!m.needs_recorder());
}

#[test]
fn second_start_is_refused() {
    let m = started("transcribe");
    assert_eq!(m.begin_recording(), Err("Already recording".to_string()));
}

#[test]
fn stop_for_other_binding_changes_nothing() {
    let mut m = started("transcribe");
    assert!(m.stop_recording("cancel").is_none());
    assert!(m.is_recording());
    assert!(m.is_stream_open());
}

#[test]
fn stop_without_recording_gives_nothing() {
    let mut m = AudioRecordingManager::new();
    assert!(m.stop_recording("transcribe").is_none());
    assert!(m.cancel_recording().is_none());
}

#[test]
fn cancel_ends_recording() {
    let mut m = started("transcribe");
    let end = m.cancel_recording().unwrap();
    assert!(end.stop_capture && end.close_recorder);
    assert!(!m.is_recording());
    assert!(!m.is_stream_open());
    assert_eq!(m.begin_recording(), Ok(true));
}

#[test]
fn no_device_is_an_error() {
    assert_eq!(
        AudioRecordingManager::check_input_devices(false, false),
        Err("No input device found".to_string())
    );
    assert!(AudioRecordingManager::check_input_devices(true, false).is_ok());
}

#[test]
fn capture_that_does_not_start_is_refused() {
    let mut m = AudioRecordingManager::new();
    m.recorder_created();
    m.stream_opened();
    assert_eq!(m.finish_start("transcribe", false), Err("Recorder not available".to_string()));
    assert!(!m.is_recording());
    assert!(m.is_stream_open());
    assert_eq!(m.begin_recording(), Ok(false));
}

#[test]
fn device_change_closes_open_stream() {
    let mut m = started("transcribe");
    let c = m.update_selected_device().unwrap();
    assert!(c.stop_capture && c.close_recorder);
    assert!(!m.is_stream_open());
    assert!(m.is_recording());
    let mut idle = AudioRecordingManager::new();
    assert!(idle.update_selected_device().is_none());
}

#[test]
fn short_recordings_are_padded() {
    assert_eq!(padded_sample_count(0), 0);
    assert_eq!(padded_sample_count(1), 20000);
    assert_eq!(padded_sample_count(15999), 20000);
    assert_eq!(padded_sample_count(16000), 16000);
    assert_eq!(padded_sample_count(48000), 48000);
}

#[test]
fn device_is_chosen_by_name() {
    let names = vec!["Built-in".to_string(), "USB Mic".to_string(), "USB Mic".to_string()];
    assert_eq!(select_input_device(&names, Some("USB Mic")), Some(1));
    assert_eq!(select_input_device(&names, Some("Built-in")), Some(0));
    assert_eq!(select_input_device(&names, Some("usb mic")), None);
    assert_eq!(select_input_device(&names, None), None);
    assert_eq!(select_input_device(&Vec::new(), Some("USB Mic")), None);
}

#[test]
fn short_recordings_are_padded_with_silence() {
    let padded = pad_samples(vec![0.5f32, -0.25], 0.0);
    assert_eq!(padded.len(), 20000);
    assert_eq!(&padded[..2], &[0.5, -0.25]);
    assert!(padded[2..].iter().all(|s| *s == 0.0));
    assert!(pad_samples(Vec::<f32>::new(), 0.0).is_empty());
    let long = vec![1i16; 16000];
    assert_eq!(pad_samples(long.clone(), 0), long);
}

#[test]
fn cancel_twice_is_cancel_once() {
    let mut m = started("transcribe");
    let end = m.cancel_recording().unwrap();
    assert!(end.stop_capture && end.close_recorder);
    assert!(m.cancel_recording().is_none());
    assert!(!m.is_recording());
    assert!(!m.is_stream_open());
    assert!(m.check_laws());
    assert_eq!(m.begin_recording(), Ok(true));
}
