use handy::logging::{
    console_source, file_log_allows, file_log_level, level_filter_code,
    level_filter_from_u8, ConsoleSource, Level, LevelFilter,
};
use handy::settings::{get_default_settings, Platform};
use handy::startup::{
    autostart_wanted, on_close_requested, second_instance_action, should_show_main_window, starts_as_accessory,
    tray_menu_action, SecondInstanceAction, TrayMenuAction,
};

#[test]
fn level_filter_numbers() {
    assert_eq!(level_filter_from_u8(0), LevelFilter::Off);
    assert_eq!(level_filter_from_u8(3), LevelFilter::Info);
    assert_eq!(level_filter_from_u8(5), LevelFilter::Trace);
    assert_eq!(level_filter_from_u8(200), LevelFilter::Trace);
    for f in [LevelFilter::Off, LevelFilter::Error, LevelFilter::Warn, LevelFilter::Info, LevelFilter::Debug, LevelFilter::Trace] {
        assert_eq!(level_filter_from_u8(level_filter_code(f)), f);
    }
}

#[test]
fn file_log_levels() {
    assert_eq!(file_log_level(true), LevelFilter::Trace);
    assert_eq!(file_log_level(false), LevelFilter::Debug);
    let debug = level_filter_code(LevelFilter::Debug);
    assert!(file_log_allows(Level::Debug, debug));
    assert!(!file_log_allows(Level::Trace, debug));
    assert!(!file_log_allows(Level::Error, 0));
}

#[test]
fn console_directive() {
    assert_eq!(console_source(None), ConsoleSource::Level(LevelFilter::Info));
    assert_eq!(console_source(Some("  ")), ConsoleSource::Level(LevelFilter::Info));
    assert_eq!(console_source(Some("handy=debug")), ConsoleSource::Spec("handy=debug".to_string()));
    assert_eq!(console_source(Some("info,handy=trace")), ConsoleSource::Spec("info,handy=trace".to_string()));
}

#[test]
fn invalid_console_directive_falls_back_to_info() {
    assert_eq!(console_source(Some("handy=loud")), ConsoleSource::Level(LevelFilter::Info));
    assert_eq!(console_source(Some("a=b=c")), ConsoleSource::Level(LevelFilter::Info));
}

#[test]
fn second_instance_requests() {
    let args = |v: &[&str]| v.iter().map(|s| s.to_string()).collect::<Vec<_>>();
    assert_eq!(second_instance_action(&args(&["handy", "--cancel", "--toggle-transcription"])), SecondInstanceAction::ToggleTranscription);
    assert_eq!(second_instance_action(&args(&["handy", "--cancel"])), SecondInstanceAction::Cancel);
    assert_eq!(second_instance_action(&args(&["handy"])), SecondInstanceAction::ShowMainWindow);
}

#[test]
fn window_visibility_at_start() {
    assert!(should_show_main_window(false, false, false));
    assert!(!should_show_main_window(true, false, false));
    assert!(should_show_main_window(true, true, false));
    assert!(should_show_main_window(true, false, true));
    assert!(starts_as_accessory(true, false, false));
    assert!(!starts_as_accessory(true, true, false));
}

#[test]
fn tray_menu_entries() {
    assert_eq!(tray_menu_action("settings"), Some(TrayMenuAction::ShowSettings));
    assert_eq!(tray_menu_action("copy_last_transcript"), Some(TrayMenuAction::CopyLastTranscript));
    assert_eq!(tray_menu_action("cancel"), Some(TrayMenuAction::Cancel));
    assert_eq!(tray_menu_action("quit"), Some(TrayMenuAction::Quit));
    assert_eq!(tray_menu_action("other"), None);
}

#[test]
fn autostart_follows_setting() {
    let mut s = get_default_settings(Platform::Linux);
    assert!(!autostart_wanted(&s));
    s.autostart_enabled = true;
    assert!(autostart_wanted(&s));
}

#[test]
fn closing_the_window_hides_it() {
    let with_tray = on_close_requested(false);
    assert!(with_tray.hide_window && with_tray.become_accessory);
    let without_tray = on_close_requested(true);
    assert!(without_tray.hide_window && !without_tray.become_accessory);
}
