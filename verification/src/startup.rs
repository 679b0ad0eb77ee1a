//! Decisions taken when the app starts or is started again: which window to
//! show, what a second launch asks for, what a tray menu entry does.

use crate::settings::AppSettings;
use vstd::prelude::*;

verus! {

broadcast use vstd::string::group_string_axioms;

/// What a second launch of the app asks the running one to do.
#[derive(Debug, Clone, Copy, PartialEq, Eq, Structural)]
pub enum SecondInstanceAction {
    ToggleTranscription,
    Cancel,
    ShowMainWindow,
}

pub open spec fn has_arg(args: Seq<String>, arg: Seq<char>) -> bool {
    exists|i: int| 0 <= i < args.len() && (#[trigger] args[i])@ == arg
}

fn contains_arg(args: &Vec<String>, arg: &str) -> (b: bool)
    ensures
        b == has_arg(args@, arg@),
{
    let target = arg.to_string();
    let mut i: usize = 0;
    while i < args.len()
        invariant
            0 <= i <= args@.len(),
            target@ == arg@,
            forall|j: int| 0 <= j < i ==> (#[trigger] args@[j])@ != arg@,
        decreases args@.len() - i,
    {
        if args[i] == target {
            return true;
        }
        i += 1;
    }
    false
}

/// The request of a second launch: toggle transcription when its arguments
/// hold `--toggle-transcription`, else cancel when they hold `--cancel`, else
/// bring the main window forward.
pub fn second_instance_action(args: &Vec<String>) -> (a: SecondInstanceAction)
    ensures
        has_arg(args@, "--toggle-transcription"@) ==> a == SecondInstanceAction::ToggleTranscription,
        !has_arg(args@, "--toggle-transcription"@) && has_arg(args@, "--cancel"@) ==> a
            == SecondInstanceAction::Cancel,
        !has_arg(args@, "--toggle-transcription"@) && !has_arg(args@, "--cancel"@) ==> a
            == SecondInstanceAction::ShowMainWindow,
{
    if contains_arg(args, "--toggle-transcription") {
        SecondInstanceAction::ToggleTranscription
    } else if contains_arg(args, "--cancel") {
        SecondInstanceAction::Cancel
    } else {
        SecondInstanceAction::ShowMainWindow
    }
}

/// Whether the main window is shown at start: unless asked to start hidden
/// with a tray icon to come back from, or when it must be shown anyway.
pub fn should_show_main_window(start_hidden: bool, no_tray: bool, force_show: bool) -> (b: bool)
    ensures
        b == (force_show || !start_hidden || no_tray),
{
    force_show || !start_hidden || no_tray
}

/// Whether the app starts as a tray-only (accessory) app: when it starts
/// hidden with a tray icon and nothing forces the window to show.
pub fn starts_as_accessory(start_hidden: bool, no_tray: bool, force_show: bool) -> (b: bool)
    ensures
        b == (start_hidden && !no_tray && !force_show),
        b ==> !should_show_main_window_spec(start_hidden, no_tray, force_show),
{
    start_hidden && !no_tray && !force_show
}

pub open spec fn should_show_main_window_spec(start_hidden: bool, no_tray: bool, force_show: bool) -> bool {
    force_show || !start_hidden || no_tray
}

/// What closing the main window does: the window is always hidden, never
/// closed, and the app turns into a tray-only (accessory) app when its tray
/// icon is shown.
pub struct WindowClose {
    pub hide_window: bool,
    pub become_accessory: bool,
}

/// The handling of a request to close the main window.
pub fn on_close_requested(no_tray: bool) -> (c: WindowClose)
    ensures
        c.hide_window,
        c.become_accessory == !no_tray,
{
    WindowClose { hide_window: true, become_accessory: !no_tray }
}

/// What a tray menu entry does.
#[derive(Debug, Clone, Copy, PartialEq, Eq, Structural)]
pub enum TrayMenuAction {
    ShowSettings,
    CopyLastTranscript,
    Cancel,
    Quit,
}

/// The action of the tray menu entry with id `id`; none for unknown ids.
pub fn tray_menu_action(id: &str) -> (a: Option<TrayMenuAction>)
    ensures
        id@ == "settings"@ ==> a == Some(TrayMenuAction::ShowSettings),
        id@ == "copy_last_transcript"@ ==> a == Some(TrayMenuAction::CopyLastTranscript),
        id@ == "cancel"@ ==> a == Some(TrayMenuAction::Cancel),
        id@ == "quit"@ ==> a == Some(TrayMenuAction::Quit),
        id@ != "settings"@ && id@ != "copy_last_transcript"@ && id@ != "cancel"@ && id@
            != "quit"@ ==> a is None,
{
    proof {
        reveal_strlit("settings");
        reveal_strlit("copy_last_transcript");
        reveal_strlit("cancel");
        reveal_strlit("quit");
        assert("settings"@.len() == 8 && "copy_last_transcript"@.len() == 20);
        assert("cancel"@.len() == 6 && "quit"@.len() == 4);
    }
    let s = id.to_string();
    if s == "settings".to_string() {
        Some(TrayMenuAction::ShowSettings)
    } else if s == "copy_last_transcript".to_string() {
        Some(TrayMenuAction::CopyLastTranscript)
    } else if s == "cancel".to_string() {
        Some(TrayMenuAction::Cancel)
    } else if s == "quit".to_string() {
        Some(TrayMenuAction::Quit)
    } else {
        None
    }
}

/// Whether launching at login is to be enabled (else disabled).
pub fn autostart_wanted(settings: &AppSettings) -> (b: bool)
    ensures
        b == settings.autostart_enabled,
{
    settings.autostart_enabled
}

} // verus!
