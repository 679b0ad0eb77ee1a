//! The application settings: their enumerations, their defaults, the rules
//! that lock most of them to fixed values, and how a stored configuration is
//! accepted or replaced.
//!
//! Floating-point settings are held as their IEEE-754 bit patterns, which the
//! settings logic only copies.

use crate::bindings::{Bindings, ShortcutBinding, ShortcutBindingView};
use crate::bindings;
use crate::text;
use sha2::Digest;
use vstd::prelude::*;

verus! {

broadcast use vstd::string::group_string_axioms;

pub const APP_VERSION: &'static str = "1.0.0";
pub const CONFIG_PATH: &'static str = "config.json";
pub const LOCKED_MISTRAL_TRANSCRIPTION_MODEL: &'static str = "voxtral-mini-latest";
pub const LOCKED_MISTRAL_TRANSCRIPTION_BASE_URL: &'static str = "https://api.mistral.ai/v1";
pub const LOCKED_SELECTED_LANGUAGE: &'static str = "auto";
pub const LOCKED_APP_LANGUAGE: &'static str = "en";
/// Bit pattern of the `f64` value 0.18.
pub const LOCKED_WORD_CORRECTION_THRESHOLD_BITS: u64 = 0x3FC7_0A3D_70A3_D70A;
pub const LOCKED_PASTE_METHOD: PasteMethod = PasteMethod::Direct;
pub const LOCKED_CLIPBOARD_HANDLING: ClipboardHandling = ClipboardHandling::DontModify;
pub const LOCKED_AUTO_SUBMIT: bool = false;
pub const LOCKED_APPEND_TRAILING_SPACE: bool = false;
pub const LOCKED_EXTRA_RECORDING_BUFFER_MS: u64 = 0;
pub const LOCKED_LAZY_STREAM_CLOSE: bool = false;
pub const LOCKED_OVERLAY_POSITION: OverlayPosition = OverlayPosition::Bottom;
pub const LOCKED_HISTORY_LIMIT: usize = 10;
pub const LOCKED_RECORDING_RETENTION_PERIOD: RecordingRetentionPeriod =
    RecordingRetentionPeriod::PreserveLimit;
/// Bit pattern of the `f32` value 1.0.
pub const DEFAULT_AUDIO_FEEDBACK_VOLUME_BITS: u32 = 0x3F80_0000;

#[derive(Debug, Clone, Copy, PartialEq, Eq, Structural)]
pub enum LogLevel {
    Trace,
    Debug,
    Info,
    Warn,
    Error,
}

#[derive(Debug, Clone, Copy, PartialEq, Eq, Structural)]
pub enum OverlayPosition {
    /// No overlay is shown (stored as `none`).
    Disabled,
    Top,
    Bottom,
}

#[derive(Debug, Clone, Copy, PartialEq, Eq, Structural)]
pub enum PasteMethod {
    /// The text is not pasted (stored as `none`).
    Disabled,
    CtrlV,
    CtrlShiftV,
    Direct,
    ShiftInsert,
    ExternalScript,
}

#[derive(Debug, Clone, Copy, PartialEq, Eq, Structural)]
pub enum ClipboardHandling {
    DontModify,
    CopyToClipboard,
}

#[derive(Debug, Clone, Copy, PartialEq, Eq, Structural)]
pub enum AutoSubmitKey {
    Enter,
    CtrlEnter,
    CmdEnter,
}

#[derive(Debug, Clone, Copy, PartialEq, Eq, Structural)]
pub enum RecordingRetentionPeriod {
    Never,
    PreserveLimit,
    Days3,
    Weeks2,
    Months1,
    Months3,
}

#[derive(Debug, Clone, Copy, PartialEq, Eq, Structural)]
pub enum KeyboardImplementation {
    Tauri,
}

#[derive(Debug, Clone, Copy, PartialEq, Eq, Structural)]
pub enum SoundTheme {
    Marimba,
}

#[derive(Debug, Clone, Copy, PartialEq, Eq, Structural)]
pub enum TypingTool {
    Auto,
}

#[derive(Debug, Clone, Copy, PartialEq, Eq, Structural)]
pub enum WhisperAcceleratorSetting {
    Auto,
    Cpu,
    Gpu,
}

#[derive(Debug, Clone, Copy, PartialEq, Eq, Structural)]
pub enum OrtAcceleratorSetting {
    Auto,
    Cpu,
    Cuda,
    DirectMl,
    Rocm,
}

/// The operating system the app runs on; it decides the default shortcut.
#[derive(Debug, Clone, Copy, PartialEq, Eq, Structural)]
pub enum Platform {
    Windows,
    MacOs,
    Linux,
    Other,
}

impl SoundTheme {
    pub fn to_start_path(&self) -> (p: String)
        ensures
            p@ == "resources/marimba_start.wav"@,
    {
        "resources/marimba_start.wav".to_string()
    }

    pub fn to_stop_path(&self) -> (p: String)
        ensures
            p@ == "resources/marimba_stop.wav"@,
    {
        "resources/marimba_stop.wav".to_string()
    }
}

/// The lower-case name under which a log level is stored.
pub open spec fn log_level_name(level: LogLevel) -> Seq<char> {
    match level {
        LogLevel::Trace => "trace"@,
        LogLevel::Debug => "debug"@,
        LogLevel::Info => "info"@,
        LogLevel::Warn => "warn"@,
        LogLevel::Error => "error"@,
    }
}

/// The number under which a log level may also be stored (1 to 5).
pub open spec fn log_level_number(level: LogLevel) -> u64 {
    match level {
        LogLevel::Trace => 1,
        LogLevel::Debug => 2,
        LogLevel::Info => 3,
        LogLevel::Warn => 4,
        LogLevel::Error => 5,
    }
}

/// The level named `name`, ignoring case: `log_level_name` read back.
pub open spec fn log_level_named(name: Seq<char>) -> Option<LogLevel> {
    if text::eq_ignoring_ascii_case(name, "trace"@) {
        Some(LogLevel::Trace)
    } else if text::eq_ignoring_ascii_case(name, "debug"@) {
        Some(LogLevel::Debug)
    } else if text::eq_ignoring_ascii_case(name, "info"@) {
        Some(LogLevel::Info)
    } else if text::eq_ignoring_ascii_case(name, "warn"@) {
        Some(LogLevel::Warn)
    } else if text::eq_ignoring_ascii_case(name, "error"@) {
        Some(LogLevel::Error)
    } else {
        None
    }
}

/// The level numbered `n`: `log_level_number` read back.
pub open spec fn log_level_numbered(n: u64) -> Option<LogLevel> {
    if n == 1 {
        Some(LogLevel::Trace)
    } else if n == 2 {
        Some(LogLevel::Debug)
    } else if n == 3 {
        Some(LogLevel::Info)
    } else if n == 4 {
        Some(LogLevel::Warn)
    } else if n == 5 {
        Some(LogLevel::Error)
    } else {
        None
    }
}

impl LogLevel {
    /// The stored name of this level.
    pub fn name(&self) -> (s: String)
        ensures
            s@ == log_level_name(*self),
    {
        match self {
            LogLevel::Trace => "trace".to_string(),
            LogLevel::Debug => "debug".to_string(),
            LogLevel::Info => "info".to_string(),
            LogLevel::Warn => "warn".to_string(),
            LogLevel::Error => "error".to_string(),
        }
    }

    /// Reads a stored level name; letters may be in either case.
    ///
    /// Lowering ASCII letters is what lowering Unicode letters gives on these
    /// five names: no other char lowers to one of their letters.
    pub fn from_name(name: &str) -> (r: Option<LogLevel>)
        ensures
            r == log_level_named(name@),
    {
        let chars = text::chars_of(name);
        if text::matches_ignoring_ascii_case(&chars, "trace") {
            Some(LogLevel::Trace)
        } else if text::matches_ignoring_ascii_case(&chars, "debug") {
            Some(LogLevel::Debug)
        } else if text::matches_ignoring_ascii_case(&chars, "info") {
            Some(LogLevel::Info)
        } else if text::matches_ignoring_ascii_case(&chars, "warn") {
            Some(LogLevel::Warn)
        } else if text::matches_ignoring_ascii_case(&chars, "error") {
            Some(LogLevel::Error)
        } else {
            None
        }
    }

    /// Reads a stored level number: 1 (trace) to 5 (error).
    pub fn from_number(n: u64) -> (r: Option<LogLevel>)
        ensures
            r == log_level_numbered(n),
    {
        match n {
            1 => Some(LogLevel::Trace),
            2 => Some(LogLevel::Debug),
            3 => Some(LogLevel::Info),
            4 => Some(LogLevel::Warn),
            5 => Some(LogLevel::Error),
            _ => None,
        }
    }
}


/// A level's stored name and stored number both read back as that level.
pub proof fn log_level_round_trip(level: LogLevel)
    ensures
        log_level_named(log_level_name(level)) == Some(level),
        log_level_numbered(log_level_number(level)) == Some(level),
{
    reveal_strlit("trace");
    reveal_strlit("debug");
    reveal_strlit("info");
    reveal_strlit("warn");
    reveal_strlit("error");
    let n = log_level_name(level);
    assert(forall|i: int| 0 <= i < n.len() ==> 'a' <= #[trigger] n[i] <= 'z');
    assert(text::eq_ignoring_ascii_case(n, n));
    if level != LogLevel::Trace {
        assert(!text::eq_ignoring_ascii_case(n, "trace"@)) by {
            if n.len() == 5 {
                assert(text::lower_ascii(n[0]) != "trace"@[0] as u32);
            }
        }
    }
    if level != LogLevel::Debug {
        assert(!text::eq_ignoring_ascii_case(n, "debug"@)) by {
            if n.len() == 5 {
                assert(text::lower_ascii(n[0]) != "debug"@[0] as u32);
            }
        }
    }
    if level != LogLevel::Info {
        assert(!text::eq_ignoring_ascii_case(n, "info"@)) by {
            if n.len() == 4 {
                assert(text::lower_ascii(n[0]) != "info"@[0] as u32);
            }
        }
    }
    if level != LogLevel::Warn {
        assert(!text::eq_ignoring_ascii_case(n, "warn"@)) by {
            if n.len() == 4 {
                assert(text::lower_ascii(n[0]) != "warn"@[0] as u32);
            }
        }
    }
}

/// The debug rendering of a secret: whether one is set, nothing more.
pub open spec fn secret_debug_text(secret: Seq<char>) -> Seq<char> {
    if secret.len() == 0 {
        "\"\""@
    } else {
        "\"[REDACTED]\""@
    }
}

/// Two keys that are both set render alike in debug output: the rendering
/// tells nothing of the key.
pub proof fn debug_text_hides_secret(a: Seq<char>, b: Seq<char>)
    requires
        a.len() > 0,
        b.len() > 0,
    ensures
        secret_debug_text(a) == secret_debug_text(b),
{
}

/// An API key; its debug rendering never shows it.
pub struct SecretString(String);

impl View for SecretString {
    type V = Seq<char>;

    closed spec fn view(&self) -> Seq<char> {
        self.0@
    }
}

impl SecretString {
    pub fn new(secret: String) -> (s: Self)
        ensures
            s@ == secret@,
    {
        SecretString(secret)
    }

    /// The secret itself.
    pub fn expose(&self) -> (s: &String)
        ensures
            s@ == self@,
    {
        &self.0
    }

    /// Replaces the secret.
    pub fn set(&mut self, secret: String)
        ensures
            final(self)@ == secret@,
    {
        self.0 = secret;
    }

    /// How the secret shows in debug output: a quoted empty string when no
    /// key is set, else a quoted `[REDACTED]`.
    pub fn debug_text(&self) -> (s: String)
        ensures
            s@ == secret_debug_text(self@),
    {
        if self.0.as_str().is_empty() {
            "\"\"".to_string()
        } else {
            "\"[REDACTED]\"".to_string()
        }
    }
}

impl Clone for SecretString {
    fn clone(&self) -> (r: Self)
        ensures
            r@ == self@,
    {
        SecretString(self.0.clone())
    }
}

pub open spec fn strings_view(v: Seq<String>) -> Seq<Seq<char>> {
    v.map_values(|s: String| s@)
}

pub open spec fn opt_string_view(o: Option<String>) -> Option<Seq<char>> {
    match o {
        Some(s) => Some(s@),
        None => None,
    }
}

pub open spec fn opt_strings_view(o: Option<Vec<String>>) -> Option<Seq<Seq<char>>> {
    match o {
        Some(v) => Some(strings_view(v@)),
        None => None,
    }
}

/// Every setting of the app.
pub struct AppSettings {
    pub bindings: Bindings,
    pub push_to_talk: bool,
    /// Bit pattern of the `f32` feedback volume.
    pub audio_feedback_volume_bits: u32,
    pub sound_theme: SoundTheme,
    pub start_hidden: bool,
    pub autostart_enabled: bool,
    pub mistral_transcription_base_url: String,
    pub mistral_transcription_api_key: SecretString,
    pub selected_model: String,
    pub always_on_microphone: bool,
    pub selected_microphone: Option<String>,
    pub clamshell_microphone: Option<String>,
    pub selected_output_device: Option<String>,
    pub selected_language: String,
    pub overlay_position: OverlayPosition,
    pub debug_mode: bool,
    pub log_level: LogLevel,
    pub custom_words: Vec<String>,
    /// Bit pattern of the `f64` word correction threshold.
    pub word_correction_threshold_bits: u64,
    pub history_limit: usize,
    pub recording_retention_period: RecordingRetentionPeriod,
    pub paste_method: PasteMethod,
    pub clipboard_handling: ClipboardHandling,
    pub auto_submit: bool,
    pub auto_submit_key: AutoSubmitKey,
    pub append_trailing_space: bool,
    pub app_language: String,
    pub experimental_enabled: bool,
    pub lazy_stream_close: bool,
    pub keyboard_implementation: KeyboardImplementation,
    pub show_tray_icon: bool,
    pub paste_delay_ms: u64,
    pub typing_tool: TypingTool,
    pub external_script_path: Option<String>,
    pub custom_filler_words: Option<Vec<String>>,
    pub whisper_accelerator: WhisperAcceleratorSetting,
    pub ort_accelerator: OrtAcceleratorSetting,
    pub whisper_gpu_device: i32,
    pub extra_recording_buffer_ms: u64,
}

/// The settings as values: texts as char sequences, bindings as a map.
pub struct AppSettingsView {
    pub bindings: Map<Seq<char>, ShortcutBindingView>,
    pub push_to_talk: bool,
    pub audio_feedback_volume_bits: u32,
    pub sound_theme: SoundTheme,
    pub start_hidden: bool,
    pub autostart_enabled: bool,
    pub mistral_transcription_base_url: Seq<char>,
    pub mistral_transcription_api_key: Seq<char>,
    pub selected_model: Seq<char>,
    pub always_on_microphone: bool,
    pub selected_microphone: Option<Seq<char>>,
    pub clamshell_microphone: Option<Seq<char>>,
    pub selected_output_device: Option<Seq<char>>,
    pub selected_language: Seq<char>,
    pub overlay_position: OverlayPosition,
    pub debug_mode: bool,
    pub log_level: LogLevel,
    pub custom_words: Seq<Seq<char>>,
    pub word_correction_threshold_bits: u64,
    pub history_limit: usize,
    pub recording_retention_period: RecordingRetentionPeriod,
    pub paste_method: PasteMethod,
    pub clipboard_handling: ClipboardHandling,
    pub auto_submit: bool,
    pub auto_submit_key: AutoSubmitKey,
    pub append_trailing_space: bool,
    pub app_language: Seq<char>,
    pub experimental_enabled: bool,
    pub lazy_stream_close: bool,
    pub keyboard_implementation: KeyboardImplementation,
    pub show_tray_icon: bool,
    pub paste_delay_ms: u64,
    pub typing_tool: TypingTool,
    pub external_script_path: Option<Seq<char>>,
    pub custom_filler_words: Option<Seq<Seq<char>>>,
    pub whisper_accelerator: WhisperAcceleratorSetting,
    pub ort_accelerator: OrtAcceleratorSetting,
    pub whisper_gpu_device: i32,
    pub extra_recording_buffer_ms: u64,
}

impl View for AppSettings {
    type V = AppSettingsView;

    open spec fn view(&self) -> AppSettingsView {
        AppSettingsView {
            bindings: self.bindings@,
            push_to_talk: self.push_to_talk,
            audio_feedback_volume_bits: self.audio_feedback_volume_bits,
            sound_theme: self.sound_theme,
            start_hidden: self.start_hidden,
            autostart_enabled: self.autostart_enabled,
            mistral_transcription_base_url: self.mistral_transcription_base_url@,
            mistral_transcription_api_key: self.mistral_transcription_api_key@,
            selected_model: self.selected_model@,
            always_on_microphone: self.always_on_microphone,
            selected_microphone: opt_string_view(self.selected_microphone),
            clamshell_microphone: opt_string_view(self.clamshell_microphone),
            selected_output_device: opt_string_view(self.selected_output_device),
            selected_language: self.selected_language@,
            overlay_position: self.overlay_position,
            debug_mode: self.debug_mode,
            log_level: self.log_level,
            custom_words: strings_view(self.custom_words@),
            word_correction_threshold_bits: self.word_correction_threshold_bits,
            history_limit: self.history_limit,
            recording_retention_period: self.recording_retention_period,
            paste_method: self.paste_method,
            clipboard_handling: self.clipboard_handling,
            auto_submit: self.auto_submit,
            auto_submit_key: self.auto_submit_key,
            append_trailing_space: self.append_trailing_space,
            app_language: self.app_language@,
            experimental_enabled: self.experimental_enabled,
            lazy_stream_close: self.lazy_stream_close,
            keyboard_implementation: self.keyboard_implementation,
            show_tray_icon: self.show_tray_icon,
            paste_delay_ms: self.paste_delay_ms,
            typing_tool: self.typing_tool,
            external_script_path: opt_string_view(self.external_script_path),
            custom_filler_words: opt_strings_view(self.custom_filler_words),
            whisper_accelerator: self.whisper_accelerator,
            ort_accelerator: self.ort_accelerator,
            whisper_gpu_device: self.whisper_gpu_device,
            extra_recording_buffer_ms: self.extra_recording_buffer_ms,
        }
    }
}

/// The keys of the transcription shortcut by default on `platform`.
pub open spec fn default_shortcut(platform: Platform) -> Seq<char> {
    match platform {
        Platform::Windows => "ctrl+space"@,
        Platform::MacOs => "option+space"@,
        Platform::Linux => "ctrl+space"@,
        Platform::Other => "alt+space"@,
    }
}

/// The two shortcuts the app has: start/stop transcription, and cancel.
pub open spec fn default_bindings(platform: Platform) -> Map<Seq<char>, ShortcutBindingView> {
    Map::<Seq<char>, ShortcutBindingView>::empty().insert(
        "transcribe"@,
        ShortcutBindingView {
            id: "transcribe"@,
            name: "Transcribe"@,
            description: "Converts your speech into text."@,
            default_binding: default_shortcut(platform),
            current_binding: default_shortcut(platform),
        },
    ).insert(
        "cancel"@,
        ShortcutBindingView {
            id: "cancel"@,
            name: "Cancel"@,
            description: "Cancels the current recording."@,
            default_binding: "escape"@,
            current_binding: "escape"@,
        },
    )
}

/// The settings of a fresh installation on `platform`.
pub open spec fn default_settings(platform: Platform) -> AppSettingsView {
    AppSettingsView {
        bindings: default_bindings(platform),
        push_to_talk: true,
        audio_feedback_volume_bits: DEFAULT_AUDIO_FEEDBACK_VOLUME_BITS,
        sound_theme: SoundTheme::Marimba,
        start_hidden: false,
        autostart_enabled: false,
        mistral_transcription_base_url: "https://api.mistral.ai/v1"@,
        mistral_transcription_api_key: Seq::empty(),
        selected_model: "voxtral-mini-latest"@,
        always_on_microphone: false,
        selected_microphone: None,
        clamshell_microphone: None,
        selected_output_device: None,
        selected_language: "auto"@,
        overlay_position: OverlayPosition::Bottom,
        debug_mode: false,
        log_level: LogLevel::Debug,
        custom_words: Seq::empty(),
        word_correction_threshold_bits: LOCKED_WORD_CORRECTION_THRESHOLD_BITS,
        history_limit: 10,
        recording_retention_period: RecordingRetentionPeriod::PreserveLimit,
        paste_method: PasteMethod::Direct,
        clipboard_handling: ClipboardHandling::DontModify,
        auto_submit: false,
        auto_submit_key: AutoSubmitKey::Enter,
        append_trailing_space: false,
        app_language: "en"@,
        experimental_enabled: false,
        lazy_stream_close: false,
        keyboard_implementation: KeyboardImplementation::Tauri,
        show_tray_icon: true,
        paste_delay_ms: 0,
        typing_tool: TypingTool::Auto,
        external_script_path: None,
        custom_filler_words: None,
        whisper_accelerator: WhisperAcceleratorSetting::Auto,
        ort_accelerator: OrtAcceleratorSetting::Auto,
        whisper_gpu_device: -1i32,
        extra_recording_buffer_ms: 0,
    }
}

fn make_binding(id: &str, name: &str, description: &str, keys: &str) -> (b: ShortcutBinding)
    ensures
        b@ == (ShortcutBindingView {
            id: id@,
            name: name@,
            description: description@,
            default_binding: keys@,
            current_binding: keys@,
        }),
{
    ShortcutBinding {
        id: id.to_string(),
        name: name.to_string(),
        description: description.to_string(),
        default_binding: keys.to_string(),
        current_binding: keys.to_string(),
    }
}

/// The transcription shortcut's default keys on `platform`.
pub fn default_shortcut_keys(platform: Platform) -> (s: &'static str)
    ensures
        s@ == default_shortcut(platform),
{
    match platform {
        Platform::Windows => "ctrl+space",
        Platform::MacOs => "option+space",
        Platform::Linux => "ctrl+space",
        Platform::Other => "alt+space",
    }
}

/// The settings of a fresh installation on `platform`.
pub fn get_default_settings(platform: Platform) -> (s: AppSettings)
    ensures
        s@ == default_settings(platform),
        !s.always_on_microphone,
        s.push_to_talk,
        s.selected_microphone is None,
        s.clamshell_microphone is None,
        s.selected_output_device is None,
        s.mistral_transcription_api_key@.len() == 0,
        s.mistral_transcription_base_url@ == "https://api.mistral.ai/v1"@,
        s.selected_model@ == "voxtral-mini-latest"@,
        s.selected_language@ == "auto"@,
        s.app_language@ == "en"@,
        s.sound_theme == SoundTheme::Marimba,
        !s.start_hidden && !s.autostart_enabled && !s.debug_mode,
        s.overlay_position == OverlayPosition::Bottom,
        s.log_level == LogLevel::Debug,
        s.custom_words@.len() == 0,
        s.history_limit == 10,
        s.recording_retention_period == RecordingRetentionPeriod::PreserveLimit,
        s.paste_method == PasteMethod::Direct,
        s.clipboard_handling == ClipboardHandling::DontModify,
        !s.auto_submit && s.auto_submit_key == AutoSubmitKey::Enter,
        !s.append_trailing_space && !s.experimental_enabled && !s.lazy_stream_close,
        s.keyboard_implementation == KeyboardImplementation::Tauri,
        s.show_tray_icon,
        s.paste_delay_ms == 0,
        s.typing_tool == TypingTool::Auto,
        s.external_script_path is None,
        s.custom_filler_words is None,
        s.whisper_accelerator == WhisperAcceleratorSetting::Auto,
        s.ort_accelerator == OrtAcceleratorSetting::Auto,
        s.whisper_gpu_device == -1,
        s.extra_recording_buffer_ms == 0,
{
    let default_shortcut = default_shortcut_keys(platform);
    let mut bindings = Bindings::new();
    bindings.insert(
        "transcribe".to_string(),
        make_binding("transcribe", "Transcribe", "Converts your speech into text.", default_shortcut),
    );
    bindings.insert(
        "cancel".to_string(),
        make_binding("cancel", "Cancel", "Cancels the current recording.", "escape"),
    );
    let custom_words: Vec<String> = Vec::new();
    assert(strings_view(custom_words@) =~= Seq::<Seq<char>>::empty());
    AppSettings {
        bindings,
        push_to_talk: true,
        audio_feedback_volume_bits: DEFAULT_AUDIO_FEEDBACK_VOLUME_BITS,
        sound_theme: SoundTheme::Marimba,
        start_hidden: false,
        autostart_enabled: false,
        mistral_transcription_base_url: LOCKED_MISTRAL_TRANSCRIPTION_BASE_URL.to_string(),
        mistral_transcription_api_key: SecretString::new(String::new()),
        selected_model: LOCKED_MISTRAL_TRANSCRIPTION_MODEL.to_string(),
        always_on_microphone: false,
        selected_microphone: None,
        clamshell_microphone: None,
        selected_output_device: None,
        selected_language: "auto".to_string(),
        overlay_position: OverlayPosition::Bottom,
        debug_mode: false,
        log_level: LogLevel::Debug,
        custom_words,
        word_correction_threshold_bits: LOCKED_WORD_CORRECTION_THRESHOLD_BITS,
        history_limit: 10,
        recording_retention_period: RecordingRetentionPeriod::PreserveLimit,
        paste_method: PasteMethod::Direct,
        clipboard_handling: ClipboardHandling::DontModify,
        auto_submit: false,
        auto_submit_key: AutoSubmitKey::Enter,
        append_trailing_space: false,
        app_language: "en".to_string(),
        experimental_enabled: false,
        lazy_stream_close: false,
        keyboard_implementation: KeyboardImplementation::Tauri,
        show_tray_icon: true,
        paste_delay_ms: 0,
        typing_tool: TypingTool::Auto,
        external_script_path: None,
        custom_filler_words: None,
        whisper_accelerator: WhisperAcceleratorSetting::Auto,
        ort_accelerator: OrtAcceleratorSetting::Auto,
        whisper_gpu_device: -1,
        extra_recording_buffer_ms: 0,
    }
}


/// The settings with every locked setting at its fixed value. The bindings
/// are the default ones, each keeping the keys assigned to it in `s`; only
/// push-to-talk, the feedback volume, the API key, the microphone and output
/// device choices and the log level are kept from `s`.
pub open spec fn sanitized(s: AppSettingsView, platform: Platform) -> AppSettingsView {
    AppSettingsView {
        bindings: bindings::keep_current_bindings(default_bindings(platform), s.bindings),
        sound_theme: SoundTheme::Marimba,
        start_hidden: false,
        autostart_enabled: false,
        mistral_transcription_base_url: "https://api.mistral.ai/v1"@,
        selected_model: "voxtral-mini-latest"@,
        selected_language: "auto"@,
        overlay_position: OverlayPosition::Bottom,
        debug_mode: false,
        custom_words: Seq::empty(),
        word_correction_threshold_bits: LOCKED_WORD_CORRECTION_THRESHOLD_BITS,
        history_limit: 10,
        recording_retention_period: RecordingRetentionPeriod::PreserveLimit,
        app_language: "en"@,
        experimental_enabled: false,
        lazy_stream_close: false,
        keyboard_implementation: KeyboardImplementation::Tauri,
        show_tray_icon: true,
        paste_delay_ms: 0,
        paste_method: PasteMethod::Direct,
        typing_tool: TypingTool::Auto,
        external_script_path: None,
        clipboard_handling: ClipboardHandling::DontModify,
        auto_submit: false,
        auto_submit_key: AutoSubmitKey::Enter,
        append_trailing_space: false,
        custom_filler_words: None,
        whisper_accelerator: WhisperAcceleratorSetting::Auto,
        ort_accelerator: OrtAcceleratorSetting::Auto,
        whisper_gpu_device: -1i32,
        extra_recording_buffer_ms: 0,
        ..s
    }
}

/// Sanitizing keeps every choice that is not locked: push-to-talk, the
/// feedback volume, the API key, always-on microphone, the microphones, the
/// output device and the log level come through unchanged.
pub proof fn sanitize_keeps_user_choices(s: AppSettingsView, platform: Platform)
    ensures
        sanitized(s, platform).push_to_talk == s.push_to_talk,
        sanitized(s, platform).audio_feedback_volume_bits == s.audio_feedback_volume_bits,
        sanitized(s, platform).mistral_transcription_api_key == s.mistral_transcription_api_key,
        sanitized(s, platform).always_on_microphone == s.always_on_microphone,
        sanitized(s, platform).selected_microphone == s.selected_microphone,
        sanitized(s, platform).clamshell_microphone == s.clamshell_microphone,
        sanitized(s, platform).selected_output_device == s.selected_output_device,
        sanitized(s, platform).log_level == s.log_level,
{
}

/// Every locked setting is put back to its value in a fresh installation,
/// whatever it was.
pub proof fn sanitize_locks_to_defaults(s: AppSettingsView, platform: Platform)
    ensures
        ({
            let r = sanitized(s, platform);
            let d = default_settings(platform);
            &&& r.sound_theme == d.sound_theme
            &&& r.start_hidden == d.start_hidden
            &&& r.autostart_enabled == d.autostart_enabled
            &&& r.mistral_transcription_base_url == d.mistral_transcription_base_url
            &&& r.selected_model == d.selected_model
            &&& r.selected_language == d.selected_language
            &&& r.overlay_position == d.overlay_position
            &&& r.debug_mode == d.debug_mode
            &&& r.custom_words == d.custom_words
            &&& r.word_correction_threshold_bits == d.word_correction_threshold_bits
            &&& r.history_limit == d.history_limit
            &&& r.recording_retention_period == d.recording_retention_period
            &&& r.app_language == d.app_language
            &&& r.experimental_enabled == d.experimental_enabled
            &&& r.lazy_stream_close == d.lazy_stream_close
            &&& r.keyboard_implementation == d.keyboard_implementation
            &&& r.show_tray_icon == d.show_tray_icon
            &&& r.paste_delay_ms == d.paste_delay_ms
            &&& r.paste_method == d.paste_method
            &&& r.typing_tool == d.typing_tool
            &&& r.external_script_path == d.external_script_path
            &&& r.clipboard_handling == d.clipboard_handling
            &&& r.auto_submit == d.auto_submit
            &&& r.auto_submit_key == d.auto_submit_key
            &&& r.append_trailing_space == d.append_trailing_space
            &&& r.custom_filler_words == d.custom_filler_words
            &&& r.whisper_accelerator == d.whisper_accelerator
            &&& r.ort_accelerator == d.ort_accelerator
            &&& r.whisper_gpu_device == d.whisper_gpu_device
            &&& r.extra_recording_buffer_ms == d.extra_recording_buffer_ms
        }),
{
}

/// A fresh installation keeps the microphone closed between recordings,
/// records while the shortcut is held, and has chosen no device.
pub proof fn defaults_choose_no_device(platform: Platform)
    ensures
        !default_settings(platform).always_on_microphone,
        default_settings(platform).push_to_talk,
        default_settings(platform).selected_microphone is None,
        default_settings(platform).clamshell_microphone is None,
        default_settings(platform).selected_output_device is None,
{
}

/// Puts every locked setting back to its fixed value; see `sanitized`.
#[verifier::rlimit(40)]
pub fn sanitize_settings(settings: AppSettings, platform: Platform) -> (r: AppSettings)
    ensures
        r@ == sanitized(settings@, platform),
        r@.push_to_talk == settings@.push_to_talk,
        r@.audio_feedback_volume_bits == settings@.audio_feedback_volume_bits,
        r@.mistral_transcription_api_key == settings@.mistral_transcription_api_key,
        r@.always_on_microphone == settings@.always_on_microphone,
        r@.selected_microphone == settings@.selected_microphone,
        r@.clamshell_microphone == settings@.clamshell_microphone,
        r@.selected_output_device == settings@.selected_output_device,
        r@.log_level == settings@.log_level,
{
    let defaults = get_default_settings(platform);
    let mut settings = settings;
    let mut sanitized_bindings = defaults.bindings.clone();
    sanitized_bindings.adopt_current_bindings(&settings.bindings);
    settings.bindings = sanitized_bindings;
    settings.sound_theme = SoundTheme::Marimba;
    settings.start_hidden = false;
    settings.autostart_enabled = false;
    settings.mistral_transcription_base_url = LOCKED_MISTRAL_TRANSCRIPTION_BASE_URL.to_string();
    settings.selected_model = LOCKED_MISTRAL_TRANSCRIPTION_MODEL.to_string();
    settings.selected_language = LOCKED_SELECTED_LANGUAGE.to_string();
    settings.overlay_position = LOCKED_OVERLAY_POSITION;
    settings.debug_mode = false;
    settings.custom_words = Vec::new();
    settings.word_correction_threshold_bits = LOCKED_WORD_CORRECTION_THRESHOLD_BITS;
    settings.history_limit = LOCKED_HISTORY_LIMIT;
    settings.recording_retention_period = LOCKED_RECORDING_RETENTION_PERIOD;
    settings.app_language = LOCKED_APP_LANGUAGE.to_string();
    settings.experimental_enabled = false;
    settings.lazy_stream_close = LOCKED_LAZY_STREAM_CLOSE;
    settings.keyboard_implementation = KeyboardImplementation::Tauri;
    settings.show_tray_icon = true;
    settings.paste_delay_ms = 0;
    settings.paste_method = LOCKED_PASTE_METHOD;
    settings.typing_tool = TypingTool::Auto;
    settings.external_script_path = None;
    settings.clipboard_handling = LOCKED_CLIPBOARD_HANDLING;
    settings.auto_submit = LOCKED_AUTO_SUBMIT;
    settings.auto_submit_key = AutoSubmitKey::Enter;
    settings.append_trailing_space = LOCKED_APPEND_TRAILING_SPACE;
    settings.custom_filler_words = None;
    settings.whisper_accelerator = WhisperAcceleratorSetting::Auto;
    settings.ort_accelerator = OrtAcceleratorSetting::Auto;
    settings.whisper_gpu_device = -1;
    settings.extra_recording_buffer_ms = LOCKED_EXTRA_RECORDING_BUFFER_MS;
    assert(strings_view(settings.custom_words@) =~= Seq::<Seq<char>>::empty());
    settings
}


/// Sanitizing twice changes nothing more than sanitizing once.
pub proof fn sanitize_is_idempotent(s: AppSettingsView, platform: Platform)
    ensures
        sanitized(sanitized(s, platform), platform) == sanitized(s, platform),
{
    let once = sanitized(s, platform);
    let d = default_bindings(platform);
    assert(bindings::keep_current_bindings(d, once.bindings) =~= once.bindings);
}

/// The default settings are already sanitized.
pub proof fn defaults_are_sanitized(platform: Platform)
    ensures
        sanitized(default_settings(platform), platform) == default_settings(platform),
{
    let d = default_bindings(platform);
    assert(bindings::keep_current_bindings(d, d) =~= d);
}

pub(crate) fn clone_strings(v: &Vec<String>) -> (r: Vec<String>)
    ensures
        strings_view(r@) == strings_view(v@),
{
    let mut r: Vec<String> = Vec::new();
    let mut i: usize = 0;
    while i < v.len()
        invariant
            0 <= i <= v@.len(),
            r@.len() == i,
            forall|j: int| 0 <= j < i ==> (#[trigger] r@[j])@ == v@[j]@,
        decreases v@.len() - i,
    {
        r.push(v[i].clone());
        i += 1;
    }
    assert(strings_view(r@) =~= strings_view(v@));
    r
}

pub(crate) fn clone_opt_string(o: &Option<String>) -> (r: Option<String>)
    ensures
        opt_string_view(r) == opt_string_view(*o),
{
    match o {
        Some(s) => Some(s.clone()),
        None => None,
    }
}

impl Clone for AppSettings {
    fn clone(&self) -> (r: Self)
        ensures
            r@ == self@,
    {
        AppSettings {
            bindings: self.bindings.clone(),
            push_to_talk: self.push_to_talk,
            audio_feedback_volume_bits: self.audio_feedback_volume_bits,
            sound_theme: self.sound_theme,
            start_hidden: self.start_hidden,
            autostart_enabled: self.autostart_enabled,
            mistral_transcription_base_url: self.mistral_transcription_base_url.clone(),
            mistral_transcription_api_key: self.mistral_transcription_api_key.clone(),
            selected_model: self.selected_model.clone(),
            always_on_microphone: self.always_on_microphone,
            selected_microphone: clone_opt_string(&self.selected_microphone),
            clamshell_microphone: clone_opt_string(&self.clamshell_microphone),
            selected_output_device: clone_opt_string(&self.selected_output_device),
            selected_language: self.selected_language.clone(),
            overlay_position: self.overlay_position,
            debug_mode: self.debug_mode,
            log_level: self.log_level,
            custom_words: clone_strings(&self.custom_words),
            word_correction_threshold_bits: self.word_correction_threshold_bits,
            history_limit: self.history_limit,
            recording_retention_period: self.recording_retention_period,
            paste_method: self.paste_method,
            clipboard_handling: self.clipboard_handling,
            auto_submit: self.auto_submit,
            auto_submit_key: self.auto_submit_key,
            append_trailing_space: self.append_trailing_space,
            app_language: self.app_language.clone(),
            experimental_enabled: self.experimental_enabled,
            lazy_stream_close: self.lazy_stream_close,
            keyboard_implementation: self.keyboard_implementation,
            show_tray_icon: self.show_tray_icon,
            paste_delay_ms: self.paste_delay_ms,
            typing_tool: self.typing_tool,
            external_script_path: clone_opt_string(&self.external_script_path),
            custom_filler_words: match &self.custom_filler_words {
                Some(v) => Some(clone_strings(v)),
                None => None,
            },
            whisper_accelerator: self.whisper_accelerator,
            ort_accelerator: self.ort_accelerator,
            whisper_gpu_device: self.whisper_gpu_device,
            extra_recording_buffer_ms: self.extra_recording_buffer_ms,
        }
    }
}


/// The SHA-256 digest of `data`.
pub uninterp spec fn sha256(data: Seq<u8>) -> Seq<u8>;

/// `sha2::Sha256::digest`: the 32-byte SHA-256 digest of `data`, named by `sha256`.
#[verifier::external_body]
fn sha256_digest(data: &[u8]) -> (d: Vec<u8>)
    ensures
        d@ == sha256(data@),
        d@.len() == 32,
{
    sha2::Sha256::digest(data).to_vec()
}

/// The bytes whose digest identifies the configuration format.
pub open spec fn fingerprint_input() -> Seq<u8> {
    vstd::utf8::encode_utf8("1.0.0"@) + vstd::utf8::encode_utf8("|opinionated-config-v1|"@)
}

/// The fingerprint a stored configuration must carry: the lower-case
/// hexadecimal SHA-256 digest of the app version followed by the format tag.
pub open spec fn expected_fingerprint() -> Seq<char> {
    text::hex_lower(sha256(fingerprint_input()))
}

fn append_bytes(v: &mut Vec<u8>, bytes: &[u8])
    ensures
        final(v)@ == old(v)@ + bytes@,
{
    let ghost start = v@;
    let mut i: usize = 0;
    while i < bytes.len()
        invariant
            0 <= i <= bytes@.len(),
            v@ == start + bytes@.subrange(0, i as int),
        decreases bytes@.len() - i,
    {
        v.push(bytes[i]);
        assert(start + bytes@.subrange(0, i + 1) =~= (start + bytes@.subrange(0, i as int)).push(bytes@[i as int]));
        i += 1;
    }
    assert(bytes@.subrange(0, bytes@.len() as int) =~= bytes@);
}

/// The fingerprint written with, and required of, a stored configuration.
pub fn config_fingerprint() -> (f: String)
    ensures
        f@ == expected_fingerprint(),
        f@.len() == 64,
{
    let mut data: Vec<u8> = Vec::new();
    append_bytes(&mut data, APP_VERSION.as_bytes());
    append_bytes(&mut data, "|opinionated-config-v1|".as_bytes());
    assert(data@ =~= fingerprint_input());
    let digest = sha256_digest(data.as_slice());
    text::to_hex_lower(&digest)
}

/// The configuration file's content: format version, fingerprint, settings.
pub struct PersistedConfig {
    pub version: String,
    pub fingerprint: String,
    pub settings: AppSettings,
}

pub struct PersistedConfigView {
    pub version: Seq<char>,
    pub fingerprint: Seq<char>,
    pub settings: AppSettingsView,
}

impl View for PersistedConfig {
    type V = PersistedConfigView;

    open spec fn view(&self) -> PersistedConfigView {
        PersistedConfigView {
            version: self.version@,
            fingerprint: self.fingerprint@,
            settings: self.settings@,
        }
    }
}

/// What is written for `settings`: the app version, `fingerprint`, and the
/// settings sanitized.
pub open spec fn written_config(
    settings: AppSettingsView,
    fingerprint: Seq<char>,
    platform: Platform,
) -> PersistedConfigView {
    PersistedConfigView {
        version: "1.0.0"@,
        fingerprint,
        settings: sanitized(settings, platform),
    }
}

/// The settings a stored configuration yields: its settings sanitized when
/// its version is the app version and its fingerprint the expected one;
/// nothing otherwise.
pub open spec fn accepted_settings(
    stored: PersistedConfigView,
    expected: Seq<char>,
    platform: Platform,
) -> Option<AppSettingsView> {
    if stored.version == "1.0.0"@ && stored.fingerprint == expected {
        Some(sanitized(stored.settings, platform))
    } else {
        None
    }
}

/// The content to write for `settings`.
pub fn persisted_config(settings: AppSettings, fingerprint: String, platform: Platform) -> (c:
    PersistedConfig)
    ensures
        c@ == written_config(settings@, fingerprint@, platform),
{
    PersistedConfig {
        version: APP_VERSION.to_string(),
        fingerprint,
        settings: sanitize_settings(settings, platform),
    }
}

/// What reading the configuration file gave.
pub enum StoredConfig {
    /// The file could not be read (it may not exist).
    Unreadable,
    /// The file was read but does not hold a configuration.
    Unparsable,
    /// The configuration the file holds.
    Parsed(PersistedConfig),
}

/// What to do with what was read.
pub enum LoadOutcome {
    /// Use these settings; the file stays as it is.
    Loaded(AppSettings),
    /// Write the default settings and use them, deleting the file first when
    /// `remove_old`.
    Recreate { remove_old: bool },
}

/// Decides what loading the configuration yields: an accepted stored
/// configuration gives its sanitized settings; an unparsable or unaccepted
/// one is deleted and replaced by the defaults; a missing one is replaced by
/// the defaults.
pub fn decide_stored_config(stored: StoredConfig, expected_fingerprint: &str, platform: Platform) -> (r:
    LoadOutcome)
    ensures
        match stored {
            StoredConfig::Parsed(c) => match accepted_settings(c@, expected_fingerprint@, platform) {
                Some(v) => r matches LoadOutcome::Loaded(s) && s@ == v,
                None => r == (LoadOutcome::Recreate { remove_old: true }),
            },
            StoredConfig::Unparsable => r == (LoadOutcome::Recreate { remove_old: true }),
            StoredConfig::Unreadable => r == (LoadOutcome::Recreate { remove_old: false }),
        },
{
    match stored {
        StoredConfig::Parsed(config) => {
            let version = APP_VERSION.to_string();
            let expected = expected_fingerprint.to_string();
            if config.version == version && config.fingerprint == expected {
                LoadOutcome::Loaded(sanitize_settings(config.settings, platform))
            } else {
                LoadOutcome::Recreate { remove_old: true }
            }
        },
        StoredConfig::Unparsable => LoadOutcome::Recreate { remove_old: true },
        StoredConfig::Unreadable => LoadOutcome::Recreate { remove_old: false },
    }
}

/// Reading back what was written gives the settings as they were written:
/// sanitized.
pub proof fn load_after_write(settings: AppSettingsView, fingerprint: Seq<char>, platform: Platform)
    ensures
        accepted_settings(written_config(settings, fingerprint, platform), fingerprint, platform)
            == Some(sanitized(settings, platform)),
{
    sanitize_is_idempotent(settings, platform);
}

/// Sanitizing keeps exactly the default shortcuts: none added, none dropped.
pub proof fn sanitize_keeps_default_shortcuts(s: AppSettingsView, platform: Platform)
    ensures
        sanitized(s, platform).bindings.dom() == default_bindings(platform).dom(),
{
    assert(sanitized(s, platform).bindings.dom() =~= default_bindings(platform).dom());
}

/// Default settings written to the file are read back unchanged.
pub proof fn defaults_round_trip(fingerprint: Seq<char>, platform: Platform)
    ensures
        accepted_settings(
            written_config(default_settings(platform), fingerprint, platform),
            fingerprint,
            platform,
        ) == Some(default_settings(platform)),
{
    defaults_are_sanitized(platform);
    load_after_write(default_settings(platform), fingerprint, platform);
}

/// The shortcut bindings.
pub fn get_bindings(settings: &AppSettings) -> (b: Bindings)
    ensures
        b@ == settings.bindings@,
{
    settings.bindings.clone()
}

/// The binding stored under `id`, which must exist.
pub fn get_stored_binding(settings: &AppSettings, id: &str) -> (b: ShortcutBinding)
    requires
        settings.bindings@.contains_key(id@),
    ensures
        b@ == settings.bindings@[id@],
{
    match settings.bindings.get(id) {
        Some(b) => b,
        None => {
            assert(false);
            make_binding("", "", "", "")
        },
    }
}

pub fn get_history_limit(settings: &AppSettings) -> (n: usize)
    ensures
        n == settings.history_limit,
{
    settings.history_limit
}

pub fn get_recording_retention_period(settings: &AppSettings) -> (p: RecordingRetentionPeriod)
    ensures
        p == settings.recording_retention_period,
{
    settings.recording_retention_period
}

} // verus!
