//! The transcription side: which model is loaded, the events announcing it,
//! and turning recorded audio into a service request.

use crate::mistral::{self, TranscriptionRequest};
use crate::models::{EngineType, ModelManager};
use crate::settings::{self, AppSettings};
use vstd::prelude::*;

verus! {

broadcast use vstd::string::group_string_axioms;

/// Announces a change of the model state to the interface.
pub struct ModelStateEvent {
    pub event_type: String,
    pub model_id: Option<String>,
    pub model_name: Option<String>,
    pub error: Option<String>,
}

pub struct ModelStateEventView {
    pub event_type: Seq<char>,
    pub model_id: Option<Seq<char>>,
    pub model_name: Option<Seq<char>>,
    pub error: Option<Seq<char>>,
}

impl View for ModelStateEvent {
    type V = ModelStateEventView;

    open spec fn view(&self) -> ModelStateEventView {
        ModelStateEventView {
            event_type: self.event_type@,
            model_id: settings::opt_string_view(self.model_id),
            model_name: settings::opt_string_view(self.model_name),
            error: settings::opt_string_view(self.error),
        }
    }
}

/// A GPU that a local engine could run on.
pub struct GpuDeviceOption {
    pub id: i32,
    pub name: String,
    pub total_vram_mb: usize,
}

/// The accelerators local engines could use.
pub struct AvailableAccelerators {
    pub whisper: Vec<String>,
    pub ort: Vec<String>,
    pub gpu_devices: Vec<GpuDeviceOption>,
}

/// No accelerator is offered: transcription runs on the hosted service.
pub fn get_available_accelerators() -> (a: AvailableAccelerators)
    ensures
        a.whisper@.len() == 0,
        a.ort@.len() == 0,
        a.gpu_devices@.len() == 0,
{
    AvailableAccelerators { whisper: Vec::new(), ort: Vec::new(), gpu_devices: Vec::new() }
}

/// The language code sent to the service for a selected language: none for
/// automatic detection, `zh` for both Chinese scripts, else the selection.
pub open spec fn api_language_for(selected: Seq<char>) -> Option<Seq<char>> {
    if selected == "auto"@ {
        None
    } else if selected == "zh-Hans"@ || selected == "zh-Hant"@ {
        Some("zh"@)
    } else {
        Some(selected)
    }
}

/// Computes `api_language_for`.
pub fn api_language(selected: &str) -> (r: Option<String>)
    ensures
        settings::opt_string_view(r) == api_language_for(selected@),
{
    let s = selected.to_string();
    if s == "auto".to_string() {
        None
    } else if s == "zh-Hans".to_string() || s == "zh-Hant".to_string() {
        Some("zh".to_string())
    } else {
        Some(s)
    }
}

/// `x` (taken modulo 2^16) as two little-endian bytes.
pub open spec fn le_u16_bytes(x: int) -> Seq<u8> {
    seq![(x % 256) as u8, ((x / 256) % 256) as u8]
}

/// `x` (taken modulo 2^32) as four little-endian bytes.
pub open spec fn le_u32_bytes(x: int) -> Seq<u8> {
    le_u16_bytes(x % 65536) + le_u16_bytes(x / 65536)
}

/// One 16-bit sample as its two little-endian two's-complement bytes.
pub open spec fn sample_bytes(s: i16) -> Seq<u8> {
    le_u16_bytes(if s < 0 { s + 65536 } else { s as int })
}

/// The data chunk's payload: every sample's bytes, in order.
pub open spec fn pcm16_data(samples: Seq<i16>) -> Seq<u8> {
    Seq::new((2 * samples.len()) as nat, |i: int| sample_bytes(samples[i / 2])[i % 2])
}

/// The 16-bit integer PCM WAV file of `samples`: the 44-byte header (RIFF
/// chunk with its size, the 16-byte `fmt ` chunk of PCM format 1 with the
/// channel count, sample rate, byte rate, block alignment and 16 bits per
/// sample, then the `data` chunk header with its size), then the samples.
pub open spec fn wav_pcm16(samples: Seq<i16>, channels: int, sample_rate: int) -> Seq<u8> {
    let data_len: int = 2 * samples.len() as int;
    seq![0x52u8, 0x49, 0x46, 0x46]  // "RIFF"
    + le_u32_bytes(data_len + 36)
    + seq![0x57u8, 0x41, 0x56, 0x45]  // "WAVE"
    + seq![0x66u8, 0x6d, 0x74, 0x20]  // "fmt "
    + le_u32_bytes(16)
    + le_u16_bytes(1)
    + le_u16_bytes(channels)
    + le_u32_bytes(sample_rate)
    + le_u32_bytes(sample_rate * 2 * channels)
    + le_u16_bytes(2 * channels)
    + le_u16_bytes(16)
    + seq![0x64u8, 0x61, 0x74, 0x61]  // "data"
    + le_u32_bytes(data_len)
    + pcm16_data(samples)
}

/// The most samples a WAV file can hold: its header counts the file's size,
/// `2 * n + 36` bytes, in 32 bits.
pub const MAX_WAV_SAMPLES: usize = 2_147_483_629;

/// `hound::WavWriter` over an in-memory buffer, for 16-bit integer samples:
/// `WavWriter::new` writes the header (the 44-byte PCMWAVEFORMAT one for one or
/// two channels), `write_sample` appends each sample in little-endian order,
/// and `finalize` fills in the two sizes. Writing into memory cannot fail, and
/// `finalize` accepts a whole number of frames; the `requires` keep hound's
/// 32-bit counters (data bytes, file size, byte rate) from overflowing and its
/// block alignment (byte rate / sample rate) from dividing by zero.
#[verifier::external_body]
fn hound_encode(samples: &[i16], channels: u16, sample_rate: u32) -> (r: Result<Vec<u8>, String>)
    requires
        1 <= channels <= 2,
        samples@.len() % (channels as nat) == 0,
        samples@.len() <= MAX_WAV_SAMPLES,
        0 < sample_rate,
        sample_rate * 2 * channels <= u32::MAX,
    ensures
        r is Ok,
        r matches Ok(bytes) ==> bytes@ == wav_pcm16(samples@, channels as int, sample_rate as int),
{
    let spec = hound::WavSpec { channels, sample_rate, bits_per_sample: 16, sample_format: hound::SampleFormat::Int };
    let mut cursor = std::io::Cursor::new(Vec::new());
    let mut writer = hound::WavWriter::new(&mut cursor, spec).map_err(|e| format!("Failed to create WAV writer: {}", e))?;
    for sample in samples {
        writer.write_sample(*sample).map_err(|e| format!("Failed to write WAV sample: {}", e))?;
    }
    writer.finalize().map_err(|e| format!("Failed to finalize WAV data: {}", e))?;
    Ok(cursor.into_inner())
}

/// Sample rate of the uploaded audio.
pub const WAV_SAMPLE_RATE: u32 = 16_000;

/// Encodes 16-bit samples as a mono 16 kHz WAV file: the 44-byte header, then
/// the samples. Longer recordings than `MAX_WAV_SAMPLES` overflow the header's
/// size fields.
pub fn encode_wav(pcm: &[i16]) -> (r: Result<Vec<u8>, String>)
    requires
        pcm@.len() <= MAX_WAV_SAMPLES,
    ensures
        r matches Ok(bytes) && bytes@ == wav_pcm16(pcm@, 1, WAV_SAMPLE_RATE as int)
            && bytes@.len() == 44 + 2 * pcm@.len(),
{
    hound_encode(pcm, 1, WAV_SAMPLE_RATE)
}

/// What one transcription sends: the request and the audio file.
pub struct TranscriptionJob {
    pub request: TranscriptionRequest,
    pub wav: Vec<u8>,
}

/// Tracks which model is loaded.
pub struct TranscriptionManager {
    current_model_id: Option<String>,
}

impl TranscriptionManager {
    /// The loaded model's id, if any.
    pub closed spec fn current(self) -> Option<Seq<char>> {
        settings::opt_string_view(self.current_model_id)
    }

    /// Starts with the hosted model loaded.
    pub fn new() -> (m: Self)
        ensures
            m.current() == Some("voxtral-mini-latest"@),
    {
        TranscriptionManager {
            current_model_id: Some(settings::LOCKED_MISTRAL_TRANSCRIPTION_MODEL.to_string()),
        }
    }

    /// A hosted model needs no loading: always ready.
    pub fn is_model_loaded(&self) -> (b: bool)
        ensures
            b,
    {
        true
    }

    /// Forgets the loaded model.
    pub fn unload_model(&mut self) -> (r: Result<(), String>)
        ensures
            r is Ok,
            final(self).current() is None,
    {
        self.current_model_id = None;
        Ok(())
    }

    /// Nothing is held that could be released early.
    pub fn maybe_unload_immediately(&self, context: &str) {
    }

    /// Loads the model `model_id` of the catalog: it must exist there and run
    /// on the hosted service. On success it becomes the loaded model and the
    /// returned event announces it.
    pub fn load_model(&mut self, models: &ModelManager, model_id: &str) -> (r: Result<
        ModelStateEvent,
        String,
    >)
        ensures
            !models@.contains_key(model_id@) ==> (r matches Err(e) && e@ == "Model not found: "@
                + model_id@ && final(self).current() == old(self).current()),
            models@.contains_key(model_id@) ==> (r matches Ok(ev) && final(self).current() == Some(
                model_id@,
            ) && ev@ == (ModelStateEventView {
                event_type: "loading_completed"@,
                model_id: Some(model_id@),
                model_name: Some(models@[model_id@].name),
                error: None,
            })),
    {
        let info = match models.get_model_info(model_id) {
            Some(info) => info,
            None => {
                return Err("Model not found: ".to_string().concat(model_id));
            },
        };
        match info.engine_type {
            EngineType::MistralApi => {},
        }
        self.current_model_id = Some(model_id.to_string());
        Ok(ModelStateEvent {
            event_type: "loading_completed".to_string(),
            model_id: Some(model_id.to_string()),
            model_name: Some(info.name),
            error: None,
        })
    }

    /// Loads the hosted model, ignoring failure; the event announcing the
    /// load when it succeeded.
    pub fn initiate_model_load(&mut self, models: &ModelManager) -> (ev: Option<ModelStateEvent>)
        ensures
            models@.contains_key("voxtral-mini-latest"@) ==> final(self).current() == Some(
                "voxtral-mini-latest"@,
            ) && (ev matches Some(e) && e@ == (ModelStateEventView {
                event_type: "loading_completed"@,
                model_id: Some("voxtral-mini-latest"@),
                model_name: Some(models@["voxtral-mini-latest"@].name),
                error: None,
            })),
            !models@.contains_key("voxtral-mini-latest"@) ==> final(self).current() == old(self).current() && ev is None,
    {
        match self.load_model(models, settings::LOCKED_MISTRAL_TRANSCRIPTION_MODEL) {
            Ok(ev) => Some(ev),
            Err(_) => None,
        }
    }

    /// The loaded model's id, if any.
    pub fn get_current_model(&self) -> (r: Option<String>)
        ensures
            settings::opt_string_view(r) == self.current(),
    {
        match &self.current_model_id {
            Some(id) => Some(id.clone()),
            None => None,
        }
    }

    /// Prepares the transcription of `pcm` (the recording as 16-bit samples):
    /// none when nothing was recorded, else the WAV file and the request for
    /// the hosted model in the configured service, with the configured key.
    pub fn prepare_transcription(&self, settings: &AppSettings, pcm: &[i16]) -> (r: Result<
        Option<TranscriptionJob>,
        String,
    >)
        requires
            pcm@.len() <= MAX_WAV_SAMPLES,
        ensures
            pcm@.len() == 0 ==> r == Ok::<Option<TranscriptionJob>, String>(None),
            pcm@.len() > 0 ==> match mistral::request_error(
                settings.mistral_transcription_base_url@,
                settings.mistral_transcription_api_key@,
            ) {
                Some(e) => r matches Err(m) && m@ == e,
                None => r matches Ok(Some(_)),
            },
            r matches Ok(Some(job)) ==> {
                &&& pcm@.len() > 0
                &&& job.wav@ == wav_pcm16(pcm@, 1, WAV_SAMPLE_RATE as int)
                &&& job.request.url@ == mistral::request_url(
                    settings.mistral_transcription_base_url@,
                )
                &&& job.request.authorization@ == mistral::authorization_value(
                    settings.mistral_transcription_api_key@,
                )
                &&& job.request.user_agent@ == mistral::user_agent()
                &&& job.request.model@ == "voxtral-mini-latest"@
                &&& job.request.file_name@ == "recording.wav"@
                &&& job.request.mime_type@ == "audio/wav"@
                &&& mistral::opt_string_view(job.request.language) == mistral::sent_language(
                    api_language_for("auto"@),
                )
            },
    {
        if pcm.len() == 0 {
            return Ok(None);
        }
        let wav = match encode_wav(pcm) {
            Ok(bytes) => bytes,
            Err(e) => return Err(e),
        };
        let language = api_language(settings::LOCKED_SELECTED_LANGUAGE);
        let lang_ref: Option<&str> = match &language {
            Some(l) => Some(l.as_str()),
            None => None,
        };
        let request = match mistral::prepare_transcription_request(
            settings.mistral_transcription_base_url.as_str(),
            settings.mistral_transcription_api_key.expose().as_str(),
            settings::LOCKED_MISTRAL_TRANSCRIPTION_MODEL,
            lang_ref,
        ) {
            Ok(request) => request,
            Err(e) => return Err(e),
        };
        Ok(Some(TranscriptionJob { request, wav }))
    }
}

} // verus!
