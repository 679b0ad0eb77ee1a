//! The catalog of transcription models and the choice of the active one.

use crate::settings::{self, AppSettings};
use crate::transcription::{ModelStateEvent, ModelStateEventView, TranscriptionManager};
use vstd::prelude::*;

verus! {

broadcast use vstd::string::group_string_axioms;

/// How a model is run.
#[derive(Debug, Clone, Copy, PartialEq, Eq, Structural)]
pub enum EngineType {
    /// On the hosted transcription service.
    MistralApi,
}

/// What the interface shows of a model. Scores are held as `f32` bit patterns.
pub struct ModelInfo {
    pub id: String,
    pub name: String,
    pub description: String,
    pub filename: String,
    pub url: Option<String>,
    pub sha256: Option<String>,
    pub size_mb: u64,
    pub is_downloaded: bool,
    pub is_downloading: bool,
    pub partial_size: u64,
    pub is_directory: bool,
    pub engine_type: EngineType,
    pub accuracy_score_bits: u32,
    pub speed_score_bits: u32,
    pub supports_translation: bool,
    pub is_recommended: bool,
    pub supported_languages: Vec<String>,
    pub supports_language_selection: bool,
    pub is_custom: bool,
    pub is_remote: bool,
}

pub struct ModelInfoView {
    pub id: Seq<char>,
    pub name: Seq<char>,
    pub description: Seq<char>,
    pub filename: Seq<char>,
    pub url: Option<Seq<char>>,
    pub sha256: Option<Seq<char>>,
    pub size_mb: u64,
    pub is_downloaded: bool,
    pub is_downloading: bool,
    pub partial_size: u64,
    pub is_directory: bool,
    pub engine_type: EngineType,
    pub accuracy_score_bits: u32,
    pub speed_score_bits: u32,
    pub supports_translation: bool,
    pub is_recommended: bool,
    pub supported_languages: Seq<Seq<char>>,
    pub supports_language_selection: bool,
    pub is_custom: bool,
    pub is_remote: bool,
}

impl View for ModelInfo {
    type V = ModelInfoView;

    open spec fn view(&self) -> ModelInfoView {
        ModelInfoView {
            id: self.id@,
            name: self.name@,
            description: self.description@,
            filename: self.filename@,
            url: settings::opt_string_view(self.url),
            sha256: settings::opt_string_view(self.sha256),
            size_mb: self.size_mb,
            is_downloaded: self.is_downloaded,
            is_downloading: self.is_downloading,
            partial_size: self.partial_size,
            is_directory: self.is_directory,
            engine_type: self.engine_type,
            accuracy_score_bits: self.accuracy_score_bits,
            speed_score_bits: self.speed_score_bits,
            supports_translation: self.supports_translation,
            is_recommended: self.is_recommended,
            supported_languages: settings::strings_view(self.supported_languages@),
            supports_language_selection: self.supports_language_selection,
            is_custom: self.is_custom,
            is_remote: self.is_remote,
        }
    }
}

impl Clone for ModelInfo {
    fn clone(&self) -> (r: Self)
        ensures
            r@ == self@,
    {
        ModelInfo {
            id: self.id.clone(),
            name: self.name.clone(),
            description: self.description.clone(),
            filename: self.filename.clone(),
            url: settings::clone_opt_string(&self.url),
            sha256: settings::clone_opt_string(&self.sha256),
            size_mb: self.size_mb,
            is_downloaded: self.is_downloaded,
            is_downloading: self.is_downloading,
            partial_size: self.partial_size,
            is_directory: self.is_directory,
            engine_type: self.engine_type,
            accuracy_score_bits: self.accuracy_score_bits,
            speed_score_bits: self.speed_score_bits,
            supports_translation: self.supports_translation,
            is_recommended: self.is_recommended,
            supported_languages: settings::clone_strings(&self.supported_languages),
            supports_language_selection: self.supports_language_selection,
            is_custom: self.is_custom,
            is_remote: self.is_remote,
        }
    }
}

/// Bit pattern of the `f32` value 0.95.
pub const HOSTED_MODEL_ACCURACY_BITS: u32 = 0x3F73_3333;

/// Bit pattern of the `f32` value 0.80.
pub const HOSTED_MODEL_SPEED_BITS: u32 = 0x3F4C_CCCD;

/// Languages the hosted model is offered for.
pub open spec fn hosted_model_languages() -> Seq<Seq<char>> {
    seq!["en"@, "es"@, "fr"@, "pt"@, "hi"@, "de"@, "nl"@, "it"@]
}

/// The one model of the catalog: the hosted one.
pub open spec fn hosted_model() -> ModelInfoView {
    ModelInfoView {
        id: "voxtral-mini-latest"@,
        name: "Voxtral Mini (Mistral API)"@,
        description: "Hosted transcription through Mistral's API. No local download required, but you must add your own API key in Settings."@,
        filename: Seq::empty(),
        url: None,
        sha256: None,
        size_mb: 0,
        is_downloaded: false,
        is_downloading: false,
        partial_size: 0,
        is_directory: false,
        engine_type: EngineType::MistralApi,
        accuracy_score_bits: HOSTED_MODEL_ACCURACY_BITS,
        speed_score_bits: HOSTED_MODEL_SPEED_BITS,
        supports_translation: false,
        is_recommended: true,
        supported_languages: hosted_model_languages(),
        supports_language_selection: true,
        is_custom: false,
        is_remote: true,
    }
}

/// The catalog: models keyed by id.
pub open spec fn catalog() -> Map<Seq<char>, ModelInfoView> {
    Map::<Seq<char>, ModelInfoView>::empty().insert("voxtral-mini-latest"@, hosted_model())
}

fn hosted_model_info() -> (m: ModelInfo)
    ensures
        m@ == hosted_model(),
{
    let mut languages: Vec<String> = Vec::new();
    languages.push("en".to_string());
    languages.push("es".to_string());
    languages.push("fr".to_string());
    languages.push("pt".to_string());
    languages.push("hi".to_string());
    languages.push("de".to_string());
    languages.push("nl".to_string());
    languages.push("it".to_string());
    assert(settings::strings_view(languages@) =~= hosted_model_languages());
    ModelInfo {
        id: settings::LOCKED_MISTRAL_TRANSCRIPTION_MODEL.to_string(),
        name: "Voxtral Mini (Mistral API)".to_string(),
        description: "Hosted transcription through Mistral's API. No local download required, but you must add your own API key in Settings.".to_string(),
        filename: String::new(),
        url: None,
        sha256: None,
        size_mb: 0,
        is_downloaded: false,
        is_downloading: false,
        partial_size: 0,
        is_directory: false,
        engine_type: EngineType::MistralApi,
        accuracy_score_bits: HOSTED_MODEL_ACCURACY_BITS,
        speed_score_bits: HOSTED_MODEL_SPEED_BITS,
        supports_translation: false,
        is_recommended: true,
        supported_languages: languages,
        supports_language_selection: true,
        is_custom: false,
        is_remote: true,
    }
}

/// The hosted model is offered for English, Spanish, French, Portuguese,
/// Hindi, German, Dutch and Italian, in that order, and for nothing else.
pub proof fn hosted_model_language_list()
    ensures
        ({
            let langs = catalog()["voxtral-mini-latest"@].supported_languages;
            &&& langs.len() == 8
            &&& langs[0] == "en"@ && langs[1] == "es"@ && langs[2] == "fr"@
            &&& langs[3] == "pt"@ && langs[4] == "hi"@ && langs[5] == "de"@
            &&& langs[6] == "nl"@ && langs[7] == "it"@
        }),
{
}

/// The models that can be selected.
pub struct ModelManager {
    hosted: ModelInfo,
}

impl View for ModelManager {
    type V = Map<Seq<char>, ModelInfoView>;

    closed spec fn view(&self) -> Map<Seq<char>, ModelInfoView> {
        Map::<Seq<char>, ModelInfoView>::empty().insert(self.hosted.id@, self.hosted@)
    }
}

impl ModelManager {
    #[verifier::type_invariant]
    spec fn only_hosted(self) -> bool {
        self.hosted@ == hosted_model()
    }

    /// The catalog of the hosted model alone.
    pub fn new() -> (m: Self)
        ensures
            m@ == catalog(),
            m@.dom() == set!["voxtral-mini-latest"@],
            ({
                let langs = m@["voxtral-mini-latest"@].supported_languages;
                &&& langs.len() == 8
                &&& langs[0] == "en"@ && langs[1] == "es"@ && langs[2] == "fr"@
                &&& langs[3] == "pt"@ && langs[4] == "hi"@ && langs[5] == "de"@
                &&& langs[6] == "nl"@ && langs[7] == "it"@
            }),
            m@["voxtral-mini-latest"@].name == "Voxtral Mini (Mistral API)"@,
            m@["voxtral-mini-latest"@].is_remote,
            m@["voxtral-mini-latest"@].supports_language_selection,
            !m@["voxtral-mini-latest"@].supports_translation,
    {
        ModelManager { hosted: hosted_model_info() }
    }

    /// Every model of the catalog.
    pub fn get_available_models(&self) -> (v: Vec<ModelInfo>)
        ensures
            v@.len() == self@.len(),
            forall|i: int| 0 <= i < v@.len() ==> self@.contains_key((#[trigger] v@[i])@.id)
                && self@[v@[i]@.id] == v@[i]@,
    {
        proof {
            use_type_invariant(self);
            assert(self@.dom() =~= set![self.hosted.id@]);
        }
        let mut v: Vec<ModelInfo> = Vec::new();
        v.push(self.hosted.clone());
        v
    }

    /// The model with id `model_id`, if the catalog has it.
    pub fn get_model_info(&self, model_id: &str) -> (r: Option<ModelInfo>)
        ensures
            r is Some <==> self@.contains_key(model_id@),
            r matches Some(m) ==> m@ == self@[model_id@],
    {
        proof {
            use_type_invariant(self);
        }
        if self.hosted.id == model_id.to_string() {
            Some(self.hosted.clone())
        } else {
            None
        }
    }

    /// The settings with the hosted model selected, when another one was;
    /// none when nothing needs to change.
    pub fn auto_select_model_if_needed(&self, settings: AppSettings) -> (r: Option<AppSettings>)
        ensures
            settings@.selected_model == "voxtral-mini-latest"@ ==> r is None,
            settings@.selected_model != "voxtral-mini-latest"@ ==> (r matches Some(s) && s@
                == (settings::AppSettingsView { selected_model: "voxtral-mini-latest"@, ..settings@ })),
    {
        if settings.selected_model != settings::LOCKED_MISTRAL_TRANSCRIPTION_MODEL.to_string() {
            Some(
                with_selected_model(
                    settings,
                    settings::LOCKED_MISTRAL_TRANSCRIPTION_MODEL.to_string(),
                ),
            )
        } else {
            None
        }
    }
}

/// `settings` with `model` selected.
fn with_selected_model(settings: AppSettings, model: String) -> (r: AppSettings)
    ensures
        r@ == (settings::AppSettingsView { selected_model: model@, ..settings@ }),
{
    let mut settings = settings;
    settings.selected_model = model;
    settings
}

/// What switching the active model did.
pub struct ModelSwitch {
    /// The settings to write, when the request named the hosted model.
    pub settings: Option<AppSettings>,
    /// The events to announce, in order.
    pub events: Vec<ModelStateEvent>,
    /// The answer to the request.
    pub result: Result<(), String>,
}

/// The event announcing that `model_id`, named `name`, was selected.
pub open spec fn selection_event(model_id: Seq<char>, name: Seq<char>) -> ModelStateEventView {
    ModelStateEventView {
        event_type: "selection_changed"@,
        model_id: Some(model_id),
        model_name: Some(name),
        error: None,
    }
}

/// The event announcing that `model_id`, named `name`, is loaded.
pub open spec fn loaded_event(model_id: Seq<char>, name: Seq<char>) -> ModelStateEventView {
    ModelStateEventView {
        event_type: "loading_completed"@,
        model_id: Some(model_id),
        model_name: Some(name),
        error: None,
    }
}

/// The refusal of a request for any model but the hosted one.
pub fn check_model_choice(model_id: &str) -> (r: Result<(), String>)
    ensures
        model_id@ == "voxtral-mini-latest"@ ==> r is Ok,
        model_id@ != "voxtral-mini-latest"@ ==> (r matches Err(e) && e@ == "Only "@
            + "voxtral-mini-latest"@ + " is supported"@),
{
    if model_id.to_string() != settings::LOCKED_MISTRAL_TRANSCRIPTION_MODEL.to_string() {
        Err(
            "Only ".to_string().concat(settings::LOCKED_MISTRAL_TRANSCRIPTION_MODEL).concat(
                " is supported",
            ),
        )
    } else {
        Ok(())
    }
}

/// Makes `model_id` the active model: only the hosted model is accepted. The
/// selection is written to the settings, and the model, which must be in the
/// catalog, is loaded; the selection and the load are announced in that order.
pub fn switch_active_model(
    settings: AppSettings,
    models: &ModelManager,
    manager: &mut TranscriptionManager,
    model_id: &str,
) -> (r: ModelSwitch)
    ensures
        model_id@ != "voxtral-mini-latest"@ ==> r.settings is None && r.events@.len() == 0
            && (r.result matches Err(e) && e@ == "Only "@ + "voxtral-mini-latest"@ + " is supported"@)
            && final(manager).current() == old(manager).current(),
        model_id@ == "voxtral-mini-latest"@ ==> (r.settings matches Some(s) && s@ == (
        settings::AppSettingsView { selected_model: model_id@, ..settings@ })),
        model_id@ == "voxtral-mini-latest"@ && !models@.contains_key(model_id@) ==> r.events@.len()
            == 0 && (r.result matches Err(e) && e@ == "Model not found: "@ + model_id@)
            && final(manager).current() == old(manager).current(),
        model_id@ == "voxtral-mini-latest"@ && models@.contains_key(model_id@) ==> {
            &&& r.result is Ok
            &&& r.events@.len() == 2
            &&& r.events@[0]@ == selection_event(model_id@, models@[model_id@].name)
            &&& r.events@[1]@ == loaded_event(model_id@, models@[model_id@].name)
            &&& final(manager).current() == Some(model_id@)
        },
{
    let requested = model_id.to_string();
    let events: Vec<ModelStateEvent> = Vec::new();
    match check_model_choice(model_id) {
        Ok(()) => {},
        Err(e) => {
            return ModelSwitch { settings: None, events, result: Err(e) };
        },
    }
    let mut events = events;
    let settings = with_selected_model(settings, requested);
    let info = match models.get_model_info(model_id) {
        Some(info) => info,
        None => {
            return ModelSwitch {
                settings: Some(settings),
                events,
                result: Err("Model not found: ".to_string().concat(model_id)),
            };
        },
    };
    events.push(
        ModelStateEvent {
            event_type: "selection_changed".to_string(),
            model_id: Some(model_id.to_string()),
            model_name: Some(info.name),
            error: None,
        },
    );
    match manager.load_model(models, model_id) {
        Ok(loaded) => {
            events.push(loaded);
            ModelSwitch { settings: Some(settings), events, result: Ok(()) }
        },
        Err(e) => ModelSwitch { settings: Some(settings), events, result: Err(e) },
    }
}

} // verus!
