//! Core logic of a push-to-talk transcription app: its settings model,
//! the transcription service client's request and retry rules, the
//! recording session state and the model catalog.

pub mod text;
pub mod mistral;
pub mod bindings;
pub mod settings;
pub mod models;
pub mod transcription;
pub mod recording;
pub mod logging;
pub mod startup;
