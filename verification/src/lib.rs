//! Verified core of a local speech toolkit: speech recognition decoding,
//! voice storage, text-to-speech engine management and push-to-talk input.
pub mod text;
pub mod hotkey;
pub mod stt;
pub mod paths;
pub mod voices;
pub mod timefmt;
pub mod release;
pub mod asr;
pub mod vocab;
pub mod vad;
pub mod mic;
pub mod clone;
pub mod presets;
pub mod tts_engine;
pub mod settings;
pub mod session;
pub mod logpath;
