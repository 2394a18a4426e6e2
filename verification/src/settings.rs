//! Saved settings of the text-to-speech engine.
use vstd::prelude::*;

verus! {

/// Settings of the text-to-speech engine, kept locally in the application's
/// configuration folder. Paths of individual model files are not stored; they
/// follow from `models_dir` and the preset.
#[derive(Debug)]
pub struct TtsSettings {
    /// Folder of the engine builds: `<engine_dir>/<backend>/crispasr.exe`.
    pub engine_dir: String,
    /// Shared folder of the models, one sub-folder per preset.
    pub models_dir: String,
    /// Selected engine build (`cpu`, `cuda`, `vulkan`, ...).
    pub engine_backend: String,
    /// Selected preset.
    pub preset: String,
}

impl Default for TtsSettings {
    /// All fields empty: the user interface fills in its defaults.
    fn default() -> (r: Self)
        ensures
            r.engine_dir@ == Seq::<char>::empty(),
            r.models_dir@ == Seq::<char>::empty(),
            r.engine_backend@ == Seq::<char>::empty(),
            r.preset@ == Seq::<char>::empty(),
    {
        TtsSettings {
            engine_dir: String::new(),
            models_dir: String::new(),
            engine_backend: String::new(),
            preset: String::new(),
        }
    }
}

/// The name of the settings file in the configuration folder.
pub fn settings_file_name() -> (r: &'static str)
    ensures
        r@ == "tts_settings.json"@,
{
    "tts_settings.json"
}

} // verus!
