//! The text-to-speech presets: which model files each engine needs, where they
//! are downloaded from, and how voices are chosen for it.
use vstd::prelude::*;

use crate::paths::{path_join, spec_path_join};
use crate::text::{chars_eq, chars_of};

verus! {

/// A text-to-speech engine preset.
///
/// `voice_type` tells how a voice is chosen: `none` (fixed voice), `named`
/// (a speaker name from `builtin_voices`), `clone` (from a reference
/// recording) or `ggupack` (a voice pack downloaded with the model and loaded
/// at start-up). `supports_instruct` tells whether the engine takes a style
/// description.
pub struct TtsPreset {
    pub id: &'static str,
    pub label: &'static str,
    pub backend: &'static str,
    pub model_file: &'static str,
    pub model_url: &'static str,
    /// Codec model `(file, url)`, if the engine needs one.
    pub codec: Option<(&'static str, &'static str)>,
    /// Voice pack `(file, url)`, if the engine loads one at start-up.
    pub voice: Option<(&'static str, &'static str)>,
    /// Further `(file, url)` pairs the engine finds next to the model.
    pub extras: Vec<(&'static str, &'static str)>,
    pub voice_type: &'static str,
    pub builtin_voices: Vec<&'static str>,
    pub supports_instruct: bool,
}

/// The contents of a preset.
pub struct PresetView {
    pub id: Seq<char>,
    pub label: Seq<char>,
    pub backend: Seq<char>,
    pub model_file: Seq<char>,
    pub model_url: Seq<char>,
    pub codec: Option<(Seq<char>, Seq<char>)>,
    pub voice: Option<(Seq<char>, Seq<char>)>,
    pub extras: Seq<(Seq<char>, Seq<char>)>,
    pub voice_type: Seq<char>,
    pub builtin_voices: Seq<Seq<char>>,
    pub supports_instruct: bool,
}

pub open spec fn pair_view(p: Option<(&'static str, &'static str)>) -> Option<(Seq<char>, Seq<char>)> {
    match p {
        Some((a, b)) => Some((a@, b@)),
        None => None,
    }
}

impl View for TtsPreset {
    type V = PresetView;

    open spec fn view(&self) -> PresetView {
        PresetView {
            id: self.id@,
            label: self.label@,
            backend: self.backend@,
            model_file: self.model_file@,
            model_url: self.model_url@,
            codec: pair_view(self.codec),
            voice: pair_view(self.voice),
            extras: self.extras@.map_values(|e: (&'static str, &'static str)| (e.0@, e.1@)),
            voice_type: self.voice_type@,
            builtin_voices: self.builtin_voices@.map_values(|s: &'static str| s@),
            supports_instruct: self.supports_instruct,
        }
    }
}

/// The `qwen3-tts` preset.
pub open spec fn spec_preset_qwen3_tts() -> PresetView {
    PresetView {
        id: "qwen3-tts"@,
        label: "Qwen3-TTS 0.6B (базовый, RU, голос-пак)"@,
        backend: "qwen3-tts"@,
        model_file: "qwen3-tts-12hz-0.6b-base-q8_0.gguf"@,
        model_url: "https://huggingface.co/cstr/qwen3-tts-0.6b-base-GGUF/resolve/main/qwen3-tts-12hz-0.6b-base-q8_0.gguf"@,
        codec: Some(("qwen3-tts-tokenizer-12hz.gguf"@, "https://huggingface.co/cstr/qwen3-tts-tokenizer-12hz-GGUF/resolve/main/qwen3-tts-tokenizer-12hz.gguf"@)),
        voice: Some(("qwen3-tts-voice-default.gguf"@, "https://huggingface.co/cstr/qwen3-tts-voices-GGUF/resolve/main/qwen3-tts-voice-default.gguf"@)),
        extras: seq![],
        voice_type: "ggupack"@,
        builtin_voices: seq![],
        supports_instruct: false,
    }
}

fn preset_qwen3_tts() -> (p: TtsPreset)
    ensures
        p@ == spec_preset_qwen3_tts(),
{
    let p = TtsPreset {
        id: "qwen3-tts",
        label: "Qwen3-TTS 0.6B (базовый, RU, голос-пак)",
        backend: "qwen3-tts",
        model_file: "qwen3-tts-12hz-0.6b-base-q8_0.gguf",
        model_url: "https://huggingface.co/cstr/qwen3-tts-0.6b-base-GGUF/resolve/main/qwen3-tts-12hz-0.6b-base-q8_0.gguf",
        codec: Some(("qwen3-tts-tokenizer-12hz.gguf", "https://huggingface.co/cstr/qwen3-tts-tokenizer-12hz-GGUF/resolve/main/qwen3-tts-tokenizer-12hz.gguf")),
        voice: Some(("qwen3-tts-voice-default.gguf", "https://huggingface.co/cstr/qwen3-tts-voices-GGUF/resolve/main/qwen3-tts-voice-default.gguf")),
        extras: vec![],
        voice_type: "ggupack",
        builtin_voices: vec![],
        supports_instruct: false,
    };
    assert(p@.extras =~= spec_preset_qwen3_tts().extras);
    assert(p@.builtin_voices =~= spec_preset_qwen3_tts().builtin_voices);
    p
}

/// The `qwen3-tts-customvoice` preset.
pub open spec fn spec_preset_qwen3_tts_customvoice() -> PresetView {
    PresetView {
        id: "qwen3-tts-customvoice"@,
        label: "Qwen3-TTS 1.7B CustomVoice (инструкции по стилю, RU)"@,
        backend: "qwen3-tts-customvoice"@,
        model_file: "qwen3-tts-12hz-1.7b-customvoice-q8_0.gguf"@,
        model_url: "https://huggingface.co/cstr/qwen3-tts-1.7b-customvoice-GGUF/resolve/main/qwen3-tts-12hz-1.7b-customvoice-q8_0.gguf"@,
        codec: Some(("qwen3-tts-tokenizer-12hz.gguf"@, "https://huggingface.co/cstr/qwen3-tts-tokenizer-12hz-GGUF/resolve/main/qwen3-tts-tokenizer-12hz.gguf"@)),
        voice: None,
        extras: seq![],
        voice_type: "named"@,
        builtin_voices: seq!["vivian"@, "ryan"@, "emma"@, "noah"@, "olivia"@, "liam"@, "sophia"@, "lucas"@, "mia"@],
        supports_instruct: true,
    }
}

fn preset_qwen3_tts_customvoice() -> (p: TtsPreset)
    ensures
        p@ == spec_preset_qwen3_tts_customvoice(),
{
    let p = TtsPreset {
        id: "qwen3-tts-customvoice",
        label: "Qwen3-TTS 1.7B CustomVoice (инструкции по стилю, RU)",
        backend: "qwen3-tts-customvoice",
        model_file: "qwen3-tts-12hz-1.7b-customvoice-q8_0.gguf",
        model_url: "https://huggingface.co/cstr/qwen3-tts-1.7b-customvoice-GGUF/resolve/main/qwen3-tts-12hz-1.7b-customvoice-q8_0.gguf",
        codec: Some(("qwen3-tts-tokenizer-12hz.gguf", "https://huggingface.co/cstr/qwen3-tts-tokenizer-12hz-GGUF/resolve/main/qwen3-tts-tokenizer-12hz.gguf")),
        voice: None,
        extras: vec![],
        voice_type: "named",
        builtin_voices: vec!["vivian", "ryan", "emma", "noah", "olivia", "liam", "sophia", "lucas", "mia"],
        supports_instruct: true,
    };
    assert(p@.extras =~= spec_preset_qwen3_tts_customvoice().extras);
    assert(p@.builtin_voices =~= spec_preset_qwen3_tts_customvoice().builtin_voices);
    p
}

/// The `parler-tts` preset.
pub open spec fn spec_preset_parler_tts() -> PresetView {
    PresetView {
        id: "parler-tts"@,
        label: "Parler-TTS Mini 1.1 (описание голоса словами, EN)"@,
        backend: "parler-tts"@,
        model_file: "parler-tts-mini-v1.1-q8_0.gguf"@,
        model_url: "https://huggingface.co/cstr/parler-tts-mini-v1.1-GGUF/resolve/main/parler-tts-mini-v1.1-q8_0.gguf"@,
        codec: None,
        voice: None,
        extras: seq![],
        voice_type: "none"@,
        builtin_voices: seq![],
        supports_instruct: true,
    }
}

fn preset_parler_tts() -> (p: TtsPreset)
    ensures
        p@ == spec_preset_parler_tts(),
{
    let p = TtsPreset {
        id: "parler-tts",
        label: "Parler-TTS Mini 1.1 (описание голоса словами, EN)",
        backend: "parler-tts",
        model_file: "parler-tts-mini-v1.1-q8_0.gguf",
        model_url: "https://huggingface.co/cstr/parler-tts-mini-v1.1-GGUF/resolve/main/parler-tts-mini-v1.1-q8_0.gguf",
        codec: None,
        voice: None,
        extras: vec![],
        voice_type: "none",
        builtin_voices: vec![],
        supports_instruct: true,
    };
    assert(p@.extras =~= spec_preset_parler_tts().extras);
    assert(p@.builtin_voices =~= spec_preset_parler_tts().builtin_voices);
    p
}

/// The `irodori-tts` preset.
pub open spec fn spec_preset_irodori_tts() -> PresetView {
    PresetView {
        id: "irodori-tts"@,
        label: "Irodori-TTS 500M v3 (клонирование WAV + эмоции, JA)"@,
        backend: "irodori-tts"@,
        model_file: "irodori-tts-500m-v3-q8_0.gguf"@,
        model_url: "https://huggingface.co/cstr/irodori-tts-GGUF/resolve/main/irodori-tts-500m-v3-q8_0.gguf"@,
        codec: Some(("dacvae-ja-32dim-f16.gguf"@, "https://huggingface.co/cstr/irodori-tts-GGUF/resolve/main/dacvae-ja-32dim-f16.gguf"@)),
        voice: None,
        extras: seq![],
        voice_type: "clone"@,
        builtin_voices: seq![],
        supports_instruct: true,
    }
}

fn preset_irodori_tts() -> (p: TtsPreset)
    ensures
        p@ == spec_preset_irodori_tts(),
{
    let p = TtsPreset {
        id: "irodori-tts",
        label: "Irodori-TTS 500M v3 (клонирование WAV + эмоции, JA)",
        backend: "irodori-tts",
        model_file: "irodori-tts-500m-v3-q8_0.gguf",
        model_url: "https://huggingface.co/cstr/irodori-tts-GGUF/resolve/main/irodori-tts-500m-v3-q8_0.gguf",
        codec: Some(("dacvae-ja-32dim-f16.gguf", "https://huggingface.co/cstr/irodori-tts-GGUF/resolve/main/dacvae-ja-32dim-f16.gguf")),
        voice: None,
        extras: vec![],
        voice_type: "clone",
        builtin_voices: vec![],
        supports_instruct: true,
    };
    assert(p@.extras =~= spec_preset_irodori_tts().extras);
    assert(p@.builtin_voices =~= spec_preset_irodori_tts().builtin_voices);
    p
}

/// The `kokoro` preset.
pub open spec fn spec_preset_kokoro() -> PresetView {
    PresetView {
        id: "kokoro"@,
        label: "Kokoro 82M (быстрый, мультиязычный)"@,
        backend: "kokoro"@,
        model_file: "kokoro-82m-q8_0.gguf"@,
        model_url: "https://huggingface.co/cstr/kokoro-82m-GGUF/resolve/main/kokoro-82m-q8_0.gguf"@,
        codec: None,
        voice: Some(("kokoro-voice-af_heart.gguf"@, "https://huggingface.co/cstr/kokoro-voices-GGUF/resolve/main/kokoro-voice-af_heart.gguf"@)),
        extras: seq![],
        voice_type: "ggupack"@,
        builtin_voices: seq!["af_heart"@, "af_alloy"@, "af_aoede"@, "af_bella"@, "af_jessica"@, "af_kore"@, "af_nicole"@, "af_nova"@, "af_river"@, "af_sarah"@, "af_sky"@, "am_adam"@, "am_echo"@, "am_eric"@, "am_fenrir"@, "am_liam"@, "am_michael"@, "am_onyx"@, "am_puck"@, "am_santa"@, "bf_alice"@, "bf_emma"@, "bf_isabella"@, "bf_lily"@, "bm_daniel"@, "bm_fred"@, "bm_george"@, "bm_leo"@],
        supports_instruct: false,
    }
}

fn preset_kokoro() -> (p: TtsPreset)
    ensures
        p@ == spec_preset_kokoro(),
{
    let p = TtsPreset {
        id: "kokoro",
        label: "Kokoro 82M (быстрый, мультиязычный)",
        backend: "kokoro",
        model_file: "kokoro-82m-q8_0.gguf",
        model_url: "https://huggingface.co/cstr/kokoro-82m-GGUF/resolve/main/kokoro-82m-q8_0.gguf",
        codec: None,
        voice: Some(("kokoro-voice-af_heart.gguf", "https://huggingface.co/cstr/kokoro-voices-GGUF/resolve/main/kokoro-voice-af_heart.gguf")),
        extras: vec![],
        voice_type: "ggupack",
        builtin_voices: vec!["af_heart", "af_alloy", "af_aoede", "af_bella", "af_jessica", "af_kore", "af_nicole", "af_nova", "af_river", "af_sarah", "af_sky", "am_adam", "am_echo", "am_eric", "am_fenrir", "am_liam", "am_michael", "am_onyx", "am_puck", "am_santa", "bf_alice", "bf_emma", "bf_isabella", "bf_lily", "bm_daniel", "bm_fred", "bm_george", "bm_leo"],
        supports_instruct: false,
    };
    assert(p@.extras =~= spec_preset_kokoro().extras);
    assert(p@.builtin_voices =~= spec_preset_kokoro().builtin_voices);
    p
}

/// The `bark` preset.
pub open spec fn spec_preset_bark() -> PresetView {
    PresetView {
        id: "bark"@,
        label: "Bark-small (мультиязычный, маркеры спикера)"@,
        backend: "bark"@,
        model_file: "bark-small-q8_0.gguf"@,
        model_url: "https://huggingface.co/cstr/bark-small-GGUF/resolve/main/bark-small-q8_0.gguf"@,
        codec: None,
        voice: None,
        extras: seq![],
        voice_type: "none"@,
        builtin_voices: seq![],
        supports_instruct: false,
    }
}

fn preset_bark() -> (p: TtsPreset)
    ensures
        p@ == spec_preset_bark(),
{
    let p = TtsPreset {
        id: "bark",
        label: "Bark-small (мультиязычный, маркеры спикера)",
        backend: "bark",
        model_file: "bark-small-q8_0.gguf",
        model_url: "https://huggingface.co/cstr/bark-small-GGUF/resolve/main/bark-small-q8_0.gguf",
        codec: None,
        voice: None,
        extras: vec![],
        voice_type: "none",
        builtin_voices: vec![],
        supports_instruct: false,
    };
    assert(p@.extras =~= spec_preset_bark().extras);
    assert(p@.builtin_voices =~= spec_preset_bark().builtin_voices);
    p
}

/// The `zonos` preset.
pub open spec fn spec_preset_zonos() -> PresetView {
    PresetView {
        id: "zonos"@,
        label: "Zonos v0.1 (2B, клонирование голоса, 44.1 kHz)"@,
        backend: "zonos"@,
        model_file: "zonos-v0.1-transformer-q8_0.gguf"@,
        model_url: "https://huggingface.co/cstr/zonos-v0.1-transformer-GGUF/resolve/main/zonos-v0.1-transformer-q8_0.gguf"@,
        codec: Some(("dac-44khz-f16.gguf"@, "https://huggingface.co/cstr/dac-44khz-GGUF/resolve/main/dac-44khz-f16.gguf"@)),
        voice: None,
        extras: seq![],
        voice_type: "clone"@,
        builtin_voices: seq![],
        supports_instruct: false,
    }
}

fn preset_zonos() -> (p: TtsPreset)
    ensures
        p@ == spec_preset_zonos(),
{
    let p = TtsPreset {
        id: "zonos",
        label: "Zonos v0.1 (2B, клонирование голоса, 44.1 kHz)",
        backend: "zonos",
        model_file: "zonos-v0.1-transformer-q8_0.gguf",
        model_url: "https://huggingface.co/cstr/zonos-v0.1-transformer-GGUF/resolve/main/zonos-v0.1-transformer-q8_0.gguf",
        codec: Some(("dac-44khz-f16.gguf", "https://huggingface.co/cstr/dac-44khz-GGUF/resolve/main/dac-44khz-f16.gguf")),
        voice: None,
        extras: vec![],
        voice_type: "clone",
        builtin_voices: vec![],
        supports_instruct: false,
    };
    assert(p@.extras =~= spec_preset_zonos().extras);
    assert(p@.builtin_voices =~= spec_preset_zonos().builtin_voices);
    p
}

/// The `chatterbox` preset.
pub open spec fn spec_preset_chatterbox() -> PresetView {
    PresetView {
        id: "chatterbox"@,
        label: "Chatterbox v3 (клонирование голоса, 23 языка)"@,
        backend: "chatterbox"@,
        model_file: "chatterbox-v3-t3-q8_0.gguf"@,
        model_url: "https://huggingface.co/cstr/chatterbox-GGUF/resolve/main/chatterbox-v3-t3-q8_0.gguf"@,
        codec: Some(("chatterbox-v3-s3gen-q8_0.gguf"@, "https://huggingface.co/cstr/chatterbox-GGUF/resolve/main/chatterbox-v3-s3gen-q8_0.gguf"@)),
        voice: None,
        extras: seq![],
        voice_type: "clone"@,
        builtin_voices: seq![],
        supports_instruct: false,
    }
}

fn preset_chatterbox() -> (p: TtsPreset)
    ensures
        p@ == spec_preset_chatterbox(),
{
    let p = TtsPreset {
        id: "chatterbox",
        label: "Chatterbox v3 (клонирование голоса, 23 языка)",
        backend: "chatterbox",
        model_file: "chatterbox-v3-t3-q8_0.gguf",
        model_url: "https://huggingface.co/cstr/chatterbox-GGUF/resolve/main/chatterbox-v3-t3-q8_0.gguf",
        codec: Some(("chatterbox-v3-s3gen-q8_0.gguf", "https://huggingface.co/cstr/chatterbox-GGUF/resolve/main/chatterbox-v3-s3gen-q8_0.gguf")),
        voice: None,
        extras: vec![],
        voice_type: "clone",
        builtin_voices: vec![],
        supports_instruct: false,
    };
    assert(p@.extras =~= spec_preset_chatterbox().extras);
    assert(p@.builtin_voices =~= spec_preset_chatterbox().builtin_voices);
    p
}

/// The `vibevoice-tts` preset.
pub open spec fn spec_preset_vibevoice_tts() -> PresetView {
    PresetView {
        id: "vibevoice-tts"@,
        label: "VibeVoice-Realtime 0.5B (быстрый, en/zh)"@,
        backend: "vibevoice-tts"@,
        model_file: "vibevoice-realtime-0.5b-q4_k.gguf"@,
        model_url: "https://huggingface.co/cstr/vibevoice-realtime-0.5b-GGUF/resolve/main/vibevoice-realtime-0.5b-q4_k.gguf"@,
        codec: None,
        voice: Some(("vibevoice-voice-emma.gguf"@, "https://huggingface.co/cstr/vibevoice-realtime-0.5b-GGUF/resolve/main/vibevoice-voice-emma.gguf"@)),
        extras: seq![],
        voice_type: "ggupack"@,
        builtin_voices: seq![],
        supports_instruct: false,
    }
}

fn preset_vibevoice_tts() -> (p: TtsPreset)
    ensures
        p@ == spec_preset_vibevoice_tts(),
{
    let p = TtsPreset {
        id: "vibevoice-tts",
        label: "VibeVoice-Realtime 0.5B (быстрый, en/zh)",
        backend: "vibevoice-tts",
        model_file: "vibevoice-realtime-0.5b-q4_k.gguf",
        model_url: "https://huggingface.co/cstr/vibevoice-realtime-0.5b-GGUF/resolve/main/vibevoice-realtime-0.5b-q4_k.gguf",
        codec: None,
        voice: Some(("vibevoice-voice-emma.gguf", "https://huggingface.co/cstr/vibevoice-realtime-0.5b-GGUF/resolve/main/vibevoice-voice-emma.gguf")),
        extras: vec![],
        voice_type: "ggupack",
        builtin_voices: vec![],
        supports_instruct: false,
    };
    assert(p@.extras =~= spec_preset_vibevoice_tts().extras);
    assert(p@.builtin_voices =~= spec_preset_vibevoice_tts().builtin_voices);
    p
}

/// The `cosyvoice3-tts` preset.
pub open spec fn spec_preset_cosyvoice3_tts() -> PresetView {
    PresetView {
        id: "cosyvoice3-tts"@,
        label: "CosyVoice3 0.5B (клонирование WAV, 9 яз.)"@,
        backend: "cosyvoice3-tts"@,
        model_file: "cosyvoice3-llm-q4_k.gguf"@,
        model_url: "https://huggingface.co/cstr/cosyvoice3-0.5b-2512-GGUF/resolve/main/cosyvoice3-llm-q4_k.gguf"@,
        codec: Some(("cosyvoice3-flow-q8_0.gguf"@, "https://huggingface.co/cstr/cosyvoice3-0.5b-2512-GGUF/resolve/main/cosyvoice3-flow-q8_0.gguf"@)),
        voice: None,
        extras: seq![("cosyvoice3-campplus-f16.gguf"@, "https://huggingface.co/cstr/cosyvoice3-0.5b-2512-GGUF/resolve/main/cosyvoice3-campplus-f16.gguf"@), ("cosyvoice3-s3tok-f16.gguf"@, "https://huggingface.co/cstr/cosyvoice3-0.5b-2512-GGUF/resolve/main/cosyvoice3-s3tok-f16.gguf"@), ("cosyvoice3-hift-f16.gguf"@, "https://huggingface.co/cstr/cosyvoice3-0.5b-2512-GGUF/resolve/main/cosyvoice3-hift-f16.gguf"@), ("cosyvoice3-voices.gguf"@, "https://huggingface.co/cstr/cosyvoice3-0.5b-2512-GGUF/resolve/main/cosyvoice3-voices.gguf"@)],
        voice_type: "named"@,
        builtin_voices: seq!["zero_shot"@, "fleurs-en"@, "fleurs-de"@, "fleurs-zh"@, "fleurs-ja"@, "fleurs-fr"@, "fleurs-es"@, "fleurs-ko"@],
        supports_instruct: false,
    }
}

fn preset_cosyvoice3_tts() -> (p: TtsPreset)
    ensures
        p@ == spec_preset_cosyvoice3_tts(),
{
    let p = TtsPreset {
        id: "cosyvoice3-tts",
        label: "CosyVoice3 0.5B (клонирование WAV, 9 яз.)",
        backend: "cosyvoice3-tts",
        model_file: "cosyvoice3-llm-q4_k.gguf",
        model_url: "https://huggingface.co/cstr/cosyvoice3-0.5b-2512-GGUF/resolve/main/cosyvoice3-llm-q4_k.gguf",
        codec: Some(("cosyvoice3-flow-q8_0.gguf", "https://huggingface.co/cstr/cosyvoice3-0.5b-2512-GGUF/resolve/main/cosyvoice3-flow-q8_0.gguf")),
        voice: None,
        extras: vec![("cosyvoice3-campplus-f16.gguf", "https://huggingface.co/cstr/cosyvoice3-0.5b-2512-GGUF/resolve/main/cosyvoice3-campplus-f16.gguf"), ("cosyvoice3-s3tok-f16.gguf", "https://huggingface.co/cstr/cosyvoice3-0.5b-2512-GGUF/resolve/main/cosyvoice3-s3tok-f16.gguf"), ("cosyvoice3-hift-f16.gguf", "https://huggingface.co/cstr/cosyvoice3-0.5b-2512-GGUF/resolve/main/cosyvoice3-hift-f16.gguf"), ("cosyvoice3-voices.gguf", "https://huggingface.co/cstr/cosyvoice3-0.5b-2512-GGUF/resolve/main/cosyvoice3-voices.gguf")],
        voice_type: "named",
        builtin_voices: vec!["zero_shot", "fleurs-en", "fleurs-de", "fleurs-zh", "fleurs-ja", "fleurs-fr", "fleurs-es", "fleurs-ko"],
        supports_instruct: false,
    };
    assert(p@.extras =~= spec_preset_cosyvoice3_tts().extras);
    assert(p@.builtin_voices =~= spec_preset_cosyvoice3_tts().builtin_voices);
    p
}

/// The `voxcpm2-tts` preset.
pub open spec fn spec_preset_voxcpm2_tts() -> PresetView {
    PresetView {
        id: "voxcpm2-tts"@,
        label: "VoxCPM2 (2B, клонирование WAV, 48 kHz)"@,
        backend: "voxcpm2-tts"@,
        model_file: "voxcpm2-q4_k.gguf"@,
        model_url: "https://huggingface.co/cstr/voxcpm2-GGUF/resolve/main/voxcpm2-q4_k.gguf"@,
        codec: None,
        voice: None,
        extras: seq![],
        voice_type: "none"@,
        builtin_voices: seq![],
        supports_instruct: false,
    }
}

fn preset_voxcpm2_tts() -> (p: TtsPreset)
    ensures
        p@ == spec_preset_voxcpm2_tts(),
{
    let p = TtsPreset {
        id: "voxcpm2-tts",
        label: "VoxCPM2 (2B, клонирование WAV, 48 kHz)",
        backend: "voxcpm2-tts",
        model_file: "voxcpm2-q4_k.gguf",
        model_url: "https://huggingface.co/cstr/voxcpm2-GGUF/resolve/main/voxcpm2-q4_k.gguf",
        codec: None,
        voice: None,
        extras: vec![],
        voice_type: "none",
        builtin_voices: vec![],
        supports_instruct: false,
    };
    assert(p@.extras =~= spec_preset_voxcpm2_tts().extras);
    assert(p@.builtin_voices =~= spec_preset_voxcpm2_tts().builtin_voices);
    p
}

/// The engine presets, in the order they are offered.
pub open spec fn preset_table() -> Seq<PresetView> {
    seq![spec_preset_qwen3_tts(), spec_preset_qwen3_tts_customvoice(), spec_preset_parler_tts(), spec_preset_irodori_tts(), spec_preset_kokoro(), spec_preset_bark(), spec_preset_zonos(), spec_preset_chatterbox(), spec_preset_vibevoice_tts(), spec_preset_cosyvoice3_tts(), spec_preset_voxcpm2_tts()]
}

/// The engine presets, in the order they are offered.
pub fn presets() -> (r: Vec<TtsPreset>)
    ensures
        r@.map_values(|p: TtsPreset| p@) == preset_table(),
{
    let mut v: Vec<TtsPreset> = Vec::new();
    v.push(preset_qwen3_tts());
    v.push(preset_qwen3_tts_customvoice());
    v.push(preset_parler_tts());
    v.push(preset_irodori_tts());
    v.push(preset_kokoro());
    v.push(preset_bark());
    v.push(preset_zonos());
    v.push(preset_chatterbox());
    v.push(preset_vibevoice_tts());
    v.push(preset_cosyvoice3_tts());
    v.push(preset_voxcpm2_tts());
    assert(v@.map_values(|p: TtsPreset| p@) =~= preset_table());
    v
}

/// The preset with the given id: the first in the table that has it.
pub open spec fn is_first_with_id(table: Seq<PresetView>, i: int, id: Seq<char>) -> bool {
    0 <= i < table.len() && table[i].id == id && forall|j: int| 0 <= j < i ==> (#[trigger] table[j]).id != id
}

/// The preset with the given id, if there is one.
pub fn preset_by_id(id: &str) -> (r: Option<TtsPreset>)
    ensures
        match r {
            Some(p) => exists|i: int| is_first_with_id(preset_table(), i, id@) && p@ == preset_table()[i],
            None => forall|i: int| 0 <= i < preset_table().len() ==> (#[trigger] preset_table()[i]).id != id@,
        },
{
    let mut table = presets();
    let ghost t = preset_table();
    let want = chars_of(id);
    let mut i: usize = 0;
    while i < table.len()
        invariant
            i <= table@.len(),
            table@.map_values(|p: TtsPreset| p@) == t,
            t == preset_table(),
            want@ == id@,
            forall|j: int| 0 <= j < i ==> (#[trigger] t[j]).id != id@,
        decreases table.len() - i,
    {
        let same = chars_eq(&chars_of(table[i].id), &want);
        proof {
            assert(t[i as int] == table@[i as int]@);
        }
        if same {
            let p = table.remove(i);
            proof {
                assert(is_first_with_id(t, i as int, id@));
            }
            return Some(p);
        }
        i += 1;
    }
    None
}

/// The engine backend of a preset, if the preset exists.
pub fn preset_backend(id: &str) -> (r: Option<&'static str>)
    ensures
        match r {
            Some(b) => exists|i: int| is_first_with_id(preset_table(), i, id@) && b@ == preset_table()[i].backend,
            None => forall|i: int| 0 <= i < preset_table().len() ==> (#[trigger] preset_table()[i]).id != id@,
        },
{
    match preset_by_id(id) {
        Some(p) => Some(p.backend),
        None => None,
    }
}

/// Which files of a preset are installed.
#[derive(Debug, Clone, Copy, PartialEq, Eq, Structural)]
pub struct InstallStatus {
    pub installed: bool,
    pub has_model: bool,
    pub has_codec: bool,
    pub has_voice: bool,
}

/// The install status of a preset from the existence of its files:
/// `codec_exists`/`voice_exists` are `None` when the preset has no such file,
/// which counts as present. A preset is installed when its model, codec and
/// voice pack are there.
pub fn install_status(model_exists: bool, codec_exists: Option<bool>, voice_exists: Option<bool>) -> (r:
    InstallStatus)
    ensures
        r.has_model == model_exists,
        r.has_codec == (codec_exists != Some(false)),
        r.has_voice == (voice_exists != Some(false)),
        r.installed == (r.has_model && r.has_codec && r.has_voice),
{
    let has_codec = match codec_exists {
        Some(b) => b,
        None => true,
    };
    let has_voice = match voice_exists {
        Some(b) => b,
        None => true,
    };
    InstallStatus {
        installed: model_exists && has_codec && has_voice,
        has_model: model_exists,
        has_codec,
        has_voice,
    }
}

/// One file to download: where it goes and where it comes from.
pub struct DownloadItem {
    pub dest: String,
    pub url: &'static str,
}

/// The files of a preset in download order: model, codec, voice pack, extras.
pub open spec fn download_files(p: PresetView) -> Seq<(Seq<char>, Seq<char>)> {
    seq![(p.model_file, p.model_url)] + match p.codec {
        Some(c) => seq![c],
        None => Seq::empty(),
    } + match p.voice {
        Some(v) => seq![v],
        None => Seq::empty(),
    } + p.extras
}

/// The downloads of a preset into `dest` (the preset's own folder), in order:
/// the model, the codec, the voice pack, then the extra files.
pub fn download_plan(p: &TtsPreset, dest: &str) -> (r: Vec<DownloadItem>)
    ensures
        r@.len() == download_files(p@).len(),
        forall|i: int|
            0 <= i < r@.len() ==> (#[trigger] r@[i]).dest@ == spec_path_join(dest@, download_files(p@)[i].0)
                && r@[i].url@ == download_files(p@)[i].1,
{
    let ghost files = download_files(p@);
    let mut out: Vec<DownloadItem> = Vec::new();
    out.push(DownloadItem { dest: path_join(dest, p.model_file), url: p.model_url });
    match p.codec {
        Some((f, u)) => out.push(DownloadItem { dest: path_join(dest, f), url: u }),
        None => {},
    }
    match p.voice {
        Some((f, u)) => out.push(DownloadItem { dest: path_join(dest, f), url: u }),
        None => {},
    }
    let ghost head = out@;
    let ghost n = head.len();
    proof {
        assert(n + p@.extras.len() == files.len());
        assert forall|i: int| 0 <= i < n implies (#[trigger] out@[i]).dest@ == spec_path_join(dest@, files[i].0)
            && out@[i].url@ == files[i].1 by {}
    }
    let mut k: usize = 0;
    while k < p.extras.len()
        invariant
            k <= p.extras@.len(),
            out@.len() == n + k,
            n + p@.extras.len() == files.len(),
            files == download_files(p@),
            forall|i: int| 0 <= i < n + k ==> (#[trigger] out@[i]).dest@ == spec_path_join(dest@, files[i].0)
                && out@[i].url@ == files[i].1,
        decreases p.extras.len() - k,
    {
        let (f, u) = p.extras[k];
        proof {
            assert(files[n + k] == p@.extras[k as int]);
        }
        out.push(DownloadItem { dest: path_join(dest, f), url: u });
        k += 1;
    }
    out
}

/// The preset to download, or the error for an unknown id.
pub fn preset_for_download(id: &str) -> (r: Result<TtsPreset, String>)
    ensures
        match r {
            Ok(p) => exists|i: int| is_first_with_id(preset_table(), i, id@) && p@ == preset_table()[i],
            Err(e) => (forall|i: int| 0 <= i < preset_table().len() ==> (#[trigger] preset_table()[i]).id != id@)
                && e@ == "неизвестный пресет TTS: "@ + id@,
        },
{
    match preset_by_id(id) {
        Some(p) => Ok(p),
        None => {
            let mut msg = crate::text::chars_of("неизвестный пресет TTS: ");
            crate::text::append_str(&mut msg, id);
            Err(crate::text::string_of(&msg))
        },
    }
}

/// The paths a preset download reports: the model, and the codec and voice
/// pack or empty texts when the preset has none.
pub struct DownloadedPaths {
    pub model: String,
    pub codec: String,
    pub voice: String,
}

/// The paths a download of preset `p` into `dest` reports.
pub fn downloaded_paths(p: &TtsPreset, dest: &str) -> (r: DownloadedPaths)
    ensures
        r.model@ == spec_path_join(dest@, p@.model_file),
        r.codec@ == match p@.codec {
            Some((f, _)) => spec_path_join(dest@, f),
            None => Seq::<char>::empty(),
        },
        r.voice@ == match p@.voice {
            Some((f, _)) => spec_path_join(dest@, f),
            None => Seq::<char>::empty(),
        },
{
    DownloadedPaths {
        model: path_join(dest, p.model_file),
        codec: match p.codec {
            Some((f, _)) => path_join(dest, f),
            None => String::new(),
        },
        voice: match p.voice {
            Some((f, _)) => path_join(dest, f),
            None => String::new(),
        },
    }
}

/// The folder a preset is downloaded into: `<dest_dir>/<preset_id>`.
pub fn preset_download_dir(dest_dir: &str, preset_id: &str) -> (r: String)
    ensures
        r@ == spec_path_join(dest_dir@, preset_id@),
{
    path_join(dest_dir, preset_id)
}

} // verus!
