//! Decisions of the text-to-speech engine manager: checking what a start
//! needs, whether a running engine can be reused, how the engine server is
//! started, and what a speech request holds. Processes and HTTP are handled
//! by the caller.
use vstd::prelude::*;

use crate::paths::{dir_or_default, dir_or_default_exec, path_join, spec_path_join};
use crate::presets::{is_first_with_id, preset_by_id, preset_table, TtsPreset};
use crate::text::{append_chars, append_str, chars_eq, chars_of, decimal, decimal_chars, string_of};

verus! {

/// What a running engine server has loaded.
#[derive(Debug)]
pub struct LoadedEngine {
    pub port: u16,
    pub model: String,
    pub codec: String,
    pub voice: String,
    pub backend: String,
}

impl LoadedEngine {
    /// Nothing loaded, no server.
    pub fn empty() -> (r: Self)
        ensures
            r.port == 0,
            r.model@ == Seq::<char>::empty(),
            r.codec@ == Seq::<char>::empty(),
            r.voice@ == Seq::<char>::empty(),
            r.backend@ == Seq::<char>::empty(),
    {
        LoadedEngine {
            port: 0,
            model: String::new(),
            codec: String::new(),
            voice: String::new(),
            backend: String::new(),
        }
    }

    /// Whether the server holds exactly this model, codec, voice pack and
    /// backend, so that it can be reused.
    pub fn same_model(&self, model: &str, codec: &str, voice: &str, backend: &str) -> (r: bool)
        ensures
            r == (self.model@ == model@ && self.codec@ == codec@ && self.voice@ == voice@
                && self.backend@ == backend@),
    {
        chars_eq(&chars_of(self.model.as_str()), &chars_of(model)) && chars_eq(
            &chars_of(self.codec.as_str()),
            &chars_of(codec),
        ) && chars_eq(&chars_of(self.voice.as_str()), &chars_of(voice)) && chars_eq(
            &chars_of(self.backend.as_str()),
            &chars_of(backend),
        )
    }
}

/// The preset for an engine start, after the first checks: an engine path
/// must be set and the preset must exist.
pub fn ensure_preset(engine_exe: &str, preset_id: &str) -> (r: Result<TtsPreset, String>)
    ensures
        engine_exe@.len() == 0 ==> (r matches Err(e) && e@
            == "не указан путь к движку crispasr.exe (откройте Настройки → ТТС)"@),
        engine_exe@.len() > 0 ==> match r {
            Ok(p) => exists|i: int| is_first_with_id(preset_table(), i, preset_id@) && p@ == preset_table()[i],
            Err(e) => (forall|i: int| 0 <= i < preset_table().len() ==> (#[trigger] preset_table()[i]).id != preset_id@)
                && e@ == "неизвестный пресет TTS: "@ + preset_id@,
        },
{
    if engine_exe.unicode_len() == 0 {
        return Err(String::from_str("не указан путь к движку crispasr.exe (откройте Настройки → ТТС)"));
    }
    match preset_by_id(preset_id) {
        Some(p) => Ok(p),
        None => {
            let mut msg = chars_of("неизвестный пресет TTS: ");
            append_str(&mut msg, preset_id);
            Err(string_of(&msg))
        },
    }
}

/// The files of a preset in its folder `<models_dir>/<preset id>`: the model
/// and, if the preset has them, the codec and the voice pack.
pub struct PresetFiles {
    pub model: String,
    pub codec: Option<String>,
    pub voice: Option<String>,
}

/// The folder of a preset: `<models_dir>/<preset_id>`, where an empty
/// `models_dir` means `default_models_dir`.
pub open spec fn spec_preset_dir(models_dir: Seq<char>, default_models_dir: Seq<char>, preset_id: Seq<char>) -> Seq<char> {
    spec_path_join(dir_or_default(models_dir, default_models_dir), preset_id)
}

/// Where the model and codec of a preset are expected.
pub fn preset_files(models_dir: &str, default_models_dir: &str, preset: &TtsPreset) -> (r: PresetFiles)
    ensures
        r.model@ == spec_path_join(spec_preset_dir(models_dir@, default_models_dir@, preset@.id), preset@.model_file),
        match preset@.codec {
            Some((f, _)) => r.codec matches Some(c) && c@ == spec_path_join(spec_preset_dir(models_dir@, default_models_dir@, preset@.id), f),
            None => r.codec is None,
        },
        match preset@.voice {
            Some((f, _)) => r.voice matches Some(c) && c@ == spec_path_join(spec_preset_dir(models_dir@, default_models_dir@, preset@.id), f),
            None => r.voice is None,
        },
{
    let base = dir_or_default_exec(models_dir, default_models_dir);
    let folder = path_join(base.as_str(), preset.id);
    let model = path_join(folder.as_str(), preset.model_file);
    let codec = match preset.codec {
        Some((f, _)) => Some(path_join(folder.as_str(), f)),
        None => None,
    };
    let voice = match preset.voice {
        Some((f, _)) => Some(path_join(folder.as_str(), f)),
        None => None,
    };
    PresetFiles { model, codec, voice }
}

/// What an engine start loads, once the files are known to exist.
pub struct StartFiles {
    pub model: String,
    /// The codec path, or empty.
    pub codec: String,
    /// The voice pack loaded at start-up, or empty.
    pub voice: String,
}

/// Checks that the files of an engine start exist, in order: model, codec
/// (if any), start-up voice pack (if given).
pub fn check_start_files(
    files: PresetFiles,
    model_exists: bool,
    codec_exists: bool,
    startup_voice: &str,
    voice_exists: bool,
) -> (r: Result<StartFiles, String>)
    ensures
        !model_exists ==> (r matches Err(e) && e@ == "модель не найдена: "@ + files.model@
            + " (скачайте пресет в Настройках)"@),
        model_exists && files.codec is Some && !codec_exists ==> (r matches Err(e) && e@
            == "codec-модель не найдена: "@ + files.codec->0@),
        model_exists && (files.codec is None || codec_exists) && startup_voice@.len() > 0
            && !voice_exists ==> (r matches Err(e) && e@ == "файл голоса не найден: "@ + startup_voice@),
        model_exists && (files.codec is None || codec_exists) && (startup_voice@.len() == 0
            || voice_exists) ==> (r matches Ok(s) && s.model@ == files.model@ && s.codec@ == match files.codec {
            Some(c) => c@,
            None => Seq::<char>::empty(),
        } && s.voice@ == startup_voice@),
{
    if !model_exists {
        let mut msg = chars_of("модель не найдена: ");
        append_str(&mut msg, files.model.as_str());
        append_str(&mut msg, " (скачайте пресет в Настройках)");
        return Err(string_of(&msg));
    }
    let codec = match files.codec {
        Some(c) => {
            if !codec_exists {
                let mut msg = chars_of("codec-модель не найдена: ");
                append_str(&mut msg, c.as_str());
                return Err(string_of(&msg));
            }
            c
        },
        None => String::new(),
    };
    if startup_voice.unicode_len() > 0 && !voice_exists {
        let mut msg = chars_of("файл голоса не найден: ");
        append_str(&mut msg, startup_voice);
        return Err(string_of(&msg));
    }
    Ok(StartFiles { model: files.model, codec, voice: String::from_str(startup_voice) })
}

/// What to do with the engine server for a start request.
#[derive(Debug, Clone, Copy, PartialEq, Eq, Structural)]
pub enum EngineAction {
    /// The running server already holds this configuration.
    Reuse,
    /// Start a server, after stopping the running one when `stop_first`.
    Start { stop_first: bool },
}

/// Reuse a running server with the same configuration; otherwise stop a
/// running one and start anew.
pub fn engine_action(running: bool, loaded: &LoadedEngine, files: &StartFiles, backend: &str) -> (r: EngineAction)
    ensures
        r == if running && loaded.model@ == files.model@ && loaded.codec@ == files.codec@
            && loaded.voice@ == files.voice@ && loaded.backend@ == backend@ {
            EngineAction::Reuse
        } else {
            EngineAction::Start { stop_first: running }
        },
{
    if running && loaded.same_model(files.model.as_str(), files.codec.as_str(), files.voice.as_str(), backend) {
        EngineAction::Reuse
    } else {
        EngineAction::Start { stop_first: running }
    }
}

/// The error when the engine executable is missing.
pub fn missing_engine_error(engine_exe: &str) -> (r: String)
    ensures
        r@ == "движок не найден по пути: "@ + engine_exe@,
{
    let mut msg = chars_of("движок не найден по пути: ");
    append_str(&mut msg, engine_exe);
    string_of(&msg)
}

/// How long a started server may take to answer its health check, in
/// milliseconds.
pub const HEALTH_TIMEOUT_MS: u64 = 120000;

/// The pause between two health checks, in milliseconds.
pub const HEALTH_RETRY_MS: u64 = 300;

/// What to do while waiting for a started server to become ready.
#[derive(Debug, Clone, Copy, PartialEq, Eq, Structural)]
pub enum HealthStep {
    /// Ask the server's `/health` endpoint.
    Probe,
    /// The server answered: it is ready.
    Ready,
    /// No good answer yet: wait `HEALTH_RETRY_MS` and look again.
    Retry,
    /// The server process has ended: the start failed.
    Exited,
    /// The time is up: stop the server; the start failed.
    TimedOut,
}

/// One look at a starting server, `elapsed_ms` after it was started.
/// `exited` tells whether its process has ended; `healthy` is the answer of
/// the health check once it was asked (`None` before). The time limit is
/// checked first, then the process, then the answer.
pub fn health_wait_step(elapsed_ms: u64, exited: bool, healthy: Option<bool>) -> (r: HealthStep)
    ensures
        r == if elapsed_ms >= HEALTH_TIMEOUT_MS {
            HealthStep::TimedOut
        } else if exited {
            HealthStep::Exited
        } else {
            match healthy {
                None => HealthStep::Probe,
                Some(true) => HealthStep::Ready,
                Some(false) => HealthStep::Retry,
            }
        },
{
    if elapsed_ms >= HEALTH_TIMEOUT_MS {
        HealthStep::TimedOut
    } else if exited {
        HealthStep::Exited
    } else {
        match healthy {
            None => HealthStep::Probe,
            Some(true) => HealthStep::Ready,
            Some(false) => HealthStep::Retry,
        }
    }
}

/// The error of a failed wait: for a process that ended, or for the time
/// limit; `None` for the other steps.
pub fn health_wait_error(step: HealthStep) -> (r: Option<String>)
    ensures
        step == HealthStep::Exited ==> (r matches Some(e) && e@
            == "процесс движка завершился сразу (см. Логи: ошибка запуска/модели)"@),
        step == HealthStep::TimedOut ==> (r matches Some(e) && e@
            == "таймаут ожидания готовности движка (120 c)"@),
        step != HealthStep::Exited && step != HealthStep::TimedOut ==> r is None,
{
    match step {
        HealthStep::Exited => Some(String::from_str("процесс движка завершился сразу (см. Логи: ошибка запуска/модели)")),
        HealthStep::TimedOut => Some(String::from_str("таймаут ожидания готовности движка (120 c)")),
        _ => None,
    }
}

/// The command line of the engine server: server mode on the loopback
/// interface at `port`, with the backend and model, the codec if any, the voice
/// store (against which the server resolves voice names) and the start-up
/// voice pack if any.
pub open spec fn spec_server_args(backend: Seq<char>, model: Seq<char>, port: nat, codec: Seq<char>, voice_dir: Seq<char>, startup_voice: Seq<char>) -> Seq<Seq<char>> {
    seq!["--server"@, "--backend"@, backend, "-m"@, model, "--host"@, "127.0.0.1"@, "--port"@, decimal(port)]
        + (if codec.len() > 0 { seq!["--codec-model"@, codec] } else { Seq::empty() })
        + seq!["--voice-dir"@, voice_dir]
        + (if startup_voice.len() > 0 { seq!["--voice"@, startup_voice] } else { Seq::empty() })
}

/// The command line of the engine server.
pub fn server_args(backend: &str, model: &str, port: u16, codec: &str, voice_dir: &str, startup_voice: &str) -> (r: Vec<String>)
    ensures
        r@.map_values(|s: String| s@) == spec_server_args(backend@, model@, port as nat, codec@, voice_dir@, startup_voice@),
{
    let mut v: Vec<String> = Vec::new();
    v.push(String::from_str("--server"));
    v.push(String::from_str("--backend"));
    v.push(String::from_str(backend));
    v.push(String::from_str("-m"));
    v.push(String::from_str(model));
    v.push(String::from_str("--host"));
    v.push(String::from_str("127.0.0.1"));
    v.push(String::from_str("--port"));
    v.push(string_of(&decimal_chars(port as u64)));
    if codec.unicode_len() > 0 {
        v.push(String::from_str("--codec-model"));
        v.push(String::from_str(codec));
    }
    v.push(String::from_str("--voice-dir"));
    v.push(String::from_str(voice_dir));
    if startup_voice.unicode_len() > 0 {
        v.push(String::from_str("--voice"));
        v.push(String::from_str(startup_voice));
    }
    proof {
        assert(v@.map_values(|s: String| s@) =~= spec_server_args(backend@, model@, port as nat, codec@, voice_dir@, startup_voice@));
    }
    v
}

/// `http://127.0.0.1:<port><path>`.
pub fn local_url(port: u16, path: &str) -> (r: String)
    ensures
        r@ == "http://127.0.0.1:"@ + decimal(port as nat) + path@,
{
    let mut v = chars_of("http://127.0.0.1:");
    append_chars(&mut v, &decimal_chars(port as u64));
    append_str(&mut v, path);
    string_of(&v)
}

/// A speech synthesis request: the address and the text fields of the JSON
/// body, in order.
pub struct SpeechRequest {
    pub url: String,
    pub fields: Vec<(String, String)>,
}

pub open spec fn field_views(f: Seq<(String, String)>) -> Seq<(Seq<char>, Seq<char>)> {
    f.map_values(|p: (String, String)| (p.0@, p.1@))
}

/// The text fields of a speech request: the backend as model, the text, WAV
/// output, the voice if one is given, the consent statement that cloning
/// backends require for every request, and the style instructions if given.
pub open spec fn spec_speech_fields(backend: Seq<char>, text: Seq<char>, voice: Seq<char>, instructions: Seq<char>) -> Seq<(Seq<char>, Seq<char>)> {
    seq![("model"@, backend), ("input"@, text), ("response_format"@, "wav"@)]
        + (if voice.len() > 0 { seq![("voice"@, voice)] } else { Seq::empty() })
        + seq![("consent_attestation"@, "I confirm I have the legal right to clone this voice."@)]
        + (if instructions.len() > 0 { seq![("instructions"@, instructions)] } else { Seq::empty() })
}

/// Whether some field of `f` is named `key`.
pub open spec fn has_field(f: Seq<(Seq<char>, Seq<char>)>, key: Seq<char>) -> bool {
    exists|i: int| 0 <= i < f.len() && #[trigger] f[i].0 == key
}

/// What every speech request says: the backend as model, the text as input,
/// WAV as the format, and the consent statement. The chosen voice is sent
/// exactly when one is given, and then as given; likewise the instructions.
pub proof fn lemma_speech_fields(backend: Seq<char>, text: Seq<char>, voice: Seq<char>, instructions: Seq<char>)
    ensures
        ({
            let f = spec_speech_fields(backend, text, voice, instructions);
            &&& f.contains(("model"@, backend))
            &&& f.contains(("input"@, text))
            &&& f.contains(("response_format"@, "wav"@))
            &&& f.contains(("consent_attestation"@, "I confirm I have the legal right to clone this voice."@))
            &&& voice.len() > 0 ==> f.contains(("voice"@, voice))
            &&& voice.len() == 0 ==> !has_field(f, "voice"@)
            &&& forall|i: int| 0 <= i < f.len() && f[i].0 == "voice"@ ==> #[trigger] f[i].1 == voice
            &&& instructions.len() > 0 ==> f.contains(("instructions"@, instructions))
            &&& instructions.len() == 0 ==> !has_field(f, "instructions"@)
            &&& forall|i: int| 0 <= i < f.len() && f[i].0 == "instructions"@ ==> #[trigger] f[i].1 == instructions
        }),
{
    reveal_strlit("model");
    reveal_strlit("input");
    reveal_strlit("response_format");
    reveal_strlit("voice");
    reveal_strlit("consent_attestation");
    reveal_strlit("instructions");
    let f = spec_speech_fields(backend, text, voice, instructions);
    let vo: Seq<(Seq<char>, Seq<char>)> = if voice.len() > 0 { seq![("voice"@, voice)] } else { Seq::empty() };
    let ins: Seq<(Seq<char>, Seq<char>)> = if instructions.len() > 0 { seq![("instructions"@, instructions)] } else { Seq::empty() };
    let head = seq![("model"@, backend), ("input"@, text), ("response_format"@, "wav"@)];
    let c = seq![("consent_attestation"@, "I confirm I have the legal right to clone this voice."@)];
    assert(f == head + vo + c + ins);
    let n = vo.len() as int;
    assert(f[0] == ("model"@, backend));
    assert(f[1] == ("input"@, text));
    assert(f[2] == ("response_format"@, "wav"@));
    assert(f[3 + n] == c[0]);
    if voice.len() > 0 {
        assert(f[3] == ("voice"@, voice));
    }
    if instructions.len() > 0 {
        assert(f[4 + n] == ("instructions"@, instructions));
    }
    assert forall|i: int| 0 <= i < f.len() && (f[i].0 == "voice"@ || f[i].0 == "instructions"@) implies
        (f[i].0 == "voice"@ ==> voice.len() > 0 && i == 3 && f[i].1 == voice)
        && (f[i].0 == "instructions"@ ==> instructions.len() > 0 && i == 4 + n && f[i].1 == instructions) by {
        if i == 0 {
            assert(f[i].0 == "model"@);
            assert("model"@[0] != "voice"@[0] && "model"@[0] != "instructions"@[0]);
        } else if i == 1 {
            assert(f[i].0 == "input"@);
            assert("input"@[0] != "voice"@[0] && "input"@[2] != "instructions"@[2]);
        } else if i == 2 {
            assert(f[i].0 == "response_format"@);
            assert("response_format"@.len() != "voice"@.len() && "response_format"@.len() != "instructions"@.len());
        } else if i == 3 + n {
            assert(f[i].0 == "consent_attestation"@);
            assert("consent_attestation"@.len() != "voice"@.len() && "consent_attestation"@.len() != "instructions"@.len());
        } else if i == 3 && n == 1 {
            assert(f[i].0 == "voice"@);
            assert("voice"@.len() != "instructions"@.len());
        } else {
            assert(i == 4 + n && instructions.len() > 0);
            assert(f[i].0 == "instructions"@);
            assert("voice"@.len() != "instructions"@.len());
        }
    }
}

fn field(k: &str, v: &str) -> (r: (String, String))
    ensures
        r.0@ == k@,
        r.1@ == v@,
{
    (String::from_str(k), String::from_str(v))
}

/// The request for synthesising `text` on the server that `loaded` describes;
/// an error when no server runs. The speed field, a number, is added by the
/// caller when it differs from 1.
pub fn speech_request(loaded: &LoadedEngine, text: &str, voice: &str, instructions: &str) -> (r: Result<SpeechRequest, String>)
    ensures
        loaded.port == 0 ==> (r matches Err(e) && e@ == "движок не запущен (вызовите ensure перед speak)"@),
        loaded.port != 0 ==> (r matches Ok(q) && q.url@ == "http://127.0.0.1:"@ + decimal(loaded.port as nat) + "/v1/audio/speech"@
            && field_views(q.fields@) == spec_speech_fields(loaded.backend@, text@, voice@, instructions@)),
{
    if loaded.port == 0 {
        return Err(String::from_str("движок не запущен (вызовите ensure перед speak)"));
    }
    let url = local_url(loaded.port, "/v1/audio/speech");
    let mut fields: Vec<(String, String)> = Vec::new();
    fields.push(field("model", loaded.backend.as_str()));
    fields.push(field("input", text));
    fields.push(field("response_format", "wav"));
    if voice.unicode_len() > 0 {
        fields.push(field("voice", voice));
    }
    fields.push(field("consent_attestation", "I confirm I have the legal right to clone this voice."));
    if instructions.unicode_len() > 0 {
        fields.push(field("instructions", instructions));
    }
    proof {
        assert(field_views(fields@) =~= spec_speech_fields(loaded.backend@, text@, voice@, instructions@));
    }
    Ok(SpeechRequest { url, fields })
}

} // verus!
