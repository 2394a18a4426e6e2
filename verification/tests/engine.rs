use speechlab::presets::{download_plan, install_status, preset_backend, preset_by_id, presets};
use speechlab::settings::{settings_file_name, TtsSettings};
use speechlab::tts_engine::{
    check_start_files, engine_action, ensure_preset, health_wait_error, health_wait_step, local_url, missing_engine_error, server_args,
    speech_request, EngineAction, HealthStep, LoadedEngine, PresetFiles,
};

#[test]
fn preset_lookup() {
    assert_eq!(presets().len(), 11);
    let k = preset_by_id("kokoro").unwrap();
    assert_eq!(k.backend, "kokoro");
    assert_eq!(k.builtin_voices.len(), 28);
    assert_eq!(k.voice_type, "ggupack");
    assert!(preset_by_id("nope").is_none());
    assert_eq!(preset_backend("cosyvoice3-tts"), Some("cosyvoice3-tts"));
    assert_eq!(preset_backend(""), None);
    let c = preset_by_id("cosyvoice3-tts").unwrap();
    assert_eq!(c.extras.len(), 4);
    assert!(preset_by_id("qwen3-tts-customvoice").unwrap().supports_instruct);
}

#[test]
fn download_order() {
    let c = preset_by_id("cosyvoice3-tts").unwrap();
    let plan = download_plan(&c, "/m/cosyvoice3-tts");
    let files: Vec<&str> = plan.iter().map(|d| d.url.rsplit('/').next().unwrap()).collect();
    assert_eq!(
        files,
        vec![
            "cosyvoice3-llm-q4_k.gguf",
            "cosyvoice3-flow-q8_0.gguf",
            "cosyvoice3-campplus-f16.gguf",
            "cosyvoice3-s3tok-f16.gguf",
            "cosyvoice3-hift-f16.gguf",
            "cosyvoice3-voices.gguf"
        ]
    );
    assert!(plan[0].dest.ends_with("cosyvoice3-llm-q4_k.gguf"));
    let b = preset_by_id("bark").unwrap();
    assert_eq!(download_plan(&b, "/m").len(), 1);
    let s = install_status(true, None, Some(false));
    assert!(s.has_codec && !s.has_voice && !s.installed);
    assert!(install_status(true, Some(true), None).installed);
}

#[test]
fn engine_start_checks() {
    assert_eq!(
        ensure_preset("", "kokoro").err(),
        Some("не указан путь к движку crispasr.exe (откройте Настройки → ТТС)".to_string())
    );
    assert_eq!(ensure_preset("e.exe", "zz").err(), Some("неизвестный пресет TTS: zz".to_string()));
    assert_eq!(ensure_preset("e.exe", "bark").unwrap().id, "bark");
    let f = || PresetFiles { model: "m.gguf".to_string(), codec: Some("c.gguf".to_string()), voice: None };
    assert_eq!(
        check_start_files(f(), false, true, "", true).err(),
        Some("модель не найдена: m.gguf (скачайте пресет в Настройках)".to_string())
    );
    assert_eq!(check_start_files(f(), true, false, "", true).err(), Some("codec-модель не найдена: c.gguf".to_string()));
    assert_eq!(check_start_files(f(), true, true, "v.gguf", false).err(), Some("файл голоса не найден: v.gguf".to_string()));
    let s = check_start_files(f(), true, true, "", false).ok().unwrap();
    assert_eq!((s.model.as_str(), s.codec.as_str(), s.voice.as_str()), ("m.gguf", "c.gguf", ""));
    assert_eq!(missing_engine_error("x.exe"), "движок не найден по пути: x.exe");
}

#[test]
fn reuse_only_the_same_configuration() {
    let mut loaded = LoadedEngine::empty();
    loaded.port = 5000;
    loaded.model = "m".to_string();
    loaded.backend = "kokoro".to_string();
    let s = check_start_files(PresetFiles { model: "m".to_string(), codec: None, voice: None }, true, true, "", true).ok().unwrap();
    assert_eq!(engine_action(true, &loaded, &s, "kokoro"), EngineAction::Reuse);
    assert_eq!(engine_action(true, &loaded, &s, "bark"), EngineAction::Start { stop_first: true });
    assert_eq!(engine_action(false, &loaded, &s, "kokoro"), EngineAction::Start { stop_first: false });
}

#[test]
fn server_command_line_and_requests() {
    let a = server_args("kokoro", "m.gguf", 8081, "", "/v", "p.gguf");
    assert_eq!(
        a,
        vec!["--server", "--backend", "kokoro", "-m", "m.gguf", "--host", "127.0.0.1", "--port", "8081", "--voice-dir", "/v", "--voice", "p.gguf"]
    );
    let a = server_args("zonos", "m", 1, "c", "/v", "");
    assert_eq!(a[8..], ["1", "--codec-model", "c", "--voice-dir", "/v"]);
    assert_eq!(local_url(9000, "/health"), "http://127.0.0.1:9000/health");
    assert_eq!(
        speech_request(&LoadedEngine::empty(), "hi", "", "").err(),
        Some("движок не запущен (вызовите ensure перед speak)".to_string())
    );
    let mut l = LoadedEngine::empty();
    l.port = 7;
    l.backend = "kokoro".to_string();
    let q = speech_request(&l, "hi", "", "calm").ok().unwrap();
    assert_eq!(q.url, "http://127.0.0.1:7/v1/audio/speech");
    let keys: Vec<&str> = q.fields.iter().map(|(k, _)| k.as_str()).collect();
    assert_eq!(keys, vec!["model", "input", "response_format", "consent_attestation", "instructions"]);
    assert_eq!(q.fields[0].1, "kokoro");
}

#[test]
fn settings_defaults() {
    let s = TtsSettings::default();
    assert!(s.engine_dir.is_empty() && s.models_dir.is_empty() && s.engine_backend.is_empty() && s.preset.is_empty());
    assert_eq!(settings_file_name(), "tts_settings.json");
}

#[test]
fn waiting_for_a_started_engine() {
    assert_eq!(health_wait_step(0, false, None), HealthStep::Probe);
    assert_eq!(health_wait_step(500, false, Some(true)), HealthStep::Ready);
    assert_eq!(health_wait_step(500, false, Some(false)), HealthStep::Retry);
    assert_eq!(health_wait_step(500, true, None), HealthStep::Exited);
    assert_eq!(health_wait_step(120000, false, Some(true)), HealthStep::TimedOut);
    assert_eq!(health_wait_step(119999, true, Some(true)), HealthStep::Exited);
    assert_eq!(
        health_wait_error(HealthStep::Exited),
        Some("процесс движка завершился сразу (см. Логи: ошибка запуска/модели)".to_string())
    );
    assert_eq!(health_wait_error(HealthStep::TimedOut), Some("таймаут ожидания готовности движка (120 c)".to_string()));
    assert_eq!(health_wait_error(HealthStep::Retry), None);
}
