use speechlab::clone::{
    ascii_voice_name, check_clone_source, clone_cache_file, clone_reference_limits, max_reference_samples, need_rebuild,
    preview_backend, ref_text_file, take_prefix, voice_wav_file,
};
use speechlab::voices::listed_voice_id;
use std::path::Path;

fn limits(b: &str) -> Option<(f32, f32)> {
    clone_reference_limits(b).map(|(a, z)| (a as f32, z as f32))
}

#[test]
fn limits_known_backends() {
    assert_eq!(limits("cosyvoice3-tts"), Some((3.0, 10.0)));
    assert_eq!(limits("cosyvoice3-tts-rl"), Some((3.0, 10.0)));
    assert_eq!(limits("f5-tts"), Some((3.0, 15.0)));
    assert_eq!(limits("zonos"), Some((3.0, 15.0)));
    // Не клонирующие из WAV бэкенды — None.
    assert_eq!(limits("qwen3-tts"), None);
    assert_eq!(limits("kokoro"), None);
}

#[test]
fn limits_of_other_cloning_backends() {
    assert_eq!(clone_reference_limits("tada-1b"), Some((5, 15)));
    assert_eq!(clone_reference_limits("vibevoice-1.5b"), Some((3, 15)));
    assert_eq!(clone_reference_limits("moss-tts-local"), Some((3, 15)));
    assert_eq!(clone_reference_limits("COSYVOICE3-TTS"), None);
}

#[test]
fn clone_cache_name_is_ascii() {
    for id in ["Влад_без_текста", "Морган Фримен", "голос-1", "voice"] {
        let cache = format!("{}.__clone.wav", ascii_voice_name(id));
        assert!(cache.chars().all(|c| c.is_ascii()), "не-ASCII в кэше: {cache}");
        assert!(cache.ends_with(".__clone.wav"));
    }
}

#[test]
fn ascii_names_escape_other_characters() {
    assert_eq!(ascii_voice_name("abc-1"), "abc-1");
    assert_eq!(ascii_voice_name("a b"), "a_000020b");
    assert_eq!(ascii_voice_name("Я"), "_00042f");
    assert_eq!(ascii_voice_name(""), "voice");
    assert_ne!(ascii_voice_name("Влад"), ascii_voice_name("Морган"));
}

#[test]
fn cache_rebuild_and_trimming() {
    assert!(need_rebuild(false, Some(1), Some(2)));
    assert!(!need_rebuild(true, Some(1), Some(2)));
    assert!(need_rebuild(true, Some(3), Some(2)));
    assert!(need_rebuild(true, None, Some(2)));
    assert_eq!(max_reference_samples(10, 24000), 240000);
    let s: Vec<f32> = (0..10).map(|i| i as f32).collect();
    assert_eq!(take_prefix(&s, 4), vec![0.0, 1.0, 2.0, 3.0]);
    assert_eq!(take_prefix(&s, 40).len(), 10);
    assert_eq!(preview_backend(""), "cosyvoice3-tts");
    assert_eq!(preview_backend("zonos"), "zonos");
}

#[test]
fn clone_cache_lies_beside_the_voices_and_is_not_listed() {
    let root = Path::new("voices_root");
    for id in ["Влад_без_текста", "Морган Фримен", "голос-1", "voice"] {
        let cache = clone_cache_file("voices_root", id);
        let p = Path::new(&cache);
        assert_eq!(p.parent(), Some(root));
        let file = p.file_name().unwrap().to_str().unwrap();
        assert_eq!(file, format!("{}.__clone.wav", ascii_voice_name(id)));
        assert!(file.chars().all(|c| c.is_ascii()));
        let stem = p.file_stem().and_then(|s| s.to_str());
        let ext = p.extension().and_then(|s| s.to_str());
        assert_eq!(listed_voice_id(file, ext, stem), None);
    }
}

#[test]
fn transcript_and_recording_of_the_flat_store() {
    assert_eq!(Path::new(&ref_text_file("voices_root", "my_voice")), Path::new("voices_root").join("my_voice.txt"));
    assert_eq!(Path::new(&voice_wav_file("voices_root", "my_voice")), Path::new("voices_root").join("my_voice.wav"));
}

#[test]
fn missing_clone_source() {
    assert_eq!(check_clone_source("/x/a.wav", true), Ok(()));
    assert_eq!(
        check_clone_source("/x/a.wav", false),
        Err("файл голоса не найден: /x/a.wav (сначала добавьте голос или выберите WAV)".to_string())
    );
}
