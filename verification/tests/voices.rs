use speechlab::voices::{
    add_voice_precheck, delete_outcome, first_free_voice_id, manifest_of, new_voice_info, is_avatar_extension, listed_voice_id, resolve_voice_for_server,
    sanitize_id, sort_voices_by_name, voice_file_name, voice_id_candidate, voice_info_from_manifest,
    voice_path_to_check, voices_root, VoiceFile, VoiceInfo, VoiceManifest,
};

#[test]
fn sanitize_id_basic() {
    assert_eq!(sanitize_id("Morgan Freeman"), "morgan_freeman");
    assert_eq!(sanitize_id("голос-1!"), "1");
    assert_eq!(sanitize_id("  "), "voice");
    // Only ASCII letters and digits are kept (as "голос-1!" -> "1" shows), so a
    // name without any, such as an all-Cyrillic one, gets the fallback id.
    assert_eq!(sanitize_id("Влад"), "voice");
    assert!(!sanitize_id("Влад").is_empty());
}

#[test]
fn sanitize_id_collapses_and_trims() {
    assert_eq!(sanitize_id("__A--B__"), "a_b");
    assert_eq!(sanitize_id("x!!!y"), "x_y");
    assert_eq!(sanitize_id("Влад Ivanov"), "ivanov");
    assert_eq!(sanitize_id(""), "voice");
}

#[test]
fn resolve_keeps_values_and_checks_paths() {
    assert_eq!(resolve_voice_for_server("m", "  vivian ", false), Ok("vivian".to_string()));
    assert_eq!(resolve_voice_for_server("m", "   ", false), Ok(String::new()));
    assert_eq!(resolve_voice_for_server("m", "ref.WAV", true), Ok("ref.WAV".to_string()));
    assert_eq!(
        resolve_voice_for_server("m", "dir/ref.wav", false),
        Err("файл голоса не найден: dir/ref.wav".to_string())
    );
    assert_eq!(voice_path_to_check(" a\\b "), Some("a\\b".to_string()));
    assert_eq!(voice_path_to_check("vivian"), None);
    assert_eq!(voice_path_to_check("pack.GGUF"), Some("pack.GGUF".to_string()));
}

#[test]
fn list_filter_skips_clone_cache_and_hidden() {
    assert_eq!(listed_voice_id("my_voice.wav", Some("wav"), Some("my_voice")), Some("my_voice".to_string()));
    assert_eq!(listed_voice_id("my_voice.__clone.wav", Some("wav"), Some("my_voice.__clone")), None);
    assert_eq!(listed_voice_id(".hidden.wav", Some("wav"), Some(".hidden")), None);
    assert_eq!(listed_voice_id("my_voice.json", Some("json"), Some("my_voice")), None);
    assert_eq!(listed_voice_id("x.__clone.WAV", Some("WAV"), Some("x.__clone")), None);
    assert_eq!(listed_voice_id("Loud.WAV", Some("WAV"), Some("Loud")), Some("Loud".to_string()));
}

#[test]
fn manifest_fields_and_defaults() {
    let m = VoiceManifest { name: Some("My Voice".to_string()), ref_text: None, has_avatar: Some(true), created_at: None };
    let v = voice_info_from_manifest("my_voice", "/v/my_voice.wav", Some(m), false);
    assert_eq!(v.id, "my_voice");
    assert_eq!(v.name, "My Voice");
    assert_eq!(v.ref_text, "");
    assert!(v.has_avatar);
    let v = voice_info_from_manifest("solo", "/v/solo.wav", None, true);
    assert_eq!(v.name, "solo");
    assert!(v.has_avatar);
    assert_eq!(v.path, "/v/solo.wav");
}

fn info(name: &str, id: &str) -> VoiceInfo {
    VoiceInfo {
        id: id.to_string(),
        name: name.to_string(),
        path: String::new(),
        ref_text: String::new(),
        has_avatar: false,
        created_at: String::new(),
    }
}

#[test]
fn voices_are_sorted_by_name_stably() {
    let mut v = vec![info("b", "1"), info("a", "2"), info("b", "3"), info("A", "4"), info("ä", "5"), info("a", "6")];
    sort_voices_by_name(&mut v);
    let order: Vec<&str> = v.iter().map(|x| x.id.as_str()).collect();
    assert_eq!(order, vec!["4", "2", "6", "1", "3", "5"]);
}

#[test]
fn voice_files_and_ids() {
    assert_eq!(voice_file_name("abc", VoiceFile::Wav), "abc.wav");
    assert_eq!(voice_file_name("abc", VoiceFile::Avatar), "abc.avatar.jpg");
    assert_eq!(voice_file_name("abc", VoiceFile::Manifest), "abc.json");
    assert_eq!(voice_file_name("abc", VoiceFile::Text), "abc.txt");
    assert_eq!(voice_id_candidate("morgan", 2), "morgan_2");
    assert_eq!(voice_id_candidate("morgan", 10), "morgan_10");
    assert!(is_avatar_extension("JPEG"));
    assert!(is_avatar_extension("webp"));
    assert!(!is_avatar_extension("gif"));
    let root = voices_root("", "/opt/app/tts_models");
    assert!(root.ends_with("voices"));
    assert!(root.starts_with("/opt/app/tts_models"));
}

#[test]
fn add_and_delete_checks() {
    assert_eq!(add_voice_precheck("  ", "a.wav", true), Err("укажите имя голоса".to_string()));
    assert_eq!(add_voice_precheck("Bob", "a.wav", false), Err("файл аудио не найден: a.wav".to_string()));
    assert_eq!(add_voice_precheck("Bob Smith", "a.wav", true), Ok("bob_smith".to_string()));
    assert_eq!(delete_outcome("x", true), Ok(()));
    assert_eq!(delete_outcome("x", false), Err("голос не найден: x".to_string()));
}

#[test]
fn first_free_id_skips_taken_ones() {
    let taken = |v: &[&str]| v.iter().map(|s| s.to_string()).collect::<Vec<_>>();
    assert_eq!(first_free_voice_id("anna", &taken(&[])), "anna");
    assert_eq!(first_free_voice_id("anna", &taken(&["bob"])), "anna");
    assert_eq!(first_free_voice_id("anna", &taken(&["anna"])), "anna_2");
    assert_eq!(first_free_voice_id("anna", &taken(&["anna_2", "anna", "anna_3"])), "anna_4");
    assert_eq!(first_free_voice_id("anna", &taken(&["anna", "anna_3"])), "anna_2");
}

#[test]
fn saved_voice_reads_back_from_its_manifest() {
    let info = new_voice_info("anna", "Анна", "/v/anna.wav", "  привет  ", true, "2024-01-02T03:04:05Z");
    let read = voice_info_from_manifest("anna", "/v/anna.wav", Some(manifest_of(&info)), false);
    assert_eq!(read.id, info.id);
    assert_eq!(read.name, "Анна");
    assert_eq!(read.path, info.path);
    assert_eq!(read.ref_text, "привет");
    assert!(read.has_avatar);
    assert_eq!(read.created_at, "2024-01-02T03:04:05Z");
}

#[test]
fn plain_voice_id_is_not_a_path() {
    assert_eq!(resolve_voice_for_server("m", "vivian", false), Ok("vivian".to_string()));
    assert_eq!(voice_path_to_check("vivian"), None);
}
