use speechlab::logpath::{is_inside_target, log_dir_index};
use speechlab::session::{check_model_dir, file_result, load_success_message, outcome_after_run, FileOutcome, ModelCache};

#[test]
fn model_is_dropped_only_when_the_folder_changes() {
    let mut c: ModelCache<u32> = ModelCache::new();
    c.set_model_dir("a".to_string());
    c.set_model(7);
    c.set_model_dir("a".to_string());
    assert_eq!(c.model, Some(7));
    c.set_model_dir("b".to_string());
    assert_eq!(c.model, None);
    assert_eq!(c.dir, "b");
}

#[test]
fn load_and_results() {
    assert_eq!(check_model_dir(""), Err("путь к модели не указан".to_string()));
    assert_eq!(check_model_dir("x"), Ok(()));
    assert_eq!(load_success_message("D:\\m"), "модель успешно загружена из D:\\m");
    assert_eq!(file_result(FileOutcome::Cancelled), "[ОТМЕНЕНО]");
    assert_eq!(file_result(FileOutcome::Failed("нет файла".to_string())), "[ОШИБКА: нет файла]");
    assert_eq!(file_result(FileOutcome::Text("текст".to_string())), "текст");
    assert_eq!(file_result(outcome_after_run(true, Ok("x".to_string()))), "[ОТМЕНЕНО]");
}

#[test]
fn log_folder_search() {
    let names = |v: &[&str]| v.iter().map(|s| s.to_string()).collect::<Vec<_>>();
    assert!(is_inside_target(Some("debug".to_string()), &names(&["debug", "target", "proj"])));
    assert!(is_inside_target(Some("x".to_string()), &names(&["x", "target", "proj"])));
    assert!(!is_inside_target(Some("proj".to_string()), &names(&["proj", "home"])));
    // (holds src-tauri, holds test, inside a build tree), nearest folder first.
    assert_eq!(log_dir_index(&vec![(false, false, true), (true, false, false)]), Some(1));
    assert_eq!(log_dir_index(&vec![(false, true, true), (false, true, false)]), Some(1));
    assert_eq!(log_dir_index(&vec![(false, false, false), (false, false, false)]), None);
    assert_eq!(log_dir_index(&vec![]), None);
}

#[test]
fn project_root_beats_nearer_test_folder() {
    assert_eq!(log_dir_index(&vec![(false, true, false), (false, false, false), (true, false, false)]), Some(2));
    assert_eq!(log_dir_index(&vec![(false, true, false), (false, false, false)]), Some(0));
}
