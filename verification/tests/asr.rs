use speechlab::asr::{
    choose_engine, ctc_collapse, encoder_steps, file_name_matches, find_file, frame_count, join_chunk_texts,
    logmel_params, model_file, onnx_bytes_look_valid, EngineKind, RnntGreedy,
};

#[test]
fn engine_choice_prefers_rnnt() {
    assert_eq!(choose_engine("d", true, true), Ok(EngineKind::Rnnt));
    assert_eq!(choose_engine("d", false, true), Ok(EngineKind::Ctc));
    assert_eq!(choose_engine("D:\\m", false, false), Err("Не найдены подходящие файлы onnx (ctc/rnnt) в D:\\m".to_string()));
    assert_eq!(EngineKind::Rnnt.engine_name(), "RNNT");
    assert_eq!(EngineKind::Ctc.engine_name(), "CTC");
    assert_eq!(model_file("D:\\m", "v3_e2e_ctc_vocab.txt"), "D:\\m\\v3_e2e_ctc_vocab.txt");
    assert!(file_name_matches("v3_e2e_rnnt_encoder.int8.onnx", "rnnt_encoder"));
    assert!(!file_name_matches("v3_e2e_ctc.int8.onnx", "rnnt"));
    assert_eq!(find_file("d", "ctc", None), Err("Не найден файл с паттерном ctc в d".to_string()));
    assert_eq!(find_file("d", "ctc", Some("d/x_ctc".to_string())), Ok("d/x_ctc".to_string()));
}

#[test]
fn ctc_collapses_repeats_and_blanks() {
    let blank = 0;
    assert_eq!(ctc_collapse(&vec![0, 5, 5, 0, 5, 7, 7, 7, 0], blank), vec![5, 5, 7]);
    assert_eq!(ctc_collapse(&vec![3, 3, 3], blank), vec![3]);
    assert_eq!(ctc_collapse(&vec![], blank), Vec::<u32>::new());
    assert_eq!(ctc_collapse(&vec![34, 34, 1, 34], 34), vec![1]);
}

#[test]
fn rnnt_greedy_moves_on_after_blank_or_three_tokens() {
    let blank = 9;
    let mut d = RnntGreedy::new(2);
    assert_eq!(d.decoder_input(blank), 9);
    assert!(d.step(4, blank));
    assert_eq!(d.t, 0);
    assert_eq!(d.decoder_input(blank), 4);
    assert!(d.step(5, blank));
    assert!(d.step(6, blank));
    // Third token of the frame: move on.
    assert_eq!(d.t, 1);
    assert!(!d.step(blank, blank));
    assert_eq!(d.t, 2);
    assert!(d.is_done());
    assert_eq!(d.tokens, vec![4, 5, 6]);
    assert_eq!(encoder_steps(1, 100), 1);
    assert_eq!(encoder_steps(9, 100), 3);
    assert_eq!(encoder_steps(400, 50), 50);
}

#[test]
fn chunk_texts_are_joined_with_spaces() {
    let t = vec!["привет".to_string(), String::new(), "мир".to_string()];
    assert_eq!(join_chunk_texts(&t), "привет мир");
    assert_eq!(join_chunk_texts(&vec![]), "");
}

#[test]
fn feature_frames() {
    let p = logmel_params(16000);
    assert_eq!((p.n_mels, p.n_fft, p.win_length, p.hop_length), (64, 320, 320, 160));
    assert_eq!(frame_count(16000, 320, 160), 99);
    assert_eq!(frame_count(319, 320, 160), 0);
    assert_eq!(frame_count(320, 320, 160), 1);
}

#[test]
fn onnx_check() {
    let mut bytes = vec![8u8; 120];
    assert!(onnx_bytes_look_valid(&bytes));
    bytes[0] = b'4';
    bytes[1] = b'0';
    bytes[2] = b'4';
    assert!(!onnx_bytes_look_valid(&bytes));
    assert!(!onnx_bytes_look_valid(&[8u8; 99]));
}
