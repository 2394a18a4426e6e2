use speechlab::hotkey::{
    code_to_name, key_name, key_to_code, key_to_u32, on_input_event, HotkeyEvent, InputEvent,
    KeyCode, ListenerAction, PttAction, PushToTalk,
};
use speechlab::stt::SttStatus;

#[test]
fn code_name_roundtrip() {
    assert_eq!(code_to_name(0x41), "A");
    assert_eq!(code_to_name(0x70), "F1");
    assert_eq!(code_to_name(0x2E), "Delete");
}

#[test]
fn function_keys_and_digits_are_named() {
    assert_eq!(code_to_name(0x7B), "F12");
    assert_eq!(code_to_name(0x79), "F10");
    assert_eq!(code_to_name(0x30), "0");
    assert_eq!(code_to_name(0x39), "9");
    assert_eq!(code_to_name(0x5A), "Z");
    assert_eq!(code_to_name(0xDC), "\\");
    assert_eq!(code_to_name(0x0D), "Enter");
    assert_eq!(code_to_name(0x7C), "Unknown");
    assert_eq!(code_to_name(0xFFFF), "Unknown");
}

#[test]
fn key_codes_are_stable() {
    assert_eq!(key_to_u32(KeyCode::KeyA), 0x41);
    assert_eq!(key_to_u32(KeyCode::F1), 0x70);
    assert_eq!(key_to_u32(KeyCode::ControlRight), 0xA5);
    assert_eq!(key_to_u32(KeyCode::Unknown), 0xFFFF);
    assert_eq!(key_name(KeyCode::Return), "Enter");
    assert_eq!(key_name(KeyCode::ShiftLeft), "LShift");
    assert_eq!(key_to_code(InputEvent::KeyRelease(KeyCode::Space)), Some(0x20));
    assert_eq!(key_to_code(InputEvent::Other), None);
}

#[test]
fn listener_forwards_only_the_hotkey() {
    let code = key_to_u32(KeyCode::F9);
    assert_eq!(
        on_input_event(true, false, code, InputEvent::KeyPress(KeyCode::F9)),
        ListenerAction::Forward(HotkeyEvent::Press)
    );
    assert_eq!(
        on_input_event(true, false, code, InputEvent::KeyRelease(KeyCode::F9)),
        ListenerAction::Forward(HotkeyEvent::Release)
    );
    assert_eq!(
        on_input_event(true, false, code, InputEvent::KeyPress(KeyCode::F8)),
        ListenerAction::Ignore
    );
    assert_eq!(
        on_input_event(false, false, code, InputEvent::KeyPress(KeyCode::F9)),
        ListenerAction::Ignore
    );
    assert_eq!(on_input_event(true, true, code, InputEvent::Other), ListenerAction::Ignore);
}

#[test]
fn listener_reports_every_key_in_capture_mode() {
    assert_eq!(
        on_input_event(true, true, 0x70, InputEvent::KeyRelease(KeyCode::KeyQ)),
        ListenerAction::ReportKey { name: "Q".to_string(), code: 0x51, pressed: false }
    );
}

#[test]
fn push_to_talk_press_then_release() {
    let mut ptt = PushToTalk::new();
    assert_eq!(ptt.on_event(HotkeyEvent::Press), PttAction::StartRecording);
    assert!(ptt.recording);
    // Key auto-repeat sends more presses: nothing changes.
    assert_eq!(ptt.on_event(HotkeyEvent::Press), PttAction::Nothing);
    assert_eq!(ptt.on_event(HotkeyEvent::Release), PttAction::StopRecording);
    assert!(!ptt.recording);
    assert_eq!(ptt.on_event(HotkeyEvent::Release), PttAction::Nothing);
    assert!(!ptt.recording);
}

#[test]
fn status_labels() {
    assert_eq!(SttStatus::Recording.label(), "recording");
    assert_eq!(SttStatus::Transcribing.label(), "transcribing");
    assert_eq!(SttStatus::Error("x".to_string()).label(), "error");
    assert_eq!(SttStatus::Stopped.label(), "stopped");
}

#[test]
fn known_keys_have_distinct_names() {
    let codes: Vec<u32> = (0u32..0x100).filter(|&c| code_to_name(c) != "Unknown").collect();
    assert_eq!(codes.len(), 86);
    let mut names: Vec<String> = codes.iter().map(|&c| code_to_name(c)).collect();
    names.sort();
    names.dedup();
    assert_eq!(names.len(), 86);
}
