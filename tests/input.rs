use chessboard::input::{handle_event, handle_events, InputEvent, Key, KeyAction};

fn key(key: Key, action: KeyAction) -> InputEvent {
    InputEvent::Key { key, action }
}

#[test]
fn escape_press_requests_close() {
    assert!(handle_event(false, key(Key::Escape, KeyAction::Press)));
}

#[test]
fn other_key_events_leave_flag_unset() {
    assert!(!handle_event(false, key(Key::Escape, KeyAction::Release)));
    assert!(!handle_event(false, key(Key::Escape, KeyAction::Repeat)));
    assert!(!handle_event(false, key(Key::Other, KeyAction::Press)));
    assert!(!handle_event(false, InputEvent::Other));
}

#[test]
fn close_request_is_kept() {
    assert!(handle_event(true, key(Key::Other, KeyAction::Release)));
    assert!(handle_event(true, InputEvent::Other));
}

#[test]
fn poll_with_escape_among_others() {
    let events = vec![
        InputEvent::Other,
        key(Key::Other, KeyAction::Press),
        key(Key::Escape, KeyAction::Press),
        key(Key::Escape, KeyAction::Release),
    ];
    assert!(handle_events(false, &events));
}

#[test]
fn poll_without_escape_press() {
    let events = vec![key(Key::Other, KeyAction::Press), key(Key::Escape, KeyAction::Release)];
    assert!(!handle_events(false, &events));
    assert!(!handle_events(false, &Vec::new()));
    assert!(handle_events(true, &Vec::new()));
}
