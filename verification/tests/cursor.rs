use orbit_rig::cursor::{cursor_action, CursorAction};

#[test]
fn nothing_pressed_asks_nothing() {
    assert_eq!(cursor_action(false, false), None);
}

#[test]
fn primary_button_captures() {
    assert_eq!(cursor_action(true, false), Some(CursorAction::Capture));
}

#[test]
fn cancel_key_releases() {
    assert_eq!(cursor_action(false, true), Some(CursorAction::Release));
}

#[test]
fn release_wins_over_capture() {
    // Both edges in one frame: the release is applied last and wins.
    assert_eq!(cursor_action(true, true), Some(CursorAction::Release));
}
