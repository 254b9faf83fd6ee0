use engine::input_handler::InputHandler;
use engine::input_handler::Key;
use engine::input_handler::KEY_COUNT;

const SECOND: u64 = 1_000_000_000;

#[test]
fn keys_start_up() {
    let handler = InputHandler::new();
    for key in Key::values() {
        assert!(!handler.is_pressed(key));
        assert!(!handler.is_held(key));
    }
    assert_eq!(KEY_COUNT, Key::values().len());
    assert_eq!(49, KEY_COUNT);
}

#[test]
fn press_and_release() {
    let mut handler = InputHandler::new();
    handler.key_state_changed(Key::A, true);
    assert!(handler.is_pressed(Key::A));
    assert!(!handler.is_pressed(Key::B));
    handler.key_state_changed(Key::A, false);
    assert!(!handler.is_pressed(Key::A));
}

#[test]
fn key_is_held_after_more_than_a_second() {
    let mut handler = InputHandler::new();
    handler.key_state_changed(Key::Space, true);
    handler.update(SECOND);
    assert!(!handler.is_held(Key::Space));
    handler.update(1);
    assert!(handler.is_held(Key::Space));
    handler.key_state_changed(Key::Space, true);
    assert!(handler.is_held(Key::Space));
    handler.key_state_changed(Key::Space, false);
    assert!(!handler.is_held(Key::Space));
}

#[test]
fn repeated_press_keeps_the_first_moment() {
    let mut handler = InputHandler::new();
    handler.update(5);
    handler.key_state_changed(Key::Enter, true);
    handler.update(SECOND - 1);
    handler.key_state_changed(Key::Enter, true);
    handler.update(2);
    assert!(handler.is_held(Key::Enter));
}

#[test]
fn clock_saturates() {
    let mut handler = InputHandler::new();
    handler.key_state_changed(Key::K0, true);
    handler.update(u64::MAX);
    handler.update(u64::MAX);
    assert!(handler.is_held(Key::K0));
}

#[test]
fn key_indices_follow_declaration_order() {
    assert_eq!(0, Key::K0.index());
    assert_eq!(10, Key::A.index());
    assert_eq!(48, Key::Space.index());
}
