use wars::input::{InputState, Key};

#[test]
fn idle_input_holds_nothing() {
    let window = InputState::idle();
    assert_eq!(window.get_mouse_position(), (0, 0));
    assert!(!window.is_left_button_down());
    for key in [Key::Left, Key::Right, Key::Up, Key::A, Key::D, Key::W, Key::Escape] {
        assert!(!window.is_key_down(key));
    }
}

#[test]
fn each_key_is_reported_by_itself() {
    let keys = [Key::Left, Key::Right, Key::Up, Key::A, Key::D, Key::W, Key::Escape];
    let windows = [
        InputState { left: true, ..InputState::idle() },
        InputState { right: true, ..InputState::idle() },
        InputState { up: true, ..InputState::idle() },
        InputState { a: true, ..InputState::idle() },
        InputState { d: true, ..InputState::idle() },
        InputState { w: true, ..InputState::idle() },
        InputState { escape: true, ..InputState::idle() },
    ];
    for (held, window) in windows.iter().enumerate() {
        for (asked, key) in keys.iter().enumerate() {
            assert_eq!(window.is_key_down(*key), held == asked);
        }
    }
}

#[test]
fn pointer_and_button_are_reported() {
    let window = InputState { mouse_x: 12, mouse_y: -34, left_button: true, ..InputState::idle() };
    assert_eq!(window.get_mouse_position(), (12, -34));
    assert!(window.is_left_button_down());
}
