use nbody_sim::camera::{movement_axes, MoveAxes, MoveBindings};
use nbody_sim::input::{ElementState, InputEvent, InputManager};

fn key(code: u32, state: ElementState) -> InputEvent {
    InputEvent::Key { code, state }
}

#[test]
fn new_manager_holds_nothing() {
    let m = InputManager::new();
    assert!(!m.is_key_down(17));
    assert!(!m.just_pressed(17));
    assert!(!m.just_released(17));
}

#[test]
fn press_then_release_within_a_frame() {
    let mut m = InputManager::new();
    m.handle_window_event(&key(17, ElementState::Pressed));
    assert!(m.is_key_down(17));
    assert!(m.just_pressed(17));
    m.handle_window_event(&key(17, ElementState::Released));
    assert!(!m.is_key_down(17));
    assert!(m.just_pressed(17));
    assert!(m.just_released(17));
}

#[test]
fn begin_frame_keeps_held_keys_only() {
    let mut m = InputManager::new();
    m.handle_window_event(&key(30, ElementState::Pressed));
    m.handle_window_event(&key(31, ElementState::Pressed));
    m.handle_window_event(&key(31, ElementState::Released));
    m.begin_frame();
    assert!(m.is_key_down(30));
    assert!(!m.just_pressed(30));
    assert!(!m.just_released(31));
    assert!(!m.is_key_down(31));
}

#[test]
fn key_repeat_is_not_a_new_press() {
    let mut m = InputManager::new();
    m.handle_window_event(&key(5, ElementState::Pressed));
    m.begin_frame();
    m.handle_window_event(&key(5, ElementState::Pressed));
    assert!(m.is_key_down(5));
    assert!(!m.just_pressed(5));
}

#[test]
fn held_follows_last_event() {
    let mut m = InputManager::new();
    let evs = [
        key(1, ElementState::Pressed),
        key(2, ElementState::Pressed),
        key(1, ElementState::Released),
        key(1, ElementState::Pressed),
        key(2, ElementState::Released),
    ];
    for e in evs.iter() {
        m.handle_window_event(e);
    }
    assert!(m.is_key_down(1));
    assert!(!m.is_key_down(2));
}

#[test]
fn mouse_buttons_do_not_touch_keys() {
    let mut m = InputManager::new();
    m.handle_window_event(&InputEvent::MouseButton { button: 1, state: ElementState::Pressed });
    m.handle_window_event(&InputEvent::Other);
    assert!(!m.is_key_down(1));
    assert!(!m.just_pressed(1));
}

#[test]
fn movement_axes_combine_opposite_keys() {
    let b = MoveBindings { forward: 1, back: 2, right: 3, left: 4, up: 5, down: 6 };
    let mut m = InputManager::new();
    assert_eq!(movement_axes(&m, &b), MoveAxes { forward: 0, right: 0, up: 0 });
    m.handle_window_event(&key(1, ElementState::Pressed));
    m.handle_window_event(&key(4, ElementState::Pressed));
    m.handle_window_event(&key(5, ElementState::Pressed));
    m.handle_window_event(&key(6, ElementState::Pressed));
    assert_eq!(movement_axes(&m, &b), MoveAxes { forward: 1, right: -1, up: 0 });
}
