use terrain_scene::input::{Key, MovementKeys};

#[test]
fn nothing_held_at_start() {
    let keys = MovementKeys::new();
    assert_eq!(keys.axes(), (0, 0, 0));
}

#[test]
fn each_key_and_its_alias() {
    let cases = [
        (Key::KeyW, (1, 0, 0)),
        (Key::ArrowUp, (1, 0, 0)),
        (Key::KeyS, (-1, 0, 0)),
        (Key::ArrowDown, (-1, 0, 0)),
        (Key::KeyD, (0, 1, 0)),
        (Key::ArrowRight, (0, 1, 0)),
        (Key::KeyA, (0, -1, 0)),
        (Key::ArrowLeft, (0, -1, 0)),
        (Key::Space, (0, 0, 1)),
        (Key::ShiftLeft, (0, 0, -1)),
    ];
    for (key, axes) in cases {
        let mut keys = MovementKeys::new();
        assert!(keys.process_key(key, true));
        assert_eq!(keys.axes(), axes);
        assert!(keys.process_key(key, false));
        assert_eq!(keys.axes(), (0, 0, 0));
    }
}

#[test]
fn other_keys_are_not_handled() {
    let mut keys = MovementKeys::new();
    keys.process_key(Key::KeyW, true);
    let before = keys;
    assert!(!keys.process_key(Key::Escape, true));
    assert!(!keys.process_key(Key::Other, true));
    assert_eq!(keys, before);
}

#[test]
fn opposite_keys_cancel() {
    let mut keys = MovementKeys::new();
    keys.process_key(Key::KeyW, true);
    keys.process_key(Key::ArrowDown, true);
    keys.process_key(Key::KeyA, true);
    assert_eq!(keys.axes(), (0, -1, 0));
    assert!(keys.forward && keys.backward && keys.left);
}

#[test]
fn diagonal_hold() {
    let mut keys = MovementKeys::new();
    keys.process_key(Key::KeyW, true);
    keys.process_key(Key::KeyD, true);
    keys.process_key(Key::Space, true);
    assert_eq!(keys.axes(), (1, 1, 1));
    keys.process_key(Key::KeyW, false);
    assert_eq!(keys.axes(), (0, 1, 1));
}

#[test]
fn repeated_press_stays_at_full_intensity() {
    let mut keys = MovementKeys::new();
    keys.process_key(Key::KeyW, true);
    keys.process_key(Key::ArrowUp, true);
    keys.process_key(Key::KeyW, true);
    assert_eq!(keys.axes(), (1, 0, 0));
}
