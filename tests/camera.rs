use terrain_viewer::camera::{Controller, Key, KeyState, Projection};

#[test]
fn new_controller_has_no_intent() {
    let c = Controller::new();
    assert_eq!(c.axes(), (0, 0, 0));
}

#[test]
fn movement_keys_are_recognized() {
    let keys = [
        Key::W,
        Key::A,
        Key::S,
        Key::D,
        Key::Up,
        Key::Down,
        Key::Left,
        Key::Right,
        Key::Space,
        Key::LShift,
    ];
    for key in keys {
        let mut c = Controller::new();
        assert!(c.process_keyboard(key, KeyState::Pressed));
        assert_ne!(c.axes(), (0, 0, 0));
    }
}

#[test]
fn other_keys_are_not_recognized() {
    let mut c = Controller::new();
    assert!(!c.process_keyboard(Key::Escape, KeyState::Pressed));
    assert!(!c.process_keyboard(Key::Other, KeyState::Pressed));
    assert_eq!(c, Controller::new());
}

#[test]
fn each_key_drives_its_axis() {
    let cases = [
        (Key::W, (1, 0, 0)),
        (Key::Up, (1, 0, 0)),
        (Key::S, (-1, 0, 0)),
        (Key::Down, (-1, 0, 0)),
        (Key::D, (0, 1, 0)),
        (Key::Right, (0, 1, 0)),
        (Key::A, (0, -1, 0)),
        (Key::Left, (0, -1, 0)),
        (Key::Space, (0, 0, 1)),
        (Key::LShift, (0, 0, -1)),
    ];
    for (key, axes) in cases {
        let mut c = Controller::new();
        c.process_keyboard(key, KeyState::Pressed);
        assert_eq!(c.axes(), axes);
    }
}

#[test]
fn intents_persist_until_release() {
    let mut c = Controller::new();
    c.process_keyboard(Key::W, KeyState::Pressed);
    c.process_keyboard(Key::D, KeyState::Pressed);
    assert_eq!(c.axes(), (1, 1, 0));
    c.process_keyboard(Key::Other, KeyState::Released);
    assert_eq!(c.axes(), (1, 1, 0));
    c.process_keyboard(Key::W, KeyState::Released);
    assert_eq!(c.axes(), (0, 1, 0));
    assert!(c.right);
    assert!(!c.forward);
}

#[test]
fn opposite_intents_cancel() {
    let mut c = Controller::new();
    c.process_keyboard(Key::W, KeyState::Pressed);
    c.process_keyboard(Key::S, KeyState::Pressed);
    c.process_keyboard(Key::Space, KeyState::Pressed);
    c.process_keyboard(Key::LShift, KeyState::Pressed);
    assert_eq!(c.axes(), (0, 0, 0));
}

#[test]
fn forward_intent_moves_along_the_horizontal_forward_axis_only() {
    let mut c = Controller::new();
    c.process_keyboard(Key::W, KeyState::Pressed);
    let (forward, right, up) = c.axes();
    assert_eq!(forward, 1);
    assert_eq!(right, 0);
    assert_eq!(up, 0);
}

#[test]
fn projection_needs_positive_sides() {
    assert!(Projection::new(0, 1080).is_none());
    assert!(Projection::new(1920, 0).is_none());
    let p = Projection::new(1920, 1080).unwrap();
    assert_eq!((p.width(), p.height()), (1920, 1080));
}

#[test]
fn resize_with_zero_side_keeps_aspect() {
    let mut p = Projection::new(1920, 1080).unwrap();
    p.resize(0, 720);
    assert_eq!((p.width(), p.height()), (1920, 1080));
    p.resize(1280, 0);
    assert_eq!((p.width(), p.height()), (1920, 1080));
    p.resize(0, 0);
    assert_eq!((p.width(), p.height()), (1920, 1080));
}

#[test]
fn resize_sets_exact_aspect() {
    let mut p = Projection::new(1920, 1080).unwrap();
    p.resize(1280, 720);
    assert_eq!((p.width(), p.height()), (1280, 720));
    let aspect = p.width() as f64 / p.height() as f64;
    assert!((aspect - 1280.0 / 720.0).abs() < f64::EPSILON);
}

#[test]
fn resize_forgets_prior_size() {
    let mut a = Projection::new(1920, 1080).unwrap();
    let mut b = Projection::new(3, 7).unwrap();
    a.resize(1280, 720);
    b.resize(1280, 720);
    assert_eq!(a, b);
}
