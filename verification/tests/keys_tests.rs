use mousekeys::codes::{
    BTN_LEFT, BTN_MIDDLE, BTN_RIGHT, EV_KEY, EV_REL, KEY_LEFTMETA, KEY_RIGHTMETA, KEY_SPACE,
    REL_HWHEEL, REL_WHEEL, REL_X, REL_Y, KEY_ENTER, KEY_H, KEY_KP0, KEY_KP1, KEY_KP2, KEY_KP3, KEY_KP4, KEY_KP5, KEY_KP6, KEY_KP7,
    KEY_KP8, KEY_KP9, KEY_KPASTERISK, KEY_KPDOT, KEY_KPENTER, KEY_KPMINUS, KEY_KPPLUS,
    KEY_KPSLASH,
};
use evdev::{EventType, KeyCode, RelativeAxisCode};
use mousekeys::keys::{is_consumed, resolve, Action, Mode};

const KEYPAD: [u16; 16] = [
    KEY_KP0, KEY_KP1, KEY_KP2, KEY_KP3, KEY_KP4, KEY_KP5, KEY_KP6, KEY_KP7, KEY_KP8, KEY_KP9,
    KEY_KPDOT, KEY_KPPLUS, KEY_KPMINUS, KEY_KPASTERISK, KEY_KPSLASH, KEY_KPENTER,
];

#[test]
fn mode_names() {
    assert_eq!(Mode::Movement.as_str(), "movement");
    assert_eq!(Mode::Scroll.as_str(), "scroll");
}

#[test]
fn motion_keys_in_movement_mode() {
    let m = Mode::Movement;
    assert_eq!(resolve(KEY_KP8, m), Some(Action::Move { dx: 0, dy: -1 }));
    assert_eq!(resolve(KEY_KP2, m), Some(Action::Move { dx: 0, dy: 1 }));
    assert_eq!(resolve(KEY_KP4, m), Some(Action::Move { dx: -1, dy: 0 }));
    assert_eq!(resolve(KEY_KP6, m), Some(Action::Move { dx: 1, dy: 0 }));
    assert_eq!(resolve(KEY_KP7, m), Some(Action::Move { dx: -1, dy: -1 }));
    assert_eq!(resolve(KEY_KP9, m), Some(Action::Move { dx: 1, dy: -1 }));
    assert_eq!(resolve(KEY_KP1, m), Some(Action::Move { dx: -1, dy: 1 }));
    assert_eq!(resolve(KEY_KP3, m), Some(Action::Move { dx: 1, dy: 1 }));
}

#[test]
fn diagonals_do_nothing_in_scroll_mode() {
    for k in [KEY_KP7, KEY_KP9, KEY_KP1, KEY_KP3] {
        assert_eq!(resolve(k, Mode::Scroll), None);
        assert!(is_consumed(k));
    }
    assert_eq!(resolve(KEY_KP8, Mode::Scroll), Some(Action::Move { dx: 0, dy: -1 }));
    assert_eq!(resolve(KEY_KP6, Mode::Scroll), Some(Action::Move { dx: 1, dy: 0 }));
}

#[test]
fn button_and_speed_keys() {
    for m in [Mode::Movement, Mode::Scroll] {
        assert_eq!(resolve(KEY_KP5, m), Some(Action::LeftClick));
        assert_eq!(resolve(KEY_KPSLASH, m), Some(Action::MiddleClick));
        assert_eq!(resolve(KEY_KPASTERISK, m), Some(Action::RightClick));
        assert_eq!(resolve(KEY_KPPLUS, m), Some(Action::SpeedUp));
        assert_eq!(resolve(KEY_KPMINUS, m), Some(Action::SpeedDown));
        assert_eq!(resolve(KEY_KP0, m), Some(Action::HoldLeft));
        assert_eq!(resolve(KEY_KPDOT, m), Some(Action::Release));
        assert_eq!(resolve(KEY_KPENTER, m), Some(Action::CycleMode));
    }
}

#[test]
fn only_keypad_codes_are_consumed() {
    for k in KEYPAD {
        assert!(is_consumed(k));
        assert!(resolve(k, Mode::Movement).is_some());
    }
    // Main Enter, H, and the NumLock-off navigation codes (Up, Home, Left,
    // PageUp, Insert, Delete) are not consumed.
    for k in [KEY_ENTER, KEY_H, 103u16, 102, 105, 104, 110, 111, 0, 400] {
        assert!(!is_consumed(k));
        assert_eq!(resolve(k, Mode::Movement), None);
        assert_eq!(resolve(k, Mode::Scroll), None);
    }
}

#[test]
fn codes_agree_with_evdev() {
    assert_eq!(EV_KEY, EventType::KEY.0);
    assert_eq!(EV_REL, EventType::RELATIVE.0);
    let pairs = [
        (KEY_ENTER, KeyCode::KEY_ENTER),
        (KEY_H, KeyCode::KEY_H),
        (KEY_SPACE, KeyCode::KEY_SPACE),
        (KEY_KP0, KeyCode::KEY_KP0),
        (KEY_KP1, KeyCode::KEY_KP1),
        (KEY_KP2, KeyCode::KEY_KP2),
        (KEY_KP3, KeyCode::KEY_KP3),
        (KEY_KP4, KeyCode::KEY_KP4),
        (KEY_KP5, KeyCode::KEY_KP5),
        (KEY_KP6, KeyCode::KEY_KP6),
        (KEY_KP7, KeyCode::KEY_KP7),
        (KEY_KP8, KeyCode::KEY_KP8),
        (KEY_KP9, KeyCode::KEY_KP9),
        (KEY_KPDOT, KeyCode::KEY_KPDOT),
        (KEY_KPPLUS, KeyCode::KEY_KPPLUS),
        (KEY_KPMINUS, KeyCode::KEY_KPMINUS),
        (KEY_KPASTERISK, KeyCode::KEY_KPASTERISK),
        (KEY_KPSLASH, KeyCode::KEY_KPSLASH),
        (KEY_KPENTER, KeyCode::KEY_KPENTER),
        (KEY_LEFTMETA, KeyCode::KEY_LEFTMETA),
        (KEY_RIGHTMETA, KeyCode::KEY_RIGHTMETA),
        (BTN_LEFT, KeyCode::BTN_LEFT),
        (BTN_RIGHT, KeyCode::BTN_RIGHT),
        (BTN_MIDDLE, KeyCode::BTN_MIDDLE),
    ];
    for (mine, theirs) in pairs {
        assert_eq!(mine, theirs.code());
    }
    assert_eq!(REL_X, RelativeAxisCode::REL_X.0);
    assert_eq!(REL_Y, RelativeAxisCode::REL_Y.0);
    assert_eq!(REL_WHEEL, RelativeAxisCode::REL_WHEEL.0);
    assert_eq!(REL_HWHEEL, RelativeAxisCode::REL_HWHEEL.0);
}
