use mousekeys::keys::Mode;
use mousekeys::state::{
    State, SCROLL_INITIAL, SCROLL_MAX, SCROLL_MIN, SPEED_INITIAL, SPEED_MAX, SPEED_MIN,
};

#[test]
fn fresh_state() {
    let s = State::default();
    assert!(!s.enabled());
    assert_eq!(s.mode(), Mode::Movement);
    assert_eq!(s.speed(), 20);
    assert_eq!(s.scroll_speed(), 1);
    assert!(!s.left_held());
    assert_eq!(SPEED_INITIAL, 20);
    assert_eq!(SCROLL_INITIAL, 1);
}

#[test]
fn set_speed_clamps() {
    let mut s = State::default();
    assert_eq!(s.set_speed(0), 4);
    assert_eq!(s.speed(), 4);
    assert_eq!(s.set_speed(1000), 200);
    assert_eq!(s.speed(), 200);
    assert_eq!(s.set_speed(57), 57);
    assert_eq!(s.speed(), 57);
    assert_eq!(s.set_speed(u32::MAX), 200);
}

#[test]
fn speed_steps_of_four_clamped() {
    let mut s = State::default();
    assert_eq!(s.speed_up(), 24);
    assert_eq!(s.speed_down(), 20);
    s.set_speed(198);
    assert_eq!(s.speed_up(), 200);
    assert_eq!(s.speed_up(), 200);
    s.set_speed(6);
    assert_eq!(s.speed_down(), 4);
    assert_eq!(s.speed_down(), 4);
    assert_eq!(s.speed(), SPEED_MIN as i32);
    for _ in 0..100 {
        s.speed_up();
    }
    assert_eq!(s.speed(), SPEED_MAX as i32);
}

#[test]
fn scroll_speed_steps_of_one_clamped() {
    let mut s = State::default();
    assert_eq!(s.scroll_speed_down(), 1);
    assert_eq!(s.scroll_speed_up(), 2);
    for _ in 0..50 {
        s.scroll_speed_up();
    }
    assert_eq!(s.scroll_speed(), SCROLL_MAX as i32);
    assert_eq!(s.scroll_speed_down(), 19);
    for _ in 0..50 {
        s.scroll_speed_down();
    }
    assert_eq!(s.scroll_speed(), SCROLL_MIN as i32);
}

#[test]
fn speed_up_then_down_undoes() {
    let mut s = State::default();
    for v in [4u32, 5, 100, 196] {
        s.set_speed(v);
        s.speed_up();
        assert_eq!(s.speed_down(), v);
    }
    // Cut at the bound: 197 -> 200 -> 196.
    s.set_speed(197);
    s.speed_up();
    assert_eq!(s.speed_down(), 196);
}

#[test]
fn toggle_mode_flips_and_returns_new_mode() {
    let mut s = State::default();
    assert_eq!(s.toggle_mode(), Mode::Scroll);
    assert_eq!(s.mode(), Mode::Scroll);
    assert_eq!(s.toggle_mode(), Mode::Movement);
    assert_eq!(s.mode(), Mode::Movement);
}

#[test]
fn flags() {
    let mut s = State::default();
    s.set_enabled(true);
    assert!(s.enabled());
    s.set_left_held(true);
    assert!(s.left_held());
    s.set_left_held(false);
    assert!(!s.left_held());
    s.set_enabled(false);
    assert!(!s.enabled());
}

#[test]
fn startup_options() {
    let mut s = State::default();
    assert!(s.apply_options(true, 40));
    assert!(s.enabled());
    assert_eq!(s.speed(), 40);
    assert!(!s.apply_options(false, 3));
    assert!(!s.enabled());
    assert_eq!(s.speed(), 40);
    assert!(!s.apply_options(false, 201));
    assert_eq!(s.speed(), 40);
    assert!(s.apply_options(false, 200));
    assert_eq!(s.speed(), 200);
}

#[test]
fn enabled_survives_other_changes() {
    let mut s = State::default();
    s.set_enabled(true);
    s.toggle_mode();
    s.set_speed(100);
    s.speed_up();
    s.scroll_speed_down();
    s.set_left_held(true);
    s.speed_down();
    assert!(s.enabled());
}

#[test]
fn left_held_survives_other_changes() {
    let mut s = State::default();
    s.set_left_held(true);
    s.set_enabled(false);
    s.toggle_mode();
    s.scroll_speed_up();
    s.apply_options(true, 12);
    s.speed_up();
    assert!(s.left_held());
}

#[test]
fn mode_follows_toggle_parity() {
    let mut s = State::default();
    for n in 1..=7 {
        s.toggle_mode();
        s.speed_up();
        s.set_enabled(n % 3 == 0);
        s.set_left_held(n % 2 == 0);
        let expected = if n % 2 == 1 { Mode::Scroll } else { Mode::Movement };
        assert_eq!(s.mode(), expected);
    }
}
