use mousekeys::codes::{
    EV_KEY, EV_REL, KEY_H, KEY_KP0, KEY_KP2, KEY_KP4, KEY_KP5, KEY_KP6, KEY_KP7, KEY_KP8,
    KEY_KPDOT, KEY_KPENTER, KEY_KPMINUS, KEY_KPPLUS, KEY_LEFTMETA, KEY_RIGHTMETA,
};
use mousekeys::dispatch::{commit_event, plan_event, ChordState, Effect};
use mousekeys::event::RawEvent;
use mousekeys::keys::Mode;
use mousekeys::mouse::MouseCommand;
use mousekeys::state::State;

/// Plan an event, pretend every write succeeds, and commit it.
fn handle_event(ev: &RawEvent, ch: &mut ChordState, st: &mut State) -> Vec<Effect> {
    let effects = plan_event(ev, ch, st);
    commit_event(ev, ch, st, effects.len());
    effects
}

fn key(code: u16, value: i32) -> RawEvent {
    RawEvent { kind: EV_KEY, code, value }
}

fn is_forward(effects: &[Effect], ev: RawEvent) -> bool {
    effects.len() == 1 && matches!(effects[0], Effect::Forward(e) if e == ev)
}

/// Press Super and then H; returns the effects of the H press.
fn chord(ch: &mut ChordState, st: &mut State) -> Vec<Effect> {
    let e = handle_event(&key(KEY_LEFTMETA, 1), ch, st);
    assert!(is_forward(&e, key(KEY_LEFTMETA, 1)));
    handle_event(&key(KEY_H, 1), ch, st)
}

#[test]
fn chord_state_starts_clear() {
    let ch = ChordState::new();
    assert!(!ch.super_l && !ch.super_r && !ch.super_consumed && !ch.h_swallowed);
}

#[test]
fn super_h_enables_and_swallows() {
    let mut ch = ChordState::new();
    let mut st = State::default();
    let e = chord(&mut ch, &mut st);
    assert!(st.enabled());
    assert_eq!(e.len(), 3);
    assert!(matches!(e[0], Effect::InterruptOverview));
    assert!(matches!(e[1], Effect::Forward(ev) if ev == key(KEY_LEFTMETA, 0)));
    match &e[2] {
        Effect::Notify(n) => assert_eq!(n.body, "ACTIVATED — press Super+H to deactivate"),
        other => panic!("unexpected {:?}", other),
    }
    // H autorepeat and release are swallowed.
    assert!(handle_event(&key(KEY_H, 2), &mut ch, &mut st).is_empty());
    assert!(handle_event(&key(KEY_H, 0), &mut ch, &mut st).is_empty());
    // The real Super release is swallowed once.
    assert!(handle_event(&key(KEY_LEFTMETA, 0), &mut ch, &mut st).is_empty());
    assert!(!ch.super_consumed);
    // A later H is an ordinary key again.
    assert!(is_forward(&handle_event(&key(KEY_H, 1), &mut ch, &mut st), key(KEY_H, 1)));
}

#[test]
fn lone_super_and_plain_h_forwarded() {
    let mut ch = ChordState::new();
    let mut st = State::default();
    for ev in [key(KEY_RIGHTMETA, 1), key(KEY_RIGHTMETA, 2), key(KEY_RIGHTMETA, 0), key(KEY_H, 1), key(KEY_H, 0)] {
        assert!(is_forward(&handle_event(&ev, &mut ch, &mut st), ev));
    }
    assert!(!st.enabled());
}

#[test]
fn right_super_chord_releases_right_super() {
    let mut ch = ChordState::new();
    let mut st = State::default();
    handle_event(&key(KEY_RIGHTMETA, 1), &mut ch, &mut st);
    let e = handle_event(&key(KEY_H, 1), &mut ch, &mut st);
    assert!(matches!(e[1], Effect::Forward(ev) if ev == key(KEY_RIGHTMETA, 0)));
    assert_eq!(e.len(), 3);
}

#[test]
fn keypad_is_plain_while_disabled() {
    let mut ch = ChordState::new();
    let mut st = State::default();
    for code in [KEY_KP5, KEY_KP8, KEY_KPENTER, KEY_KPPLUS] {
        let ev = key(code, 1);
        assert!(is_forward(&handle_event(&ev, &mut ch, &mut st), ev));
    }
    assert_eq!(st.speed(), 20);
    assert_eq!(st.mode(), Mode::Movement);
}

#[test]
fn non_key_events_ignored() {
    let mut ch = ChordState::new();
    let mut st = State::default();
    let ev = RawEvent { kind: EV_REL, code: 0, value: 5 };
    assert!(handle_event(&ev, &mut ch, &mut st).is_empty());
    let syn = RawEvent { kind: 0, code: 0, value: 0 };
    assert!(handle_event(&syn, &mut ch, &mut st).is_empty());
}

fn enabled() -> (ChordState, State) {
    let ch = ChordState::new();
    let mut st = State::default();
    st.set_enabled(true);
    (ch, st)
}

#[test]
fn movement_on_press_and_repeat_only() {
    let (mut ch, mut st) = enabled();
    for value in [1, 2] {
        let e = handle_event(&key(KEY_KP8, value), &mut ch, &mut st);
        assert!(matches!(e[..], [Effect::Mouse(MouseCommand::MoveRel { dx: 0, dy: -20 })]));
    }
    assert!(handle_event(&key(KEY_KP8, 0), &mut ch, &mut st).is_empty());
    let e = handle_event(&key(KEY_KP7, 1), &mut ch, &mut st);
    assert!(matches!(e[..], [Effect::Mouse(MouseCommand::MoveRel { dx: -20, dy: -20 })]));
}

#[test]
fn clicks_on_press_edge_only() {
    let (mut ch, mut st) = enabled();
    let e = handle_event(&key(KEY_KP5, 1), &mut ch, &mut st);
    assert!(matches!(e[..], [Effect::Mouse(MouseCommand::LeftClick)]));
    assert!(handle_event(&key(KEY_KP5, 2), &mut ch, &mut st).is_empty());
    assert!(handle_event(&key(KEY_KP5, 0), &mut ch, &mut st).is_empty());
}

#[test]
fn speed_keys_step_and_notify() {
    let (mut ch, mut st) = enabled();
    let e = handle_event(&key(KEY_KPPLUS, 1), &mut ch, &mut st);
    assert_eq!(st.speed(), 24);
    match &e[..] {
        [Effect::Notify(n)] => assert_eq!(n.body, "speed: 24"),
        other => panic!("unexpected {:?}", other),
    }
    handle_event(&key(KEY_KPMINUS, 1), &mut ch, &mut st);
    handle_event(&key(KEY_KPMINUS, 1), &mut ch, &mut st);
    assert_eq!(st.speed(), 16);
}

#[test]
fn scroll_mode() {
    let (mut ch, mut st) = enabled();
    let e = handle_event(&key(KEY_KPENTER, 1), &mut ch, &mut st);
    assert_eq!(st.mode(), Mode::Scroll);
    match &e[..] {
        [Effect::Notify(n)] => assert_eq!(n.body, "mode: scroll"),
        other => panic!("unexpected {:?}", other),
    }
    let e = handle_event(&key(KEY_KP8, 1), &mut ch, &mut st);
    assert!(matches!(e[..], [Effect::Mouse(MouseCommand::ScrollV(1))]));
    let e = handle_event(&key(KEY_KP2, 1), &mut ch, &mut st);
    assert!(matches!(e[..], [Effect::Mouse(MouseCommand::ScrollV(-1))]));
    let e = handle_event(&key(KEY_KP6, 1), &mut ch, &mut st);
    assert!(matches!(e[..], [Effect::Mouse(MouseCommand::ScrollH(1))]));
    let e = handle_event(&key(KEY_KP4, 2), &mut ch, &mut st);
    assert!(matches!(e[..], [Effect::Mouse(MouseCommand::ScrollH(-1))]));
    // Diagonals are swallowed and do nothing.
    assert!(handle_event(&key(KEY_KP7, 1), &mut ch, &mut st).is_empty());
    // Speed keys change the scroll speed.
    let e = handle_event(&key(KEY_KPPLUS, 1), &mut ch, &mut st);
    assert_eq!(st.scroll_speed(), 2);
    assert_eq!(st.speed(), 20);
    match &e[..] {
        [Effect::Notify(n)] => assert_eq!(n.body, "scroll speed: 2"),
        other => panic!("unexpected {:?}", other),
    }
    let e = handle_event(&key(KEY_KP8, 1), &mut ch, &mut st);
    assert!(matches!(e[..], [Effect::Mouse(MouseCommand::ScrollV(2))]));
    handle_event(&key(KEY_KPENTER, 1), &mut ch, &mut st);
    assert_eq!(st.mode(), Mode::Movement);
}

#[test]
fn hold_then_disable_releases_button() {
    let (mut ch, mut st) = enabled();
    let e = handle_event(&key(KEY_KP0, 1), &mut ch, &mut st);
    assert!(matches!(e[..], [Effect::Mouse(MouseCommand::HoldLeft)]));
    assert!(st.left_held());
    let e = chord(&mut ch, &mut st);
    assert!(!st.enabled());
    assert!(!st.left_held());
    assert_eq!(e.len(), 4);
    assert!(matches!(e[2], Effect::Mouse(MouseCommand::ReleaseLeft)));
    match &e[3] {
        Effect::Notify(n) => assert_eq!(n.body, "DEACTIVATED"),
        other => panic!("unexpected {:?}", other),
    }
}

#[test]
fn release_key_drops_the_hold() {
    let (mut ch, mut st) = enabled();
    handle_event(&key(KEY_KP0, 1), &mut ch, &mut st);
    let e = handle_event(&key(KEY_KPDOT, 1), &mut ch, &mut st);
    assert!(matches!(e[..], [Effect::Mouse(MouseCommand::ReleaseLeft)]));
    assert!(!st.left_held());
}

#[test]
fn other_keys_forwarded_while_enabled() {
    let (mut ch, mut st) = enabled();
    for code in [30u16, 103, 28, 1] {
        let ev = key(code, 1);
        assert!(is_forward(&handle_event(&ev, &mut ch, &mut st), ev));
    }
}

#[test]
fn chord_twice_restores() {
    let mut ch = ChordState::new();
    let mut st = State::default();
    chord(&mut ch, &mut st);
    assert!(st.enabled());
    handle_event(&key(KEY_H, 0), &mut ch, &mut st);
    let e = handle_event(&key(KEY_H, 1), &mut ch, &mut st);
    assert!(!st.enabled());
    assert!(matches!(e[0], Effect::InterruptOverview));
}

#[test]
fn plan_leaves_state_alone() {
    let (ch, st) = enabled();
    let e = plan_event(&key(KEY_KPPLUS, 1), &ch, &st);
    assert_eq!(e.len(), 1);
    assert_eq!(st.speed(), 20);
    let e = plan_event(&key(KEY_KPENTER, 1), &ch, &st);
    match &e[..] {
        [Effect::Notify(n)] => assert_eq!(n.body, "mode: scroll"),
        other => panic!("unexpected {:?}", other),
    }
    assert_eq!(st.mode(), Mode::Movement);
}

#[test]
fn failed_synthetic_release_changes_nothing() {
    let mut ch = ChordState::new();
    let mut st = State::default();
    handle_event(&key(KEY_LEFTMETA, 1), &mut ch, &mut st);
    let ev = key(KEY_H, 1);
    let e = plan_event(&ev, &ch, &st);
    assert!(matches!(e[1], Effect::Forward(_)));
    // The synthetic Super release (effect 1) failed.
    commit_event(&ev, &mut ch, &mut st, 1);
    assert!(!st.enabled());
    assert!(!ch.super_consumed && !ch.h_swallowed && ch.super_l);
    // The H release is then forwarded like any key.
    let rel = key(KEY_H, 0);
    assert!(is_forward(&handle_event(&rel, &mut ch, &mut st), rel));
}

#[test]
fn failed_button_release_keeps_button_held() {
    let (mut ch, mut st) = enabled();
    handle_event(&key(KEY_KP0, 1), &mut ch, &mut st);
    handle_event(&key(KEY_LEFTMETA, 1), &mut ch, &mut st);
    let ev = key(KEY_H, 1);
    let e = plan_event(&ev, &ch, &st);
    assert_eq!(e.len(), 4);
    assert!(matches!(e[2], Effect::Mouse(MouseCommand::ReleaseLeft)));
    // The button release (effect 2) failed.
    commit_event(&ev, &mut ch, &mut st, 2);
    assert!(!st.enabled());
    assert!(st.left_held());
    assert!(ch.super_consumed && ch.h_swallowed);
}

#[test]
fn failed_write_elsewhere_keeps_changes() {
    let (mut ch, mut st) = enabled();
    let ev = key(KEY_KP0, 1);
    commit_event(&ev, &mut ch, &mut st, 0);
    assert!(st.left_held());
    let ev = key(KEY_LEFTMETA, 1);
    commit_event(&ev, &mut ch, &mut st, 0);
    assert!(ch.super_l);
}
