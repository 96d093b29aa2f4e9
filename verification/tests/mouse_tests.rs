use mousekeys::codes::{BTN_LEFT, BTN_MIDDLE, BTN_RIGHT, EV_KEY, EV_REL, REL_HWHEEL, REL_WHEEL, REL_X, REL_Y};
use mousekeys::event::{is_forwarded, synthetic, RawEvent};
use mousekeys::mouse::MouseCommand;

fn key(code: u16, value: i32) -> RawEvent {
    RawEvent { kind: EV_KEY, code, value }
}

fn rel(code: u16, value: i32) -> RawEvent {
    RawEvent { kind: EV_REL, code, value }
}

#[test]
fn clicks_are_two_frames() {
    assert_eq!(MouseCommand::LeftClick.frames(), vec![vec![key(BTN_LEFT, 1)], vec![key(BTN_LEFT, 0)]]);
    assert_eq!(
        MouseCommand::MiddleClick.frames(),
        vec![vec![key(BTN_MIDDLE, 1)], vec![key(BTN_MIDDLE, 0)]]
    );
    assert_eq!(
        MouseCommand::RightClick.frames(),
        vec![vec![key(BTN_RIGHT, 1)], vec![key(BTN_RIGHT, 0)]]
    );
}

#[test]
fn hold_and_release() {
    assert_eq!(MouseCommand::HoldLeft.frames(), vec![vec![key(BTN_LEFT, 1)]]);
    assert_eq!(MouseCommand::ReleaseLeft.frames(), vec![vec![key(BTN_LEFT, 0)]]);
    assert_eq!(
        MouseCommand::ReleaseAll.frames(),
        vec![vec![key(BTN_LEFT, 0), key(BTN_RIGHT, 0), key(BTN_MIDDLE, 0)]]
    );
}

#[test]
fn motion_skips_zero_axes() {
    assert_eq!(MouseCommand::MoveRel { dx: 20, dy: -20 }.frames(), vec![vec![rel(REL_X, 20), rel(REL_Y, -20)]]);
    assert_eq!(MouseCommand::MoveRel { dx: 0, dy: 8 }.frames(), vec![vec![rel(REL_Y, 8)]]);
    assert_eq!(MouseCommand::MoveRel { dx: -8, dy: 0 }.frames(), vec![vec![rel(REL_X, -8)]]);
    assert!(MouseCommand::MoveRel { dx: 0, dy: 0 }.frames().is_empty());
}

#[test]
fn scrolling() {
    assert_eq!(MouseCommand::ScrollV(3).frames(), vec![vec![rel(REL_WHEEL, 3)]]);
    assert_eq!(MouseCommand::ScrollH(-2).frames(), vec![vec![rel(REL_HWHEEL, -2)]]);
    assert!(MouseCommand::ScrollV(0).frames().is_empty());
    assert!(MouseCommand::ScrollH(0).frames().is_empty());
}

#[test]
fn forwarding_only_key_events() {
    assert!(is_forwarded(&key(30, 1)));
    assert!(!is_forwarded(&rel(REL_X, 1)));
    assert!(!is_forwarded(&RawEvent { kind: 4, code: 4, value: 30 }));
    assert_eq!(synthetic(125, 0), key(125, 0));
}
