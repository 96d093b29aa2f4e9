//! What the daemon does, stated over all inputs in plain numbers: the
//! kernel's key codes (`linux/input-event-codes.h`) and event types, and
//! the speeds of the state. Each law here is about the transitions that
//! [`crate::dispatch::plan_event`], [`crate::dispatch::commit_event`],
//! [`crate::keys::resolve`], [`crate::keys::is_consumed`] and
//! [`crate::mouse::MouseCommand::frames`] are bound to by their contracts.

use vstd::prelude::*;
use crate::dispatch::{event_outcome, event_step, ChordState, EffectView};
use crate::event::RawEvent;
use crate::keys::{consumed_key, resolved, Mode};
use crate::mouse::{command_frames, MouseCommand};
use crate::notify::{decimal, digit_char};
use crate::input::{looks_like_keyboard, DeviceCaps};
use crate::state::StateOp;
use crate::state::StateView;

verus! {

/// The sixteen dedicated keypad codes: `KEY_KPASTERISK` (55), `KEY_KP7`
/// through `KEY_KPDOT` (71..=83), `KEY_KPENTER` (96), `KEY_KPSLASH` (98).
pub open spec fn keypad_code(k: u16) -> bool {
    k == 55 || (71 <= k <= 83) || k == 96 || k == 98
}

/// A key event (`EV_KEY` = 1) with the given code and value.
pub open spec fn key(code: u16, value: i32) -> RawEvent {
    RawEvent { kind: 1, code, value }
}

/// Exactly the sixteen keypad codes are consumed, and only they resolve
/// to an action, in either mode; each of them has an action in movement
/// mode. While Mouse Keys is on, any other key (Super and H aside) is
/// re-emitted unchanged and changes nothing: a hyphen on the main row
/// (`KEY_MINUS`, 12) is typed, not taken as keypad minus.
pub proof fn law_only_keypad_consumed(k: u16, mode: Mode, value: i32, ch: ChordState, st: StateView)
    ensures
        consumed_key(k) <==> keypad_code(k),
        resolved(k, mode) is Some ==> keypad_code(k),
        keypad_code(k) ==> resolved(k, Mode::Movement) is Some,
        st.enabled && !keypad_code(k) && k != 125 && k != 126 && k != 35 ==> event_step(
            key(k, value),
            ch,
            st,
        ) == (ch, st, seq![EffectView::Forward(key(k, value))]),
{
}

/// `ev` leaves the chord tracking and state alone and has the single
/// effect `e`.
pub open spec fn only_effect(ev: RawEvent, ch: ChordState, st: StateView, e: EffectView) -> bool {
    event_step(ev, ch, st) == (ch, st, seq![e])
}

/// In movement mode a press or autorepeat of a motion key moves the
/// pointer by the current speed in the key's direction, in one motion:
/// keypad 8 up, 2 down, 4 left, 6 right, 7 up-left, 9 up-right, 1
/// down-left, 3 down-right (screen y grows downwards). Nothing else
/// changes.
pub proof fn law_motion_keys_move_by_speed(code: u16, value: i32, ch: ChordState, st: StateView)
    requires
        st.bounded(),
        st.enabled,
        st.mode == Mode::Movement,
        value == 1 || value == 2,
    ensures
        ({
            let s = st.speed as i32;
            let ns = (-s) as i32;
            &&& s > 0
            &&& code == 72 ==> only_effect(key(code, value), ch, st, EffectView::Mouse(MouseCommand::MoveRel { dx: 0, dy: ns }))
            &&& code == 80 ==> only_effect(key(code, value), ch, st, EffectView::Mouse(MouseCommand::MoveRel { dx: 0, dy: s }))
            &&& code == 75 ==> only_effect(key(code, value), ch, st, EffectView::Mouse(MouseCommand::MoveRel { dx: ns, dy: 0 }))
            &&& code == 77 ==> only_effect(key(code, value), ch, st, EffectView::Mouse(MouseCommand::MoveRel { dx: s, dy: 0 }))
            &&& code == 71 ==> only_effect(key(code, value), ch, st, EffectView::Mouse(MouseCommand::MoveRel { dx: ns, dy: ns }))
            &&& code == 73 ==> only_effect(key(code, value), ch, st, EffectView::Mouse(MouseCommand::MoveRel { dx: s, dy: ns }))
            &&& code == 79 ==> only_effect(key(code, value), ch, st, EffectView::Mouse(MouseCommand::MoveRel { dx: ns, dy: s }))
            &&& code == 81 ==> only_effect(key(code, value), ch, st, EffectView::Mouse(MouseCommand::MoveRel { dx: s, dy: s }))
        }),
{
    let s = st.speed as int;
    assert(0 * s == 0 && 1 * s == s && -1 * s == -s);
}

/// In scroll mode keypad 8 and 2 turn the wheel by the scroll speed (8
/// one way, 2 the other), keypad 4 and 6 the horizontal wheel (4 left, 6
/// right), and the diagonals do nothing.
pub proof fn law_scroll_keys_turn_wheel(code: u16, value: i32, ch: ChordState, st: StateView)
    requires
        st.bounded(),
        st.enabled,
        st.mode == Mode::Scroll,
        value == 1 || value == 2,
    ensures
        ({
            let t = st.scroll_speed as i32;
            let nt = (-t) as i32;
            &&& t > 0
            &&& code == 72 ==> only_effect(key(code, value), ch, st, EffectView::Mouse(MouseCommand::ScrollV(t)))
            &&& code == 80 ==> only_effect(key(code, value), ch, st, EffectView::Mouse(MouseCommand::ScrollV(nt)))
            &&& code == 75 ==> only_effect(key(code, value), ch, st, EffectView::Mouse(MouseCommand::ScrollH(nt)))
            &&& code == 77 ==> only_effect(key(code, value), ch, st, EffectView::Mouse(MouseCommand::ScrollH(t)))
            &&& (code == 71 || code == 73 || code == 79 || code == 81) ==> event_step(
                key(code, value),
                ch,
                st,
            ) == (ch, st, Seq::<EffectView>::empty())
        }),
{
    let t = st.scroll_speed as int;
    assert(0 * t == 0 && 1 * t == t && -1 * t == -t && -(-1) * t == t && -(1) * t == -t);
}

/// A press of keypad minus (74) lowers the speed of the current mode by
/// one step (4 px of motion, 1 wheel tick), never below its minimum (4,
/// 1), and never raises either speed; keypad plus (78) raises it by one
/// step, never above its maximum (200, 20), and never lowers either speed.
/// The other speed, the mode and the flags stay, and a notification
/// shows the new value.
pub proof fn law_speed_keys(ch: ChordState, st: StateView)
    requires
        st.bounded(),
        st.enabled,
    ensures
        ({
            let (ch_dn, dn, e_dn) = event_step(key(74, 1), ch, st);
            let (ch_up, up, e_up) = event_step(key(78, 1), ch, st);
            &&& ch_dn == ch && ch_up == ch
            &&& dn.speed <= st.speed && dn.scroll_speed <= st.scroll_speed
            &&& up.speed >= st.speed && up.scroll_speed >= st.scroll_speed
            &&& dn.enabled == st.enabled && dn.mode == st.mode && dn.left_held == st.left_held
            &&& up.enabled == st.enabled && up.mode == st.mode && up.left_held == st.left_held
            &&& st.mode == Mode::Movement ==> {
                &&& dn.speed == (if st.speed >= 8 {
                    st.speed - 4
                } else {
                    4
                }) && dn.scroll_speed == st.scroll_speed
                &&& up.speed == (if st.speed <= 196 {
                    st.speed + 4
                } else {
                    200
                }) && up.scroll_speed == st.scroll_speed
                &&& e_dn == seq![
                    EffectView::Notify("Mouse Keys"@, "speed: "@ + decimal(dn.speed as nat)),
                ]
                &&& e_up == seq![
                    EffectView::Notify("Mouse Keys"@, "speed: "@ + decimal(up.speed as nat)),
                ]
            }
            &&& st.mode == Mode::Scroll ==> {
                &&& dn.scroll_speed == (if st.scroll_speed >= 2 {
                    st.scroll_speed - 1
                } else {
                    1
                }) && dn.speed == st.speed
                &&& up.scroll_speed == (if st.scroll_speed <= 19 {
                    st.scroll_speed + 1
                } else {
                    20
                }) && up.speed == st.speed
                &&& e_dn == seq![
                    EffectView::Notify(
                        "Mouse Keys"@,
                        "scroll speed: "@ + decimal(dn.scroll_speed as nat),
                    ),
                ]
                &&& e_up == seq![
                    EffectView::Notify(
                        "Mouse Keys"@,
                        "scroll speed: "@ + decimal(up.scroll_speed as nat),
                    ),
                ]
            }
        }),
{
}

/// Releasing a Super key always marks it up (left Super 125, right Super
/// 126), whether or not a chord used it and however far the writes got;
/// the other Super key's mark stays.
pub proof fn law_super_release_clears(code: u16, ch: ChordState, st: StateView, done: int)
    requires
        code == 125 || code == 126,
    ensures
        ({
            let (ch2, _, _) = event_step(key(code, 0), ch, st);
            let (ch3, st3) = event_outcome(key(code, 0), ch, st, done);
            &&& code == 125 ==> !ch2.super_l && ch2.super_r == ch.super_r
            &&& code == 126 ==> !ch2.super_r && ch2.super_l == ch.super_l
            &&& ch3 == ch2 && st3 == st
        }),
{
}

/// A lone tap of a Super key (press, release) followed by H: the H press
/// is an ordinary key, re-emitted unchanged, and Mouse Keys stays as it
/// was.
pub proof fn law_lone_super_tap_then_h(code: u16, ch: ChordState, st: StateView)
    requires
        code == 125 || code == 126,
        !ch.super_l,
        !ch.super_r,
        !ch.h_swallowed,
    ensures
        ({
            let (ch1, st1, _) = event_step(key(code, 1), ch, st);
            let (ch2, st2, _) = event_step(key(code, 0), ch1, st1);
            let (ch3, st3, e3) = event_step(key(35, 1), ch2, st2);
            &&& e3 == seq![EffectView::Forward(key(35, 1))]
            &&& st3 == st
            &&& !ch3.super_l && !ch3.super_r
        }),
{
}

/// The virtual mouse writes exactly what was asked: a wheel turn of `t`
/// ticks is one frame with one `EV_REL` (2) event of value `t` on
/// `REL_WHEEL` (8) or `REL_HWHEEL` (6), up or down, left or right alike;
/// a motion writes `REL_X` (0) then `REL_Y` (1) with the requested
/// values, leaving out a zero axis; a click presses then releases its
/// button (`BTN_LEFT` 0x110, `BTN_RIGHT` 0x111, `BTN_MIDDLE` 0x112) in two
/// frames. Only a zero request writes nothing.
pub proof fn law_frames_write_request(t: i32, dx: i32, dy: i32)
    ensures
        t != 0 ==> command_frames(MouseCommand::ScrollV(t)) == seq![
            seq![RawEvent { kind: 2, code: 8, value: t }],
        ],
        t != 0 ==> command_frames(MouseCommand::ScrollH(t)) == seq![
            seq![RawEvent { kind: 2, code: 6, value: t }],
        ],
        command_frames(MouseCommand::ScrollV(0)).len() == 0,
        command_frames(MouseCommand::ScrollH(0)).len() == 0,
        dx != 0 && dy != 0 ==> command_frames(MouseCommand::MoveRel { dx, dy }) == seq![
            seq![RawEvent { kind: 2, code: 0, value: dx }, RawEvent { kind: 2, code: 1, value: dy }],
        ],
        dx != 0 ==> command_frames(MouseCommand::MoveRel { dx, dy: 0 }) == seq![
            seq![RawEvent { kind: 2, code: 0, value: dx }],
        ],
        dy != 0 ==> command_frames(MouseCommand::MoveRel { dx: 0, dy }) == seq![
            seq![RawEvent { kind: 2, code: 1, value: dy }],
        ],
        command_frames(MouseCommand::MoveRel { dx: 0, dy: 0 }).len() == 0,
        command_frames(MouseCommand::LeftClick) == seq![
            seq![RawEvent { kind: 1, code: 0x110, value: 1 }],
            seq![RawEvent { kind: 1, code: 0x110, value: 0 }],
        ],
        command_frames(MouseCommand::RightClick) == seq![
            seq![RawEvent { kind: 1, code: 0x111, value: 1 }],
            seq![RawEvent { kind: 1, code: 0x111, value: 0 }],
        ],
        command_frames(MouseCommand::MiddleClick) == seq![
            seq![RawEvent { kind: 1, code: 0x112, value: 1 }],
            seq![RawEvent { kind: 1, code: 0x112, value: 0 }],
        ],
        command_frames(MouseCommand::HoldLeft) == seq![
            seq![RawEvent { kind: 1, code: 0x110, value: 1 }],
        ],
        command_frames(MouseCommand::ReleaseLeft) == seq![
            seq![RawEvent { kind: 1, code: 0x110, value: 0 }],
        ],
{
    if dx != 0 && dy != 0 {
        assert(command_frames(MouseCommand::MoveRel { dx, dy })[0] =~= seq![
            RawEvent { kind: 2, code: 0, value: dx },
            RawEvent { kind: 2, code: 1, value: dy },
        ]);
    }
    if dx != 0 {
        assert(command_frames(MouseCommand::MoveRel { dx, dy: 0 })[0] =~= seq![
            RawEvent { kind: 2, code: 0, value: dx },
        ]);
    }
    if dy != 0 {
        assert(command_frames(MouseCommand::MoveRel { dx: 0, dy })[0] =~= seq![
            RawEvent { kind: 2, code: 1, value: dy },
        ]);
    }
}

/// The value of a string of decimal digits.
pub open spec fn numeral_value(s: Seq<char>) -> int
    decreases s.len(),
{
    if s.len() == 0 {
        0
    } else {
        10 * numeral_value(s.drop_last()) + (s.last() as int - 48)
    }
}

proof fn lemma_digit_char_value(d: nat)
    requires
        d < 10,
    ensures
        digit_char(d) as int == 48 + d,
{
    assert('0' as int == 48 && '1' as int == 49 && '2' as int == 50 && '3' as int == 51 && '4' as int
        == 52 && '5' as int == 53 && '6' as int == 54 && '7' as int == 55 && '8' as int == 56
        && '9' as int == 57);
}

/// Speeds are shown in decimal: the text of `n` is a non-empty string of
/// the digits '0'..='9', without a leading zero (but for 0 itself), whose
/// value is `n`.
pub proof fn law_decimal_is_value(n: nat)
    ensures
        decimal(n).len() >= 1,
        forall|i: int| 0 <= i < decimal(n).len() ==> '0' <= #[trigger] decimal(n)[i] <= '9',
        decimal(n)[0] == '0' ==> n == 0,
        numeral_value(decimal(n)) == n,
    decreases n,
{
    assert('0' as int == 48 && '1' as int == 49 && '2' as int == 50 && '3' as int == 51 && '4' as int
        == 52 && '5' as int == 53 && '6' as int == 54 && '7' as int == 55 && '8' as int == 56
        && '9' as int == 57);
    if n < 10 {
        lemma_digit_char_value(n);
        assert(decimal(n) == seq![digit_char(n)]);
        assert(decimal(n).drop_last() =~= Seq::<char>::empty());
        assert(numeral_value(Seq::<char>::empty()) == 0);
        assert(decimal(n).last() == digit_char(n));
        assert(numeral_value(decimal(n)) == 10 * numeral_value(decimal(n).drop_last()) + (
        decimal(n).last() as int - 48));
    } else {
        law_decimal_is_value(n / 10);
        lemma_digit_char_value(n % 10);
        let d = decimal(n / 10);
        let c = digit_char(n % 10);
        assert(decimal(n) == d.push(c));
        assert(d.push(c).drop_last() =~= d);
        assert(d.push(c)[0] == d[0]);
        assert forall|i: int| 0 <= i < decimal(n).len() implies '0' <= #[trigger] decimal(n)[i]
            <= '9' by {
            if i < d.len() {
                assert(decimal(n)[i] == d[i]);
            }
        }
        assert(n == 10 * (n / 10) + n % 10);
        assert(d.push(c).last() == c);
        assert(numeral_value(d.push(c)) == 10 * numeral_value(d.push(c).drop_last()) + (d.push(
            c,
        ).last() as int - 48));
    }
}

/// The keypad keys that do not move: 5 clicks left, `/` (98) middle, `*`
/// (55) right, 0 (82) presses and holds left, `.` (83) releases it, Enter
/// (96) switches mode and says which; each on the press edge.
pub proof fn law_button_keys(ch: ChordState, st: StateView)
    requires
        st.bounded(),
        st.enabled,
    ensures
        only_effect(key(76, 1), ch, st, EffectView::Mouse(MouseCommand::LeftClick)),
        only_effect(key(98, 1), ch, st, EffectView::Mouse(MouseCommand::MiddleClick)),
        only_effect(key(55, 1), ch, st, EffectView::Mouse(MouseCommand::RightClick)),
        event_step(key(82, 1), ch, st) == (
            ch,
            StateView { left_held: true, ..st },
            seq![EffectView::Mouse(MouseCommand::HoldLeft)],
        ),
        event_step(key(83, 1), ch, st) == (
            ch,
            StateView { left_held: false, ..st },
            seq![EffectView::Mouse(MouseCommand::ReleaseLeft)],
        ),
        st.mode == Mode::Movement ==> event_step(key(96, 1), ch, st) == (
            ch,
            StateView { mode: Mode::Scroll, ..st },
            seq![EffectView::Notify("Mouse Keys"@, "mode: scroll"@)],
        ),
        st.mode == Mode::Scroll ==> event_step(key(96, 1), ch, st) == (
            ch,
            StateView { mode: Mode::Movement, ..st },
            seq![EffectView::Notify("Mouse Keys"@, "mode: movement"@)],
        ),
{
    reveal_strlit("mode: ");
    reveal_strlit("scroll");
    reveal_strlit("movement");
    reveal_strlit("mode: scroll");
    reveal_strlit("mode: movement");
    assert("mode: "@ + "scroll"@ =~= "mode: scroll"@);
    assert("mode: "@ + "movement"@ =~= "mode: movement"@);
}

/// Super+H with left Super held: the shell is told first, a release of
/// left Super (125) is forwarded, and Mouse Keys turns on with
/// "ACTIVATED — press Super+H to deactivate", or turns off, releasing a
/// held left button first, with "DEACTIVATED". Both the H release and the
/// real Super release that follow are swallowed afterwards.
pub proof fn law_chord_with_left_super(ch: ChordState, st: StateView)
    requires
        ch.super_l,
        !ch.super_r,
    ensures
        !st.enabled ==> event_step(key(35, 1), ch, st).2 == seq![
            EffectView::InterruptOverview,
            EffectView::Forward(key(125, 0)),
            EffectView::Notify("Mouse Keys"@, "ACTIVATED — press Super+H to deactivate"@),
        ],
        st.enabled && st.left_held ==> event_step(key(35, 1), ch, st).2 == seq![
            EffectView::InterruptOverview,
            EffectView::Forward(key(125, 0)),
            EffectView::Mouse(MouseCommand::ReleaseLeft),
            EffectView::Notify("Mouse Keys"@, "DEACTIVATED"@),
        ],
        st.enabled && !st.left_held ==> event_step(key(35, 1), ch, st).2 == seq![
            EffectView::InterruptOverview,
            EffectView::Forward(key(125, 0)),
            EffectView::Notify("Mouse Keys"@, "DEACTIVATED"@),
        ],
        event_step(key(35, 1), ch, st).1.enabled == !st.enabled,
        ({
            let (ch1, st1, _) = event_step(key(35, 1), ch, st);
            let (ch2, st2, e2) = event_step(key(35, 0), ch1, st1);
            let (ch3, st3, e3) = event_step(key(125, 0), ch2, st2);
            &&& e2.len() == 0 && e3.len() == 0
            &&& st3 == st1
            &&& !ch3.super_l && !ch3.super_consumed && !ch3.h_swallowed
        }),
{
}

/// The state's numbers: a fresh state is off, in movement mode, at speed
/// 20 and scroll speed 1, with no button held; the motion speed is set
/// within 4..=200 and steps by 4, the scroll speed steps by 1 within
/// 1..=20; the startup options take a speed only within 4..=200.
pub proof fn law_state_numbers(st: StateView, v: u32, e: bool)
    ensures
        StateView::initial() == (StateView {
            enabled: false,
            mode: Mode::Movement,
            speed: 20,
            scroll_speed: 1,
            left_held: false,
        }),
        st.bounded() <==> (4 <= st.speed <= 200 && 1 <= st.scroll_speed <= 20),
        st.after(StateOp::SetSpeed(v)).speed == (if v < 4 {
            4
        } else if v > 200 {
            200
        } else {
            v
        }),
        st.bounded() ==> st.after(StateOp::SpeedUp).speed == (if st.speed + 4 > 200 {
            200
        } else {
            st.speed + 4
        }),
        st.bounded() ==> st.after(StateOp::SpeedDown).speed == (if st.speed < 8 {
            4
        } else {
            st.speed - 4
        }),
        st.bounded() ==> st.after(StateOp::ScrollSpeedUp).scroll_speed == (if st.scroll_speed
            == 20 {
            20
        } else {
            st.scroll_speed + 1
        }),
        st.bounded() ==> st.after(StateOp::ScrollSpeedDown).scroll_speed == (if st.scroll_speed
            == 1 {
            1
        } else {
            st.scroll_speed - 1
        }),
        st.after(StateOp::ApplyOptions(e, v)) == (StateView {
            enabled: e,
            speed: if 4 <= v <= 200 {
                v
            } else {
                st.speed
            },
            ..st
        }),
{
}

/// A device is taken for a keyboard exactly when it reports key events,
/// supports Enter (28) or Space (57), and has neither relative axis X (0)
/// nor Y (1).
pub proof fn law_keyboard_heuristic(caps: DeviceCaps)
    ensures
        looks_like_keyboard(caps) <==> {
            &&& caps.supports_key_events
            &&& caps.keys is Some
            &&& (caps.keys.unwrap()@.contains(28u16) || caps.keys.unwrap()@.contains(57u16))
            &&& !(caps.relative_axes is Some && (caps.relative_axes.unwrap()@.contains(0u16)
                || caps.relative_axes.unwrap()@.contains(1u16)))
        },
{
}

/// Releasing every button writes one frame releasing left, right and
/// middle.
pub proof fn law_release_all()
    ensures
        command_frames(MouseCommand::ReleaseAll) == seq![
            seq![
                RawEvent { kind: 1, code: 0x110, value: 0 },
                RawEvent { kind: 1, code: 0x111, value: 0 },
                RawEvent { kind: 1, code: 0x112, value: 0 },
            ],
        ],
{
}

} // verus!
