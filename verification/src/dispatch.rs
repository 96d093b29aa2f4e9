//! The decisions of the event loop: for every key event read from a
//! physical keyboard, what the daemon does.
//!
//! Super is always forwarded at once, so Super+drag and a lone Super tap
//! keep working. Super+H toggles Mouse Keys: the H press and its release
//! are swallowed, a synthetic Super release is forwarded so the compositor
//! sees Super go up, and the real Super release that follows is swallowed.
//! While Mouse Keys is enabled, the keypad keys are consumed and turned into
//! mouse actions; every other key is re-emitted unchanged on the virtual
//! keyboard. Turning Mouse Keys off releases a held button, so the pointer
//! is never left stuck mid-drag.
//!
//! [`plan_event`] takes the event and the current state and returns the
//! outside effects, in the order in which the program around the library
//! performs them; [`commit_event`] then applies the state changes, as far
//! as the writes among those effects succeeded.

use vstd::prelude::*;
use crate::codes::{EV_KEY, KEY_H, KEY_LEFTMETA, KEY_RIGHTMETA};
use crate::event::{key_event, synthetic, RawEvent};
use crate::keys::{consumed_key, is_consumed, resolve, resolved, Action, Mode};
use crate::mouse::MouseCommand;
use crate::notify::{
    app_title, mode_body, mode_change, scroll_speed_body, scroll_speed_change, speed_body,
    speed_change, toggle, toggle_body, Notice,
};
use crate::state::{
    scroll_stepped_down, scroll_stepped_up, speed_stepped_down, speed_stepped_up, State,
    StateView, SCROLL_MAX, SCROLL_MIN, SCROLL_STEP, SPEED_MAX, SPEED_MIN, SPEED_STEP,
};

verus! {

/// Super+H chord tracking.
#[derive(Debug, Clone, Copy, PartialEq, Eq, Structural)]
pub struct ChordState {
    /// Left Super is down.
    pub super_l: bool,
    /// Right Super is down.
    pub super_r: bool,
    /// Super was used by Super+H: its real release must be swallowed (a
    /// synthetic one was forwarded already).
    pub super_consumed: bool,
    /// H was used by Super+H: its release (and autorepeat) must be
    /// swallowed.
    pub h_swallowed: bool,
}

impl ChordState {
    /// The chord state at startup: nothing held, nothing to swallow.
    pub open spec fn initial() -> ChordState {
        ChordState { super_l: false, super_r: false, super_consumed: false, h_swallowed: false }
    }

    pub fn new() -> (ch: ChordState)
        ensures
            ch == ChordState::initial(),
    {
        ChordState { super_l: false, super_r: false, super_consumed: false, h_swallowed: false }
    }
}

/// One outside effect of handling an event.
#[derive(Debug)]
pub enum Effect {
    /// Re-emit this key event on the virtual keyboard.
    Forward(RawEvent),
    /// Ask the desktop shell not to open its overview on the coming Super
    /// release (best effort; a failure is ignored).
    InterruptOverview,
    /// Drive the virtual mouse.
    Mouse(MouseCommand),
    /// Show a desktop notification (best effort).
    Notify(Notice),
}

/// The abstract value of an [`Effect`].
pub enum EffectView {
    Forward(RawEvent),
    InterruptOverview,
    Mouse(MouseCommand),
    Notify(Seq<char>, Seq<char>),
}

impl View for Effect {
    type V = EffectView;

    open spec fn view(&self) -> EffectView {
        match self {
            Effect::Forward(ev) => EffectView::Forward(*ev),
            Effect::InterruptOverview => EffectView::InterruptOverview,
            Effect::Mouse(cmd) => EffectView::Mouse(*cmd),
            Effect::Notify(n) => EffectView::Notify(n.summary@, n.body@),
        }
    }
}

/// The effects of `effects`, each by its view.
pub open spec fn effects_view(effects: Seq<Effect>) -> Seq<EffectView> {
    effects.map_values(|e: Effect| e@)
}

/// A notification of the daemon with the given body.
pub open spec fn notice(body: Seq<char>) -> EffectView {
    EffectView::Notify(app_title(), body)
}

/// What a keypad action does on an event with `value` (0 release,
/// 1 press, 2 autorepeat): the new state and the effects. Motion acts on
/// press and autorepeat; everything else acts on the press edge only.
pub open spec fn action_step(action: Action, value: i32, st: StateView) -> (
    StateView,
    Seq<EffectView>,
) {
    let press = value == 1;
    let repeat = value == 2;
    match action {
        Action::Move { dx, dy } => if press || repeat {
            match st.mode {
                Mode::Movement => (
                    st,
                    seq![
                        EffectView::Mouse(
                            MouseCommand::MoveRel {
                                dx: (dx * st.speed) as i32,
                                dy: (dy * st.speed) as i32,
                            },
                        ),
                    ],
                ),
                Mode::Scroll => (
                    st,
                    (if dy != 0 {
                        seq![EffectView::Mouse(MouseCommand::ScrollV((-dy * st.scroll_speed) as i32))]
                    } else {
                        Seq::empty()
                    }) + (if dx != 0 {
                        seq![EffectView::Mouse(MouseCommand::ScrollH((dx * st.scroll_speed) as i32))]
                    } else {
                        Seq::empty()
                    }),
                ),
            }
        } else {
            (st, Seq::empty())
        },
        Action::LeftClick => if press {
            (st, seq![EffectView::Mouse(MouseCommand::LeftClick)])
        } else {
            (st, Seq::empty())
        },
        Action::MiddleClick => if press {
            (st, seq![EffectView::Mouse(MouseCommand::MiddleClick)])
        } else {
            (st, Seq::empty())
        },
        Action::RightClick => if press {
            (st, seq![EffectView::Mouse(MouseCommand::RightClick)])
        } else {
            (st, Seq::empty())
        },
        Action::HoldLeft => if press {
            (StateView { left_held: true, ..st }, seq![EffectView::Mouse(MouseCommand::HoldLeft)])
        } else {
            (st, Seq::empty())
        },
        Action::Release => if press {
            (
                StateView { left_held: false, ..st },
                seq![EffectView::Mouse(MouseCommand::ReleaseLeft)],
            )
        } else {
            (st, Seq::empty())
        },
        Action::SpeedUp => if press {
            match st.mode {
                Mode::Movement => {
                    let n = speed_stepped_up(st.speed as int);
                    (StateView { speed: n as u32, ..st }, seq![notice(speed_body(n as nat))])
                },
                Mode::Scroll => {
                    let n = scroll_stepped_up(st.scroll_speed as int);
                    (
                        StateView { scroll_speed: n as u32, ..st },
                        seq![notice(scroll_speed_body(n as nat))],
                    )
                },
            }
        } else {
            (st, Seq::empty())
        },
        Action::SpeedDown => if press {
            match st.mode {
                Mode::Movement => {
                    let n = speed_stepped_down(st.speed as int);
                    (StateView { speed: n as u32, ..st }, seq![notice(speed_body(n as nat))])
                },
                Mode::Scroll => {
                    let n = scroll_stepped_down(st.scroll_speed as int);
                    (
                        StateView { scroll_speed: n as u32, ..st },
                        seq![notice(scroll_speed_body(n as nat))],
                    )
                },
            }
        } else {
            (st, Seq::empty())
        },
        Action::CycleMode => if press {
            let m = st.mode.toggled();
            (StateView { mode: m, ..st }, seq![notice(mode_body(m))])
        } else {
            (st, Seq::empty())
        },
    }
}

/// What Super+H does: tell the shell to ignore the coming Super release,
/// forward a synthetic release of each Super key that is down, remember to
/// swallow the real Super release and the H release, and flip the enabled
/// flag. Turning off releases a held left button first.
pub open spec fn chord_step(ch: ChordState, st: StateView) -> (
    ChordState,
    StateView,
    Seq<EffectView>,
) {
    let releases = seq![EffectView::InterruptOverview] + (if ch.super_l {
        seq![EffectView::Forward(key_event(KEY_LEFTMETA, 0))]
    } else {
        Seq::empty()
    }) + (if ch.super_r {
        seq![EffectView::Forward(key_event(KEY_RIGHTMETA, 0))]
    } else {
        Seq::empty()
    });
    let ch2 = ChordState { super_consumed: true, h_swallowed: true, ..ch };
    if !st.enabled {
        (ch2, StateView { enabled: true, ..st }, releases.push(notice(toggle_body(true))))
    } else {
        (
            ch2,
            StateView { enabled: false, left_held: false, ..st },
            releases + (if st.left_held {
                seq![EffectView::Mouse(MouseCommand::ReleaseLeft)]
            } else {
                Seq::empty()
            }) + seq![notice(toggle_body(false))],
        )
    }
}

/// The full transition on one input event `ev`: new chord state, new
/// state, and the effects in order.
pub open spec fn event_step(ev: RawEvent, ch: ChordState, st: StateView) -> (
    ChordState,
    StateView,
    Seq<EffectView>,
) {
    let forward = seq![EffectView::Forward(ev)];
    if ev.kind != EV_KEY {
        (ch, st, Seq::empty())
    } else if ev.code == KEY_LEFTMETA || ev.code == KEY_RIGHTMETA {
        let left = ev.code == KEY_LEFTMETA;
        if ev.value == 1 {
            let ch2 = if left {
                ChordState { super_l: true, ..ch }
            } else {
                ChordState { super_r: true, ..ch }
            };
            (ch2, st, forward)
        } else if ev.value == 0 {
            let ch2 = if left {
                ChordState { super_l: false, ..ch }
            } else {
                ChordState { super_r: false, ..ch }
            };
            if ch.super_consumed {
                (ChordState { super_consumed: false, ..ch2 }, st, Seq::empty())
            } else {
                (ch2, st, forward)
            }
        } else {
            (ch, st, forward)
        }
    } else if ev.code == KEY_H {
        if ev.value == 1 && (ch.super_l || ch.super_r) {
            chord_step(ch, st)
        } else if ev.value == 0 && ch.h_swallowed {
            (ChordState { h_swallowed: false, ..ch }, st, Seq::empty())
        } else if ev.value == 2 && ch.h_swallowed {
            (ch, st, Seq::empty())
        } else {
            (ch, st, forward)
        }
    } else if st.enabled && consumed_key(ev.code) {
        match resolved(ev.code, st.mode) {
            Some(action) => {
                let (st2, effects) = action_step(action, ev.value, st);
                (ch, st2, effects)
            },
            None => (ch, st, Seq::empty()),
        }
    } else {
        (ch, st, forward)
    }
}

/// An H press while a Super key is down: the Super+H chord.
pub open spec fn is_chord_press(ev: RawEvent, ch: ChordState) -> bool {
    ev.kind == EV_KEY && ev.code == KEY_H && ev.value == 1 && (ch.super_l || ch.super_r)
}

/// How many synthetic Super releases a chord forwards.
pub open spec fn chord_forwards(ch: ChordState) -> int {
    (if ch.super_l {
        1int
    } else {
        0int
    }) + (if ch.super_r {
        1int
    } else {
        0int
    })
}

/// The chord tracking and state after `ev` when the first `done` effects of
/// its plan were carried out and the next one, if any, failed. Only the
/// chord depends on it: a failed synthetic Super release leaves everything
/// as it was, and a failed button release leaves Mouse Keys off but the
/// button counted as held. Every other event makes its changes before its
/// writes, and notifications never fail.
pub open spec fn event_outcome(ev: RawEvent, ch: ChordState, st: StateView, done: int) -> (
    ChordState,
    StateView,
) {
    let (ch2, st2, _) = event_step(ev, ch, st);
    if is_chord_press(ev, ch) && done < 1 + chord_forwards(ch) {
        (ch, st)
    } else if is_chord_press(ev, ch) && st.enabled && st.left_held && done == 1 + chord_forwards(ch) {
        (ch2, StateView { enabled: false, ..st })
    } else {
        (ch2, st2)
    }
}

fn push_effect(effects: &mut Vec<Effect>, e: Effect)
    ensures
        effects_view(final(effects)@) == effects_view(old(effects)@).push(e@),
{
    let ghost v = e@;
    effects.push(e);
    assert(effects_view(effects@) =~= effects_view(old(effects)@).push(v));
}

/// The products that a motion computes fit in `i32` (the negation of the
/// vertical step included).
spec fn move_fits(action: Action, value: i32, st: StateView) -> bool {
    match action {
        Action::Move { dx, dy } => (value == 1 || value == 2) ==> match st.mode {
            Mode::Movement => i32::MIN <= dx * st.speed <= i32::MAX && i32::MIN <= dy * st.speed
                <= i32::MAX,
            Mode::Scroll => (dy != 0 ==> dy != i32::MIN && i32::MIN <= -dy * st.scroll_speed
                <= i32::MAX) && (dx != 0 ==> i32::MIN <= dx * st.scroll_speed <= i32::MAX),
        },
        _ => true,
    }
}

/// The actions of the table move by at most one step per axis, so they
/// fit at every speed within bounds.
proof fn lemma_resolved_fits(key: u16, value: i32, st: StateView)
    requires
        st.bounded(),
        resolved(key, st.mode) is Some,
    ensures
        move_fits(resolved(key, st.mode).unwrap(), value, st),
{
    let action = resolved(key, st.mode).unwrap();
    if let Action::Move { dx, dy } = action {
        let s = st.speed as int;
        let t = st.scroll_speed as int;
        assert(-200 <= dx * s <= 200 && -200 <= dy * s <= 200 && -20 <= -dy * t <= 20 && -20
            <= dx * t <= 20) by (nonlinear_arith)
            requires
                -1 <= dx <= 1,
                -1 <= dy <= 1,
                0 <= s <= 200,
                0 <= t <= 20,
        ;
    }
}

fn next_speed_up(v: u32) -> (n: u32)
    requires
        v <= SPEED_MAX,
    ensures
        n == speed_stepped_up(v as int),
{
    if v + SPEED_STEP > SPEED_MAX {
        SPEED_MAX
    } else {
        v + SPEED_STEP
    }
}

fn next_speed_down(v: u32) -> (n: u32)
    ensures
        n == speed_stepped_down(v as int),
{
    if v < SPEED_MIN + SPEED_STEP {
        SPEED_MIN
    } else {
        v - SPEED_STEP
    }
}

fn next_scroll_up(v: u32) -> (n: u32)
    requires
        v <= SCROLL_MAX,
    ensures
        n == scroll_stepped_up(v as int),
{
    if v + SCROLL_STEP > SCROLL_MAX {
        SCROLL_MAX
    } else {
        v + SCROLL_STEP
    }
}

fn next_scroll_down(v: u32) -> (n: u32)
    ensures
        n == scroll_stepped_down(v as int),
{
    if v < SCROLL_MIN + SCROLL_STEP {
        SCROLL_MIN
    } else {
        v - SCROLL_STEP
    }
}

/// The effects of a keypad action, in order.
fn plan_action(action: Action, value: i32, state: &State) -> (effects: Vec<Effect>)
    requires
        move_fits(action, value, state@),
    ensures
        effects_view(effects@) == action_step(action, value, state@).1,
{
    let press = value == 1;
    let repeat = value == 2;
    let mut effects: Vec<Effect> = Vec::new();
    assert(effects_view(effects@) =~= Seq::<EffectView>::empty());
    match action {
        Action::Move { dx, dy } => {
            if press || repeat {
                match state.mode() {
                    Mode::Movement => {
                        let speed = state.speed();
                        push_effect(
                            &mut effects,
                            Effect::Mouse(MouseCommand::MoveRel { dx: dx * speed, dy: dy * speed }),
                        );
                    },
                    Mode::Scroll => {
                        let speed = state.scroll_speed();
                        if dy != 0 {
                            push_effect(&mut effects, Effect::Mouse(MouseCommand::ScrollV(-dy * speed)));
                        }
                        if dx != 0 {
                            push_effect(&mut effects, Effect::Mouse(MouseCommand::ScrollH(dx * speed)));
                        }
                    },
                }
            }
        },
        Action::LeftClick => {
            if press {
                push_effect(&mut effects, Effect::Mouse(MouseCommand::LeftClick));
            }
        },
        Action::MiddleClick => {
            if press {
                push_effect(&mut effects, Effect::Mouse(MouseCommand::MiddleClick));
            }
        },
        Action::RightClick => {
            if press {
                push_effect(&mut effects, Effect::Mouse(MouseCommand::RightClick));
            }
        },
        Action::HoldLeft => {
            if press {
                push_effect(&mut effects, Effect::Mouse(MouseCommand::HoldLeft));
            }
        },
        Action::Release => {
            if press {
                push_effect(&mut effects, Effect::Mouse(MouseCommand::ReleaseLeft));
            }
        },
        Action::SpeedUp => {
            if press {
                match state.mode() {
                    Mode::Movement => {
                        let n = next_speed_up(state.speed() as u32);
                        push_effect(&mut effects, Effect::Notify(speed_change(n)));
                    },
                    Mode::Scroll => {
                        let n = next_scroll_up(state.scroll_speed() as u32);
                        push_effect(&mut effects, Effect::Notify(scroll_speed_change(n)));
                    },
                }
            }
        },
        Action::SpeedDown => {
            if press {
                match state.mode() {
                    Mode::Movement => {
                        let n = next_speed_down(state.speed() as u32);
                        push_effect(&mut effects, Effect::Notify(speed_change(n)));
                    },
                    Mode::Scroll => {
                        let n = next_scroll_down(state.scroll_speed() as u32);
                        push_effect(&mut effects, Effect::Notify(scroll_speed_change(n)));
                    },
                }
            }
        },
        Action::CycleMode => {
            if press {
                let m = match state.mode() {
                    Mode::Movement => Mode::Scroll,
                    Mode::Scroll => Mode::Movement,
                };
                push_effect(&mut effects, Effect::Notify(mode_change(m)));
            }
        },
    }
    assert(effects_view(effects@) =~= action_step(action, value, state@).1);
    effects
}

/// The state changes of a keypad action.
fn commit_action(action: Action, value: i32, state: &mut State)
    ensures
        final(state)@ == action_step(action, value, old(state)@).0,
{
    let press = value == 1;
    match action {
        Action::HoldLeft => {
            if press {
                state.set_left_held(true);
            }
        },
        Action::Release => {
            if press {
                state.set_left_held(false);
            }
        },
        Action::SpeedUp => {
            if press {
                match state.mode() {
                    Mode::Movement => {
                        state.speed_up();
                    },
                    Mode::Scroll => {
                        state.scroll_speed_up();
                    },
                }
            }
        },
        Action::SpeedDown => {
            if press {
                match state.mode() {
                    Mode::Movement => {
                        state.speed_down();
                    },
                    Mode::Scroll => {
                        state.scroll_speed_down();
                    },
                }
            }
        },
        Action::CycleMode => {
            if press {
                state.toggle_mode();
            }
        },
        _ => {},
    }
}

/// What the daemon does about one event read from a physical keyboard:
/// the outside effects, in the order in which they are to be performed.
/// The state is left alone; [`commit_event`] applies the changes once the
/// effects have been carried out.
pub fn plan_event(ev: &RawEvent, ch: &ChordState, state: &State) -> (effects: Vec<Effect>)
    ensures
        effects_view(effects@) == event_step(*ev, *ch, state@).2,
{
    let mut effects: Vec<Effect> = Vec::new();
    assert(effects_view(effects@) =~= Seq::<EffectView>::empty());
    if ev.kind != EV_KEY {
        return effects;
    }
    let key = ev.code;
    let value = ev.value;
    let enabled = state.enabled();

    // Super is forwarded at once, never buffered; only the release that
    // follows a chord is swallowed.
    if key == KEY_LEFTMETA || key == KEY_RIGHTMETA {
        if !(value == 0 && ch.super_consumed) {
            push_effect(&mut effects, Effect::Forward(*ev));
        }
        return effects;
    }

    // Super + H toggles.
    if key == KEY_H {
        if value == 1 && (ch.super_l || ch.super_r) {
            push_effect(&mut effects, Effect::InterruptOverview);
            if ch.super_l {
                push_effect(&mut effects, Effect::Forward(synthetic(KEY_LEFTMETA, 0)));
            }
            if ch.super_r {
                push_effect(&mut effects, Effect::Forward(synthetic(KEY_RIGHTMETA, 0)));
            }
            if !enabled {
                push_effect(&mut effects, Effect::Notify(toggle(true)));
            } else {
                if state.left_held() {
                    push_effect(&mut effects, Effect::Mouse(MouseCommand::ReleaseLeft));
                }
                push_effect(&mut effects, Effect::Notify(toggle(false)));
            }
            assert(effects_view(effects@) =~= event_step(*ev, *ch, state@).2);
        } else if (value == 0 || value == 2) && ch.h_swallowed {
        } else {
            push_effect(&mut effects, Effect::Forward(*ev));
        }
        return effects;
    }

    // Enabled: a keypad key is consumed.
    if enabled && is_consumed(key) {
        let mode = state.mode();
        if let Some(action) = resolve(key, mode) {
            proof {
                lemma_resolved_fits(key, value, state@);
            }
            return plan_action(action, value, state);
        }
        return effects;
    }

    // Everything else goes to the virtual keyboard unchanged.
    push_effect(&mut effects, Effect::Forward(*ev));
    effects
}

/// Apply the changes of one event to the chord tracking and the state,
/// once the effects of its plan (from [`plan_event`] on the same event,
/// chord tracking and state) were carried out: `done` of them succeeded
/// and the next one, if any, failed. With every effect done the result
/// is the full transition.
pub fn commit_event(ev: &RawEvent, ch: &mut ChordState, state: &mut State, done: usize)
    ensures
        (*final(ch), final(state)@) == event_outcome(*ev, *old(ch), old(state)@, done as int),
{
    if ev.kind != EV_KEY {
        return ;
    }
    let key = ev.code;
    let value = ev.value;
    let enabled = state.enabled();

    if key == KEY_LEFTMETA || key == KEY_RIGHTMETA {
        let is_left = key == KEY_LEFTMETA;
        if value == 1 {
            if is_left {
                ch.super_l = true;
            } else {
                ch.super_r = true;
            }
        } else if value == 0 {
            if is_left {
                ch.super_l = false;
            } else {
                ch.super_r = false;
            }
            if ch.super_consumed {
                ch.super_consumed = false;
            }
        }
        return ;
    }

    if key == KEY_H {
        if value == 1 && (ch.super_l || ch.super_r) {
            // Interrupt, then one synthetic release per Super key down.
            let mut writes: usize = 1;
            if ch.super_l {
                writes = writes + 1;
            }
            if ch.super_r {
                writes = writes + 1;
            }
            if done < writes {
                return ;
            }
            ch.super_consumed = true;
            ch.h_swallowed = true;
            let now = !enabled;
            state.set_enabled(now);
            if !now && state.left_held() {
                if done == writes {
                    return ;
                }
                state.set_left_held(false);
            }
        } else if value == 0 && ch.h_swallowed {
            ch.h_swallowed = false;
        }
        return ;
    }

    if enabled && is_consumed(key) {
        let mode = state.mode();
        if let Some(action) = resolve(key, mode) {
            commit_action(action, value, state);
        }
    }
}

/// No effect in `effects` re-emits a key on the virtual keyboard.
pub open spec fn forwards_nothing(effects: Seq<EffectView>) -> bool {
    forall|i: int| 0 <= i < effects.len() ==> !(#[trigger] effects[i] is Forward)
}

/// A keypad action changes neither the enabled flag nor, unless it is a
/// press of the mode key, the mode; it only holds the left button on a
/// press of the hold key; and it never forwards anything.
pub proof fn lemma_action_step_frame(action: Action, value: i32, st: StateView)
    requires
        st.bounded(),
    ensures
        action_step(action, value, st).0.enabled == st.enabled,
        action_step(action, value, st).0.bounded(),
        action_step(action, value, st).0.mode != st.mode ==> action == Action::CycleMode
            && value == 1,
        action_step(action, value, st).0.left_held && !st.left_held ==> action == Action::HoldLeft
            && value == 1,
        forwards_nothing(action_step(action, value, st).1),
{
    let (st2, effects) = action_step(action, value, st);
    assert forall|i: int| 0 <= i < effects.len() implies !(#[trigger] effects[i] is Forward) by {
    }
}

/// Events that are not key events change nothing and cause nothing.
pub proof fn lemma_non_key_events_ignored(ev: RawEvent, ch: ChordState, st: StateView)
    requires
        ev.kind != EV_KEY,
    ensures
        event_step(ev, ch, st) == (ch, st, Seq::<EffectView>::empty()),
{
}

/// Every key other than Super and H is re-emitted unchanged, and changes
/// nothing, unless Mouse Keys is enabled and the key is a keypad key. In
/// particular, while Mouse Keys is off, the keypad behaves as a normal
/// keypad.
pub proof fn lemma_unhandled_keys_forwarded(ev: RawEvent, ch: ChordState, st: StateView)
    requires
        ev.kind == EV_KEY,
        ev.code != KEY_LEFTMETA,
        ev.code != KEY_RIGHTMETA,
        ev.code != KEY_H,
        !(st.enabled && consumed_key(ev.code)),
    ensures
        event_step(ev, ch, st) == (ch, st, seq![EffectView::Forward(ev)]),
{
}

/// While Mouse Keys is enabled a keypad key is never re-emitted: it only
/// drives the mouse, the speeds or the mode, and leaves the chord tracking
/// and the enabled flag alone.
pub proof fn lemma_consumed_keys_not_forwarded(ev: RawEvent, ch: ChordState, st: StateView)
    requires
        ev.kind == EV_KEY,
        st.enabled,
        consumed_key(ev.code),
        st.bounded(),
    ensures
        forwards_nothing(event_step(ev, ch, st).2),
        event_step(ev, ch, st).0 == ch,
        event_step(ev, ch, st).1.enabled,
{
    match resolved(ev.code, st.mode) {
        Some(action) => lemma_action_step_frame(action, ev.value, st),
        None => {},
    }
}

/// Super is always forwarded at once on press and autorepeat; on release
/// it is forwarded unless a Super+H chord used it.
pub proof fn lemma_super_forwarded(ev: RawEvent, ch: ChordState, st: StateView)
    requires
        ev.kind == EV_KEY,
        ev.code == KEY_LEFTMETA || ev.code == KEY_RIGHTMETA,
    ensures
        event_step(ev, ch, st).1 == st,
        ev.value != 0 || !ch.super_consumed ==> event_step(ev, ch, st).2 == seq![
            EffectView::Forward(ev),
        ],
        ev.value == 0 && ch.super_consumed ==> event_step(ev, ch, st).2 == Seq::<
            EffectView,
        >::empty() && !event_step(ev, ch, st).0.super_consumed,
{
}

/// Super+H flips the enabled flag. The H press is not re-emitted; the
/// shell is told to ignore the coming Super release first, and the real
/// Super release and the H release that follow are swallowed.
pub proof fn lemma_chord_toggles(ev: RawEvent, ch: ChordState, st: StateView)
    requires
        ev.kind == EV_KEY,
        ev.code == KEY_H,
        ev.value == 1,
        ch.super_l || ch.super_r,
    ensures
        event_step(ev, ch, st).1.enabled == !st.enabled,
        event_step(ev, ch, st).2[0] == EffectView::InterruptOverview,
        forall|i: int|
            0 <= i < event_step(ev, ch, st).2.len() ==> #[trigger] event_step(ev, ch, st).2[i]
                != EffectView::Forward(ev),
        event_step(ev, ch, st).0.super_consumed,
        event_step(ev, ch, st).0.h_swallowed,
        event_step(ev, ch, st).0.super_l == ch.super_l,
        event_step(ev, ch, st).0.super_r == ch.super_r,
{
    let effects = event_step(ev, ch, st).2;
    assert forall|i: int| 0 <= i < effects.len() implies #[trigger] effects[i]
        != EffectView::Forward(ev) by {
        if effects[i] is Forward {
            assert(effects[i]->Forward_0.code != KEY_H);
        }
    }
}

/// Two Super+H chords in a row, with Super still held, leave the enabled
/// flag as it was.
pub proof fn lemma_chord_twice(ev: RawEvent, ch: ChordState, st: StateView)
    requires
        ev.kind == EV_KEY,
        ev.code == KEY_H,
        ev.value == 1,
        ch.super_l || ch.super_r,
    ensures
        ({
            let (ch1, st1, _) = event_step(ev, ch, st);
            let (ch2, st2, _) = event_step(ev, ch1, st1);
            st2.enabled == st.enabled
        }),
{
}

/// Turning Mouse Keys off by Super+H releases a held left button before
/// the notification: the pointer is never left stuck mid-drag.
pub proof fn lemma_disable_releases_button(ev: RawEvent, ch: ChordState, st: StateView)
    requires
        ev.kind == EV_KEY,
        ev.code == KEY_H,
        ev.value == 1,
        ch.super_l || ch.super_r,
        st.enabled,
        st.left_held,
    ensures
        !event_step(ev, ch, st).1.enabled,
        !event_step(ev, ch, st).1.left_held,
        event_step(ev, ch, st).2.contains(EffectView::Mouse(MouseCommand::ReleaseLeft)),
        event_step(ev, ch, st).2.last() == notice(toggle_body(false)),
{
    let effects = event_step(ev, ch, st).2;
    let k = effects.len() - 2;
    assert(effects[k] == EffectView::Mouse(MouseCommand::ReleaseLeft));
}

/// A button held by Mouse Keys is held only while Mouse Keys is enabled:
/// no event whose writes all succeed takes a state out of "enabled, or no
/// button held" (a failed button release is the exception, see
/// [`lemma_failed_button_release`]).
pub proof fn lemma_held_only_while_enabled(ev: RawEvent, ch: ChordState, st: StateView)
    requires
        st.bounded(),
        st.enabled || !st.left_held,
    ensures
        event_step(ev, ch, st).1.enabled || !event_step(ev, ch, st).1.left_held,
{
    if ev.kind == EV_KEY && ev.code != KEY_LEFTMETA && ev.code != KEY_RIGHTMETA && ev.code
        != KEY_H && st.enabled && consumed_key(ev.code) {
        match resolved(ev.code, st.mode) {
            Some(action) => lemma_action_step_frame(action, ev.value, st),
            None => {},
        }
    }
}

/// No event takes the speeds out of their bounds, and only a press of the
/// mode key while enabled changes the mode.
pub proof fn lemma_event_step_bounded(ev: RawEvent, ch: ChordState, st: StateView)
    requires
        st.bounded(),
    ensures
        event_step(ev, ch, st).1.bounded(),
        event_step(ev, ch, st).1.mode != st.mode ==> st.enabled && ev.kind == EV_KEY && ev.code
            == crate::codes::KEY_KPENTER && ev.value == 1,
{
    if ev.kind == EV_KEY && ev.code != KEY_LEFTMETA && ev.code != KEY_RIGHTMETA && ev.code
        != KEY_H && st.enabled && consumed_key(ev.code) {
        match resolved(ev.code, st.mode) {
            Some(action) => lemma_action_step_frame(action, ev.value, st),
            None => {},
        }
    }
}

/// Only key events are ever re-emitted on the virtual keyboard: the event
/// itself when it is a key event, or a synthetic Super release.
pub proof fn lemma_forwarded_are_key_events(ev: RawEvent, ch: ChordState, st: StateView)
    requires
        st.bounded(),
    ensures
        forall|i: int|
            0 <= i < event_step(ev, ch, st).2.len() && (#[trigger] event_step(ev, ch, st).2[i]) is Forward
                ==> event_step(ev, ch, st).2[i]->Forward_0.kind == EV_KEY,
{
    if ev.kind == EV_KEY && ev.code != KEY_LEFTMETA && ev.code != KEY_RIGHTMETA && ev.code
        != KEY_H && st.enabled && consumed_key(ev.code) {
        match resolved(ev.code, st.mode) {
            Some(action) => lemma_action_step_frame(action, ev.value, st),
            None => {},
        }
    }
    let effects = event_step(ev, ch, st).2;
    assert forall|i: int| 0 <= i < effects.len() && (#[trigger] effects[i]) is Forward implies effects[i]->Forward_0.kind
        == EV_KEY by {
    }
}

/// Releasing a keypad key while Mouse Keys is enabled does nothing at all:
/// every action acts on press (motion also on autorepeat), never on release.
pub proof fn lemma_keypad_release_inert(ev: RawEvent, ch: ChordState, st: StateView)
    requires
        ev.kind == EV_KEY,
        ev.value == 0,
        st.enabled,
        consumed_key(ev.code),
    ensures
        event_step(ev, ch, st) == (ch, st, Seq::<EffectView>::empty()),
{
}

/// Autorepeat of a keypad key repeats only motion: every other keypad key
/// does nothing on autorepeat.
pub proof fn lemma_keypad_repeat_moves_only(ev: RawEvent, ch: ChordState, st: StateView)
    requires
        ev.kind == EV_KEY,
        ev.value == 2,
        st.enabled,
        consumed_key(ev.code),
        !(resolved(ev.code, st.mode) matches Some(Action::Move { .. })),
    ensures
        event_step(ev, ch, st) == (ch, st, Seq::<EffectView>::empty()),
{
}

/// When every effect of the plan was carried out, the committed changes
/// are the full transition.
pub proof fn lemma_outcome_all_done(ev: RawEvent, ch: ChordState, st: StateView, done: int)
    requires
        done >= event_step(ev, ch, st).2.len(),
    ensures
        event_outcome(ev, ch, st, done) == (event_step(ev, ch, st).0, event_step(ev, ch, st).1),
{
}

/// Only the chord's changes depend on how far its writes got; every other
/// event makes the same changes whatever happens to its writes.
pub proof fn lemma_outcome_independent_of_writes(ev: RawEvent, ch: ChordState, st: StateView, done: int)
    requires
        !is_chord_press(ev, ch),
    ensures
        event_outcome(ev, ch, st, done) == (event_step(ev, ch, st).0, event_step(ev, ch, st).1),
{
}

/// When a synthetic Super release of a chord fails, the chord changes
/// nothing: Mouse Keys stays as it was and nothing is marked to swallow.
pub proof fn lemma_failed_chord_release_changes_nothing(
    ev: RawEvent,
    ch: ChordState,
    st: StateView,
    done: int,
)
    requires
        is_chord_press(ev, ch),
        1 <= done < 1 + chord_forwards(ch),
    ensures
        event_outcome(ev, ch, st, done) == (ch, st),
        event_step(ev, ch, st).2[done] is Forward,
{
}

/// When the button release of a disabling chord fails, Mouse Keys is off
/// but the button stays counted as held, and the notification is not shown.
pub proof fn lemma_failed_button_release(ev: RawEvent, ch: ChordState, st: StateView)
    requires
        is_chord_press(ev, ch),
        st.enabled,
        st.left_held,
    ensures
        event_step(ev, ch, st).2[1 + chord_forwards(ch)] == EffectView::Mouse(
            MouseCommand::ReleaseLeft,
        ),
        !event_outcome(ev, ch, st, 1 + chord_forwards(ch)).1.enabled,
        event_outcome(ev, ch, st, 1 + chord_forwards(ch)).1.left_held,
{
}

} // verus!
