//! Runtime state: enabled flag, mode, speeds, held button.
//!
//! Every value is bounded: the motion speed always lies in
//! `SPEED_MIN..=SPEED_MAX` and the scroll speed in `SCROLL_MIN..=SCROLL_MAX`,
//! whatever sequence of operations produced the state.

use vstd::prelude::*;
use crate::keys::Mode;

verus! {

/// Smallest motion speed (pixels per movement event).
pub const SPEED_MIN: u32 = 4;
/// Largest motion speed (pixels per movement event).
pub const SPEED_MAX: u32 = 200;
/// Change of the motion speed per speed key press.
pub const SPEED_STEP: u32 = 4;
/// Motion speed of a fresh state.
pub const SPEED_INITIAL: u32 = 20;

/// Smallest scroll speed (wheel ticks per scroll event).
pub const SCROLL_MIN: u32 = 1;
/// Largest scroll speed (wheel ticks per scroll event).
pub const SCROLL_MAX: u32 = 20;
/// Change of the scroll speed per speed key press.
pub const SCROLL_STEP: u32 = 1;
/// Scroll speed of a fresh state.
pub const SCROLL_INITIAL: u32 = 1;

/// `value` brought into `lo..=hi`.
pub open spec fn clamped(value: int, lo: int, hi: int) -> int {
    if value < lo {
        lo
    } else if value > hi {
        hi
    } else {
        value
    }
}

/// Motion speed after one step up: `SPEED_STEP` more, at most `SPEED_MAX`.
pub open spec fn speed_stepped_up(v: int) -> int {
    if v + SPEED_STEP > SPEED_MAX {
        SPEED_MAX as int
    } else {
        v + SPEED_STEP
    }
}

/// Motion speed after one step down: `SPEED_STEP` less, at least `SPEED_MIN`.
pub open spec fn speed_stepped_down(v: int) -> int {
    if v - SPEED_STEP < SPEED_MIN {
        SPEED_MIN as int
    } else {
        v - SPEED_STEP
    }
}

/// Scroll speed after one step up: `SCROLL_STEP` more, at most `SCROLL_MAX`.
pub open spec fn scroll_stepped_up(v: int) -> int {
    if v + SCROLL_STEP > SCROLL_MAX {
        SCROLL_MAX as int
    } else {
        v + SCROLL_STEP
    }
}

/// Scroll speed after one step down: `SCROLL_STEP` less, at least `SCROLL_MIN`.
pub open spec fn scroll_stepped_down(v: int) -> int {
    if v - SCROLL_STEP < SCROLL_MIN {
        SCROLL_MIN as int
    } else {
        v - SCROLL_STEP
    }
}

/// The abstract value of a [`State`].
pub struct StateView {
    pub enabled: bool,
    pub mode: Mode,
    pub speed: u32,
    pub scroll_speed: u32,
    pub left_held: bool,
}

impl StateView {
    /// Both speeds lie within their bounds.
    pub open spec fn bounded(self) -> bool {
        &&& SPEED_MIN <= self.speed <= SPEED_MAX
        &&& SCROLL_MIN <= self.scroll_speed <= SCROLL_MAX
    }

    /// The state of a freshly started daemon.
    pub open spec fn initial() -> StateView {
        StateView {
            enabled: false,
            mode: Mode::Movement,
            speed: SPEED_INITIAL,
            scroll_speed: SCROLL_INITIAL,
            left_held: false,
        }
    }
}

/// A change made by one of the mutating methods of [`State`].
#[derive(Debug, Clone, Copy, PartialEq, Eq, Structural)]
pub enum StateOp {
    SetEnabled(bool),
    ToggleMode,
    SetSpeed(u32),
    SpeedUp,
    SpeedDown,
    ScrollSpeedUp,
    ScrollSpeedDown,
    SetLeftHeld(bool),
    ApplyOptions(bool, u32),
}

impl StateView {
    /// The state after `op`.
    pub open spec fn after(self, op: StateOp) -> StateView {
        match op {
            StateOp::SetEnabled(v) => StateView { enabled: v, ..self },
            StateOp::ToggleMode => StateView { mode: self.mode.toggled(), ..self },
            StateOp::SetSpeed(v) => StateView {
                speed: clamped(v as int, SPEED_MIN as int, SPEED_MAX as int) as u32,
                ..self
            },
            StateOp::SpeedUp => StateView {
                speed: speed_stepped_up(self.speed as int) as u32,
                ..self
            },
            StateOp::SpeedDown => StateView {
                speed: speed_stepped_down(self.speed as int) as u32,
                ..self
            },
            StateOp::ScrollSpeedUp => StateView {
                scroll_speed: scroll_stepped_up(self.scroll_speed as int) as u32,
                ..self
            },
            StateOp::ScrollSpeedDown => StateView {
                scroll_speed: scroll_stepped_down(self.scroll_speed as int) as u32,
                ..self
            },
            StateOp::SetLeftHeld(h) => StateView { left_held: h, ..self },
            StateOp::ApplyOptions(e, v) => StateView {
                enabled: e,
                speed: if SPEED_MIN <= v <= SPEED_MAX {
                    v
                } else {
                    self.speed
                },
                ..self
            },
        }
    }

    /// The state after the changes `ops`, in order.
    pub open spec fn after_all(self, ops: Seq<StateOp>) -> StateView
        decreases ops.len(),
    {
        if ops.len() == 0 {
            self
        } else {
            self.after(ops[0]).after_all(ops.drop_first())
        }
    }
}

/// How many of `ops` toggle the mode.
pub open spec fn toggles(ops: Seq<StateOp>) -> nat
    decreases ops.len(),
{
    if ops.len() == 0 {
        0
    } else {
        (if ops[0] == StateOp::ToggleMode {
            1nat
        } else {
            0nat
        }) + toggles(ops.drop_first())
    }
}

/// Central mutable state of the daemon.
pub struct State {
    /// Whether Mouse Keys is consuming the keypad.
    enabled: bool,
    /// Current motion mode.
    mode: Mode,
    /// Current motion speed (pixels per movement event).
    speed: u32,
    /// Current scroll speed (wheel ticks per scroll event).
    scroll_speed: u32,
    /// Whether the left button is currently held down by us.
    left_held: bool,
}

impl View for State {
    type V = StateView;

    closed spec fn view(&self) -> StateView {
        StateView {
            enabled: self.enabled,
            mode: self.mode,
            speed: self.speed,
            scroll_speed: self.scroll_speed,
            left_held: self.left_held,
        }
    }
}

impl Default for State {
    fn default() -> (s: Self)
        ensures
            s@ == StateView::initial(),
            s@.bounded(),
    {
        State {
            enabled: false,
            mode: Mode::Movement,
            speed: SPEED_INITIAL,
            scroll_speed: SCROLL_INITIAL,
            left_held: false,
        }
    }
}

impl State {
    #[verifier::type_invariant]
    closed spec fn speeds_in_bounds(self) -> bool {
        &&& SPEED_MIN <= self.speed <= SPEED_MAX
        &&& SCROLL_MIN <= self.scroll_speed <= SCROLL_MAX
    }

    /// Whether Mouse Keys is consuming the keypad.
    pub fn enabled(&self) -> (b: bool)
        ensures
            b == self@.enabled,
            self@.bounded(),
    {
        proof {
            use_type_invariant(self);
        }
        self.enabled
    }

    pub fn set_enabled(&mut self, value: bool)
        ensures
            final(self)@ == (StateView { enabled: value, ..old(self)@ }),
            final(self)@ == old(self)@.after(StateOp::SetEnabled(value)),
            final(self)@.bounded(),
    {
        proof {
            use_type_invariant(&*self);
        }
        self.enabled = value;
    }

    pub fn mode(&self) -> (m: Mode)
        ensures
            m == self@.mode,
    {
        self.mode
    }

    /// Switch to the other mode; returns the new mode.
    pub fn toggle_mode(&mut self) -> (m: Mode)
        ensures
            m == old(self)@.mode.toggled(),
            final(self)@ == (StateView { mode: m, ..old(self)@ }),
            final(self)@ == old(self)@.after(StateOp::ToggleMode),
            final(self)@.bounded(),
    {
        proof {
            use_type_invariant(&*self);
        }
        let next = match self.mode {
            Mode::Movement => Mode::Scroll,
            Mode::Scroll => Mode::Movement,
        };
        self.mode = next;
        next
    }

    /// Current motion speed.
    pub fn speed(&self) -> (v: i32)
        ensures
            v == self@.speed,
            SPEED_MIN <= v <= SPEED_MAX,
    {
        proof {
            use_type_invariant(self);
        }
        self.speed as i32
    }

    /// Set the motion speed, clamping into `SPEED_MIN..=SPEED_MAX`; returns
    /// the resulting value.
    pub fn set_speed(&mut self, value: u32) -> (v: u32)
        ensures
            v == clamped(value as int, SPEED_MIN as int, SPEED_MAX as int),
            final(self)@ == (StateView { speed: v, ..old(self)@ }),
            final(self)@ == old(self)@.after(StateOp::SetSpeed(value)),
            final(self)@.bounded(),
    {
        proof {
            use_type_invariant(&*self);
        }
        let clamped = if value < SPEED_MIN {
            SPEED_MIN
        } else if value > SPEED_MAX {
            SPEED_MAX
        } else {
            value
        };
        self.speed = clamped;
        clamped
    }

    /// Increase the motion speed by one step, up to `SPEED_MAX`; returns
    /// the new speed.
    pub fn speed_up(&mut self) -> (v: u32)
        ensures
            v == speed_stepped_up(old(self)@.speed as int),
            final(self)@ == (StateView { speed: v, ..old(self)@ }),
            final(self)@ == old(self)@.after(StateOp::SpeedUp),
            final(self)@.bounded(),
    {
        proof {
            use_type_invariant(&*self);
        }
        let raised = self.speed + SPEED_STEP;
        let next = if raised > SPEED_MAX {
            SPEED_MAX
        } else {
            raised
        };
        self.speed = next;
        next
    }

    /// Decrease the motion speed by one step, down to `SPEED_MIN`; returns
    /// the new speed.
    pub fn speed_down(&mut self) -> (v: u32)
        ensures
            v == speed_stepped_down(old(self)@.speed as int),
            final(self)@ == (StateView { speed: v, ..old(self)@ }),
            final(self)@ == old(self)@.after(StateOp::SpeedDown),
            final(self)@.bounded(),
    {
        proof {
            use_type_invariant(&*self);
        }
        let lowered = self.speed.saturating_sub(SPEED_STEP);
        let next = if lowered < SPEED_MIN {
            SPEED_MIN
        } else {
            lowered
        };
        self.speed = next;
        next
    }

    /// Current scroll speed.
    pub fn scroll_speed(&self) -> (v: i32)
        ensures
            v == self@.scroll_speed,
            SCROLL_MIN <= v <= SCROLL_MAX,
    {
        proof {
            use_type_invariant(self);
        }
        self.scroll_speed as i32
    }

    /// Increase the scroll speed by one step, up to `SCROLL_MAX`; returns
    /// the new scroll speed.
    pub fn scroll_speed_up(&mut self) -> (v: u32)
        ensures
            v == scroll_stepped_up(old(self)@.scroll_speed as int),
            final(self)@ == (StateView { scroll_speed: v, ..old(self)@ }),
            final(self)@ == old(self)@.after(StateOp::ScrollSpeedUp),
            final(self)@.bounded(),
    {
        proof {
            use_type_invariant(&*self);
        }
        let raised = self.scroll_speed + SCROLL_STEP;
        let next = if raised > SCROLL_MAX {
            SCROLL_MAX
        } else {
            raised
        };
        self.scroll_speed = next;
        next
    }

    /// Decrease the scroll speed by one step, down to `SCROLL_MIN`; returns
    /// the new scroll speed.
    pub fn scroll_speed_down(&mut self) -> (v: u32)
        ensures
            v == scroll_stepped_down(old(self)@.scroll_speed as int),
            final(self)@ == (StateView { scroll_speed: v, ..old(self)@ }),
            final(self)@ == old(self)@.after(StateOp::ScrollSpeedDown),
            final(self)@.bounded(),
    {
        proof {
            use_type_invariant(&*self);
        }
        let lowered = self.scroll_speed.saturating_sub(SCROLL_STEP);
        let next = if lowered < SCROLL_MIN {
            SCROLL_MIN
        } else {
            lowered
        };
        self.scroll_speed = next;
        next
    }

    /// Apply the daemon's startup options: the enabled flag always, the
    /// initial motion speed only when it lies in `SPEED_MIN..=SPEED_MAX`
    /// (an out-of-range speed is refused and the current speed stays).
    /// Returns whether the speed was taken.
    pub fn apply_options(&mut self, enabled: bool, speed: u32) -> (accepted: bool)
        ensures
            accepted == (SPEED_MIN <= speed <= SPEED_MAX),
            final(self)@ == (StateView {
                enabled,
                speed: if accepted {
                    speed
                } else {
                    old(self)@.speed
                },
                ..old(self)@
            }),
            final(self)@ == old(self)@.after(StateOp::ApplyOptions(enabled, speed)),
            final(self)@.bounded(),
    {
        self.set_enabled(enabled);
        if SPEED_MIN <= speed && speed <= SPEED_MAX {
            self.set_speed(speed);
            true
        } else {
            false
        }
    }

    /// Whether the left button is currently held down by us.
    pub fn left_held(&self) -> (b: bool)
        ensures
            b == self@.left_held,
    {
        self.left_held
    }

    pub fn set_left_held(&mut self, held: bool)
        ensures
            final(self)@ == (StateView { left_held: held, ..old(self)@ }),
            final(self)@ == old(self)@.after(StateOp::SetLeftHeld(held)),
            final(self)@.bounded(),
    {
        proof {
            use_type_invariant(&*self);
        }
        self.left_held = held;
    }
}

/// A step up followed by a step down gives back the motion speed, unless
/// the step up was cut at `SPEED_MAX`; likewise a step down followed by a
/// step up, unless the step down was cut at `SPEED_MIN`.
pub proof fn lemma_speed_steps_undo(v: int)
    requires
        SPEED_MIN <= v <= SPEED_MAX,
    ensures
        v + SPEED_STEP <= SPEED_MAX ==> speed_stepped_down(speed_stepped_up(v)) == v,
        v - SPEED_STEP >= SPEED_MIN ==> speed_stepped_up(speed_stepped_down(v)) == v,
{
}

/// A step never leaves the bounds, moves the motion speed in its own
/// direction, and stops at the bound: at `SPEED_MAX` a step up changes
/// nothing, at `SPEED_MIN` a step down changes nothing.
pub proof fn lemma_speed_steps_bounded(v: int)
    requires
        SPEED_MIN <= v <= SPEED_MAX,
    ensures
        SPEED_MIN <= speed_stepped_up(v) <= SPEED_MAX,
        SPEED_MIN <= speed_stepped_down(v) <= SPEED_MAX,
        v <= speed_stepped_up(v),
        speed_stepped_down(v) <= v,
        v == SPEED_MAX ==> speed_stepped_up(v) == v,
        v == SPEED_MIN ==> speed_stepped_down(v) == v,
        v < SPEED_MAX ==> v < speed_stepped_up(v),
        v > SPEED_MIN ==> speed_stepped_down(v) < v,
{
}

/// A step up followed by a step down gives back the scroll speed, unless
/// the step up was cut at `SCROLL_MAX`; likewise a step down followed by a
/// step up, unless the step down was cut at `SCROLL_MIN`.
pub proof fn lemma_scroll_steps_undo(v: int)
    requires
        SCROLL_MIN <= v <= SCROLL_MAX,
    ensures
        v + SCROLL_STEP <= SCROLL_MAX ==> scroll_stepped_down(scroll_stepped_up(v)) == v,
        v - SCROLL_STEP >= SCROLL_MIN ==> scroll_stepped_up(scroll_stepped_down(v)) == v,
{
}

/// A step never leaves the bounds, moves the scroll speed in its own
/// direction, and stops at the bound.
pub proof fn lemma_scroll_steps_bounded(v: int)
    requires
        SCROLL_MIN <= v <= SCROLL_MAX,
    ensures
        SCROLL_MIN <= scroll_stepped_up(v) <= SCROLL_MAX,
        SCROLL_MIN <= scroll_stepped_down(v) <= SCROLL_MAX,
        v <= scroll_stepped_up(v),
        scroll_stepped_down(v) <= v,
        v == SCROLL_MAX ==> scroll_stepped_up(v) == v,
        v == SCROLL_MIN ==> scroll_stepped_down(v) == v,
        v < SCROLL_MAX ==> v < scroll_stepped_up(v),
        v > SCROLL_MIN ==> scroll_stepped_down(v) < v,
{
}

/// Clamping lands in the bounds and keeps a value that already lies there.
pub proof fn lemma_clamp(value: int, lo: int, hi: int)
    requires
        lo <= hi,
    ensures
        lo <= clamped(value, lo, hi) <= hi,
        lo <= value <= hi ==> clamped(value, lo, hi) == value,
        clamped(clamped(value, lo, hi), lo, hi) == clamped(value, lo, hi),
{
}

/// The enabled flag keeps the value last set: changes other than setting
/// it (or applying the startup options) leave it alone.
pub proof fn lemma_enabled_persists(st: StateView, v: bool, ops: Seq<StateOp>)
    requires
        forall|i: int|
            0 <= i < ops.len() ==> !(#[trigger] ops[i] is SetEnabled) && !(ops[i] is ApplyOptions),
    ensures
        st.after(StateOp::SetEnabled(v)).after_all(ops).enabled == v,
    decreases ops.len(),
{
    if ops.len() > 0 {
        let rest = ops.drop_first();
        assert forall|i: int| 0 <= i < rest.len() implies !(#[trigger] rest[i] is SetEnabled)
            && !(rest[i] is ApplyOptions) by {
            assert(rest[i] == ops[i + 1]);
        }
        assert(!(ops[0] is SetEnabled) && !(ops[0] is ApplyOptions));
        lemma_enabled_persists(st.after(ops[0]), v, rest);
        assert(st.after(StateOp::SetEnabled(v)).after(ops[0]) == st.after(ops[0]).after(
            StateOp::SetEnabled(v),
        ));
    }
}

/// The held-button flag keeps the value last set: changes other than
/// setting it leave it alone.
pub proof fn lemma_left_held_persists(st: StateView, h: bool, ops: Seq<StateOp>)
    requires
        forall|i: int| 0 <= i < ops.len() ==> !(#[trigger] ops[i] is SetLeftHeld),
    ensures
        st.after(StateOp::SetLeftHeld(h)).after_all(ops).left_held == h,
    decreases ops.len(),
{
    if ops.len() > 0 {
        let rest = ops.drop_first();
        assert forall|i: int| 0 <= i < rest.len() implies !(#[trigger] rest[i] is SetLeftHeld) by {
            assert(rest[i] == ops[i + 1]);
        }
        assert(!(ops[0] is SetLeftHeld));
        lemma_left_held_persists(st.after(ops[0]), h, rest);
        assert(st.after(StateOp::SetLeftHeld(h)).after(ops[0]) == st.after(ops[0]).after(
            StateOp::SetLeftHeld(h),
        ));
    }
}

/// The mode follows the parity of the toggles: every toggle flips it and
/// every other change leaves it alone. From a fresh state, an odd number
/// of toggles gives scroll mode and an even number movement mode.
pub proof fn lemma_mode_parity(st: StateView, ops: Seq<StateOp>)
    ensures
        st.after_all(ops).mode == (if toggles(ops) % 2 == 1 {
            st.mode.toggled()
        } else {
            st.mode
        }),
        StateView::initial().after_all(ops).mode == (if toggles(ops) % 2 == 1 {
            Mode::Scroll
        } else {
            Mode::Movement
        }),
    decreases ops.len(),
{
    if ops.len() > 0 {
        lemma_mode_parity(st.after(ops[0]), ops.drop_first());
        lemma_mode_parity(StateView::initial().after(ops[0]), ops.drop_first());
    }
}

/// Every sequence of changes keeps both speeds within their bounds.
pub proof fn lemma_after_all_bounded(st: StateView, ops: Seq<StateOp>)
    requires
        st.bounded(),
    ensures
        st.after_all(ops).bounded(),
    decreases ops.len(),
{
    if ops.len() > 0 {
        lemma_speed_steps_bounded(st.speed as int);
        lemma_scroll_steps_bounded(st.scroll_speed as int);
        lemma_clamp(0, SPEED_MIN as int, SPEED_MAX as int);
        match ops[0] {
            StateOp::SetSpeed(v) => lemma_clamp(v as int, SPEED_MIN as int, SPEED_MAX as int),
            _ => {},
        }
        lemma_after_all_bounded(st.after(ops[0]), ops.drop_first());
    }
}

} // verus!
