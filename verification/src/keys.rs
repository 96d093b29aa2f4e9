//! Mapping from key codes to Mouse Keys actions.
//!
//! Only the dedicated keypad codes (`KEY_KP*`) are ever consumed. The
//! navigation codes a keypad emits with NumLock off (`KEY_UP`, `KEY_HOME`,
//! ...) are the same codes as the main keyboard's arrow and editing keys,
//! and nothing tells the two apart; consuming them would break the real
//! arrow keys. So Mouse Keys acts while NumLock is on, and with NumLock off
//! the keypad keeps its navigation meaning.

use vstd::prelude::*;
use crate::codes::{
    KEY_KP0, KEY_KP1, KEY_KP2, KEY_KP3, KEY_KP4, KEY_KP5, KEY_KP6, KEY_KP7, KEY_KP8, KEY_KP9,
    KEY_KPASTERISK, KEY_KPDOT, KEY_KPENTER, KEY_KPMINUS, KEY_KPPLUS, KEY_KPSLASH,
};

verus! {

/// Current behavioural mode for motion keys.
#[derive(Debug, Clone, Copy, PartialEq, Eq, Structural)]
pub enum Mode {
    /// Keypad 8/2/4/6/7/9/1/3 move the pointer.
    Movement,
    /// Keypad 8/2 turn the vertical wheel, 4/6 the horizontal wheel.
    Scroll,
}

impl Mode {
    /// The other mode.
    pub open spec fn toggled(self) -> Mode {
        match self {
            Mode::Movement => Mode::Scroll,
            Mode::Scroll => Mode::Movement,
        }
    }

    /// The lower-case name of the mode.
    pub open spec fn name(self) -> Seq<char> {
        match self {
            Mode::Movement => "movement"@,
            Mode::Scroll => "scroll"@,
        }
    }

    /// The lower-case name of the mode, as shown to the user.
    pub fn as_str(self) -> (s: &'static str)
        ensures
            s@ == self.name(),
    {
        match self {
            Mode::Movement => "movement",
            Mode::Scroll => "scroll",
        }
    }
}

/// Kinds of mouse actions a mapped key can request.
///
/// Motion keys act on press and on every autorepeat; every other action
/// acts only on the press edge.
#[derive(Debug, Clone, Copy, PartialEq, Eq, Structural)]
pub enum Action {
    /// Move the pointer (or turn the wheel) by `(dx, dy)` steps, scaled by
    /// the current speed.
    Move { dx: i32, dy: i32 },
    /// Left click: press and release on the press edge.
    LeftClick,
    /// Middle click on the press edge.
    MiddleClick,
    /// Right click on the press edge.
    RightClick,
    /// Press the left button and keep it held.
    HoldLeft,
    /// Release the held button.
    Release,
    /// Increase motion or scroll speed by one step.
    SpeedUp,
    /// Decrease motion or scroll speed by one step.
    SpeedDown,
    /// Switch to the other mode.
    CycleMode,
}

/// The keypad codes that Mouse Keys consumes while it is enabled.
pub open spec fn consumed_key(key: u16) -> bool {
    ||| key == KEY_KP0
    ||| key == KEY_KP1
    ||| key == KEY_KP2
    ||| key == KEY_KP3
    ||| key == KEY_KP4
    ||| key == KEY_KP5
    ||| key == KEY_KP6
    ||| key == KEY_KP7
    ||| key == KEY_KP8
    ||| key == KEY_KP9
    ||| key == KEY_KPDOT
    ||| key == KEY_KPPLUS
    ||| key == KEY_KPMINUS
    ||| key == KEY_KPASTERISK
    ||| key == KEY_KPSLASH
    ||| key == KEY_KPENTER
}

/// The diagonal motion keys, which have no meaning in scroll mode.
pub open spec fn diagonal_key(key: u16) -> bool {
    key == KEY_KP7 || key == KEY_KP9 || key == KEY_KP1 || key == KEY_KP3
}

/// The action table: what a key requests in movement mode.
pub open spec fn key_action(key: u16) -> Option<Action> {
    if key == KEY_KP8 {
        Some(Action::Move { dx: 0, dy: -1i32 })
    } else if key == KEY_KP2 {
        Some(Action::Move { dx: 0, dy: 1 })
    } else if key == KEY_KP4 {
        Some(Action::Move { dx: -1i32, dy: 0 })
    } else if key == KEY_KP6 {
        Some(Action::Move { dx: 1, dy: 0 })
    } else if key == KEY_KP7 {
        Some(Action::Move { dx: -1i32, dy: -1i32 })
    } else if key == KEY_KP9 {
        Some(Action::Move { dx: 1, dy: -1i32 })
    } else if key == KEY_KP1 {
        Some(Action::Move { dx: -1i32, dy: 1 })
    } else if key == KEY_KP3 {
        Some(Action::Move { dx: 1, dy: 1 })
    } else if key == KEY_KP5 {
        Some(Action::LeftClick)
    } else if key == KEY_KPSLASH {
        Some(Action::MiddleClick)
    } else if key == KEY_KPASTERISK {
        Some(Action::RightClick)
    } else if key == KEY_KPMINUS {
        Some(Action::SpeedDown)
    } else if key == KEY_KPPLUS {
        Some(Action::SpeedUp)
    } else if key == KEY_KP0 {
        Some(Action::HoldLeft)
    } else if key == KEY_KPDOT {
        Some(Action::Release)
    } else if key == KEY_KPENTER {
        Some(Action::CycleMode)
    } else {
        None
    }
}

/// What `key` requests in `mode`: the action table, except that the
/// diagonals request nothing in scroll mode.
pub open spec fn resolved(key: u16, mode: Mode) -> Option<Action> {
    if mode == Mode::Scroll && diagonal_key(key) {
        None
    } else {
        key_action(key)
    }
}

/// Resolve a key code to an action in the given mode.
///
/// `None` for keys Mouse Keys does not handle; those are re-injected
/// unchanged.
pub fn resolve(key: u16, mode: Mode) -> (action: Option<Action>)
    ensures
        action == resolved(key, mode),
{
    let action = if key == KEY_KP8 {
        Action::Move { dx: 0, dy: -1 }
    } else if key == KEY_KP2 {
        Action::Move { dx: 0, dy: 1 }
    } else if key == KEY_KP4 {
        Action::Move { dx: -1, dy: 0 }
    } else if key == KEY_KP6 {
        Action::Move { dx: 1, dy: 0 }
    } else if key == KEY_KP7 {
        match mode {
            Mode::Movement => Action::Move { dx: -1, dy: -1 },
            Mode::Scroll => return None,
        }
    } else if key == KEY_KP9 {
        match mode {
            Mode::Movement => Action::Move { dx: 1, dy: -1 },
            Mode::Scroll => return None,
        }
    } else if key == KEY_KP1 {
        match mode {
            Mode::Movement => Action::Move { dx: -1, dy: 1 },
            Mode::Scroll => return None,
        }
    } else if key == KEY_KP3 {
        match mode {
            Mode::Movement => Action::Move { dx: 1, dy: 1 },
            Mode::Scroll => return None,
        }
    } else if key == KEY_KP5 {
        Action::LeftClick
    } else if key == KEY_KPSLASH {
        Action::MiddleClick
    } else if key == KEY_KPASTERISK {
        Action::RightClick
    } else if key == KEY_KPMINUS {
        Action::SpeedDown
    } else if key == KEY_KPPLUS {
        Action::SpeedUp
    } else if key == KEY_KP0 {
        Action::HoldLeft
    } else if key == KEY_KPDOT {
        Action::Release
    } else if key == KEY_KPENTER {
        Action::CycleMode
    } else {
        return None;
    };
    Some(action)
}

/// Keys that, while Mouse Keys is enabled, are always consumed and never
/// re-injected into the virtual keyboard: the dedicated keypad codes only.
pub fn is_consumed(key: u16) -> (consumed: bool)
    ensures
        consumed == consumed_key(key),
{
    key == KEY_KP0 || key == KEY_KP1 || key == KEY_KP2 || key == KEY_KP3 || key == KEY_KP4
        || key == KEY_KP5 || key == KEY_KP6 || key == KEY_KP7 || key == KEY_KP8 || key == KEY_KP9
        || key == KEY_KPDOT || key == KEY_KPPLUS || key == KEY_KPMINUS || key == KEY_KPASTERISK
        || key == KEY_KPSLASH || key == KEY_KPENTER
}

/// A key is consumed exactly when it has an action in movement mode: every
/// consumed key does something there, and nothing else does.
pub proof fn lemma_consumed_iff_mapped(key: u16)
    ensures
        consumed_key(key) <==> resolved(key, Mode::Movement) is Some,
{
}

/// Whatever the mode, only consumed keys resolve to an action, and scroll
/// mode differs from movement mode only on the diagonals.
pub proof fn lemma_resolve_only_consumed(key: u16, mode: Mode)
    ensures
        resolved(key, mode) is Some ==> consumed_key(key),
        !diagonal_key(key) ==> resolved(key, mode) == resolved(key, Mode::Movement),
        mode == Mode::Scroll && diagonal_key(key) ==> resolved(key, mode) is None,
{
}

/// Toggling the mode twice gives back the mode one started from.
pub proof fn lemma_toggle_twice(mode: Mode)
    ensures
        mode.toggled().toggled() == mode,
        mode.toggled() != mode,
{
}

} // verus!
