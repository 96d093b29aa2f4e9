//! Text of the desktop notifications.
//!
//! The daemon shows a notification on every toggle, on every mode change
//! and on every speed change. This module decides what they say; showing
//! them (over D-Bus) is left to the program around the library, and a
//! failure to show one never affects the daemon.

use vstd::prelude::*;
use crate::keys::Mode;

verus! {

/// A desktop notification: a summary line and a body.
#[derive(Debug)]
pub struct Notice {
    pub summary: String,
    pub body: String,
}

impl View for Notice {
    type V = (Seq<char>, Seq<char>);

    open spec fn view(&self) -> (Seq<char>, Seq<char>) {
        (self.summary@, self.body@)
    }
}

/// The summary line of every notification of the daemon.
pub open spec fn app_title() -> Seq<char> {
    "Mouse Keys"@
}

/// The decimal digit `d` (`d < 10`) as a character.
pub open spec fn digit_char(d: nat) -> char {
    if d == 0 {
        '0'
    } else if d == 1 {
        '1'
    } else if d == 2 {
        '2'
    } else if d == 3 {
        '3'
    } else if d == 4 {
        '4'
    } else if d == 5 {
        '5'
    } else if d == 6 {
        '6'
    } else if d == 7 {
        '7'
    } else if d == 8 {
        '8'
    } else {
        '9'
    }
}

/// The decimal representation of `n`, without leading zeros.
pub open spec fn decimal(n: nat) -> Seq<char>
    decreases n,
{
    if n < 10 {
        seq![digit_char(n)]
    } else {
        decimal(n / 10).push(digit_char(n % 10))
    }
}

/// Body of the toggle notification.
pub open spec fn toggle_body(enabled: bool) -> Seq<char> {
    if enabled {
        "ACTIVATED — press Super+H to deactivate"@
    } else {
        "DEACTIVATED"@
    }
}

/// Body of the mode-change notification.
pub open spec fn mode_body(mode: Mode) -> Seq<char> {
    "mode: "@ + mode.name()
}

/// Body of the motion-speed notification.
pub open spec fn speed_body(speed: nat) -> Seq<char> {
    "speed: "@ + decimal(speed)
}

/// Body of the scroll-speed notification.
pub open spec fn scroll_speed_body(speed: nat) -> Seq<char> {
    "scroll speed: "@ + decimal(speed)
}

fn digit_str(d: u32) -> (s: &'static str)
    requires
        d < 10,
    ensures
        s@ == seq![digit_char(d as nat)],
{
    proof {
        reveal_strlit("0");
        reveal_strlit("1");
        reveal_strlit("2");
        reveal_strlit("3");
        reveal_strlit("4");
        reveal_strlit("5");
        reveal_strlit("6");
        reveal_strlit("7");
        reveal_strlit("8");
        reveal_strlit("9");
    }
    if d == 0 {
        "0"
    } else if d == 1 {
        "1"
    } else if d == 2 {
        "2"
    } else if d == 3 {
        "3"
    } else if d == 4 {
        "4"
    } else if d == 5 {
        "5"
    } else if d == 6 {
        "6"
    } else if d == 7 {
        "7"
    } else if d == 8 {
        "8"
    } else {
        "9"
    }
}

/// Append the decimal representation of `n` to `s`.
fn append_decimal(s: &mut String, n: u32)
    ensures
        final(s)@ == old(s)@ + decimal(n as nat),
    decreases n,
{
    if n >= 10 {
        append_decimal(s, n / 10);
    }
    s.append(digit_str(n % 10));
    proof {
        if n >= 10 {
            assert(decimal(n as nat) == decimal((n / 10) as nat).push(digit_char((n % 10) as nat)));
        }
    }
}

/// The notification shown on the enable/disable toggle.
pub fn toggle(enabled: bool) -> (n: Notice)
    ensures
        n.summary@ == app_title(),
        n.body@ == toggle_body(enabled),
{
    let body = if enabled {
        String::from_str("ACTIVATED — press Super+H to deactivate")
    } else {
        String::from_str("DEACTIVATED")
    };
    Notice { summary: String::from_str("Mouse Keys"), body }
}

/// The notification shown when the mode changes (keypad Enter).
pub fn mode_change(mode: Mode) -> (n: Notice)
    ensures
        n.summary@ == app_title(),
        n.body@ == mode_body(mode),
{
    let body = String::from_str("mode: ").concat(mode.as_str());
    Notice { summary: String::from_str("Mouse Keys"), body }
}

/// The notification shown when the motion speed changes.
pub fn speed_change(speed: u32) -> (n: Notice)
    ensures
        n.summary@ == app_title(),
        n.body@ == speed_body(speed as nat),
{
    let mut body = String::from_str("speed: ");
    append_decimal(&mut body, speed);
    Notice { summary: String::from_str("Mouse Keys"), body }
}

/// The notification shown when the scroll speed changes.
pub fn scroll_speed_change(speed: u32) -> (n: Notice)
    ensures
        n.summary@ == app_title(),
        n.body@ == scroll_speed_body(speed as nat),
{
    let mut body = String::from_str("scroll speed: ");
    append_decimal(&mut body, speed);
    Notice { summary: String::from_str("Mouse Keys"), body }
}

} // verus!
