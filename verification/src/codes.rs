//! Linux input event codes (`linux/input-event-codes.h`) that the daemon
//! reads or writes. Events arrive and leave as raw `(type, code, value)`
//! triples, so the library names the codes it cares about as plain numbers.

use vstd::prelude::*;

verus! {

/// Event type of key and button events (`EV_KEY`).
pub const EV_KEY: u16 = 0x01;

/// Event type of relative axis events (`EV_REL`).
pub const EV_REL: u16 = 0x02;

/// Raw event value of a key release.
pub const KEY_RELEASE: i32 = 0;

/// Raw event value of a key press.
pub const KEY_PRESS: i32 = 1;

/// Raw event value of a key autorepeat.
pub const KEY_REPEAT: i32 = 2;

pub const KEY_ENTER: u16 = 28;
pub const KEY_H: u16 = 35;
pub const KEY_KPASTERISK: u16 = 55;
pub const KEY_SPACE: u16 = 57;
pub const KEY_KP7: u16 = 71;
pub const KEY_KP8: u16 = 72;
pub const KEY_KP9: u16 = 73;
pub const KEY_KPMINUS: u16 = 74;
pub const KEY_KP4: u16 = 75;
pub const KEY_KP5: u16 = 76;
pub const KEY_KP6: u16 = 77;
pub const KEY_KPPLUS: u16 = 78;
pub const KEY_KP1: u16 = 79;
pub const KEY_KP2: u16 = 80;
pub const KEY_KP3: u16 = 81;
pub const KEY_KP0: u16 = 82;
pub const KEY_KPDOT: u16 = 83;
pub const KEY_KPENTER: u16 = 96;
pub const KEY_KPSLASH: u16 = 98;
pub const KEY_LEFTMETA: u16 = 125;
pub const KEY_RIGHTMETA: u16 = 126;

/// Number of key codes the kernel defines (`KEY_CNT`): every key code is
/// below it.
pub const KEY_CNT: u16 = 0x300;

pub const BTN_LEFT: u16 = 0x110;
pub const BTN_RIGHT: u16 = 0x111;
pub const BTN_MIDDLE: u16 = 0x112;

pub const REL_X: u16 = 0x00;
pub const REL_Y: u16 = 0x01;
pub const REL_HWHEEL: u16 = 0x06;
pub const REL_WHEEL: u16 = 0x08;

} // verus!
