//! Raw input events as `(type, code, value)` triples.

use vstd::prelude::*;
use crate::codes::{EV_KEY, EV_REL};

verus! {

/// One raw input event: event type, code and value, as the kernel's
/// `struct input_event` carries them (the timestamp aside).
#[derive(Debug, Clone, Copy, PartialEq, Eq, Structural)]
pub struct RawEvent {
    pub kind: u16,
    pub code: u16,
    pub value: i32,
}

/// The key or button event `code` with `value` (0 release, 1 press).
pub open spec fn key_event(code: u16, value: i32) -> RawEvent {
    RawEvent { kind: EV_KEY, code, value }
}

/// The relative axis event `code` moved by `value`.
pub open spec fn rel_event(code: u16, value: i32) -> RawEvent {
    RawEvent { kind: EV_REL, code, value }
}

/// Build a key event (value 0 = release, 1 = press).
pub fn synthetic(code: u16, value: i32) -> (ev: RawEvent)
    ensures
        ev == key_event(code, value),
{
    RawEvent { kind: EV_KEY, code, value }
}

/// Build a relative axis event.
pub fn relative(code: u16, value: i32) -> (ev: RawEvent)
    ensures
        ev == rel_event(code, value),
{
    RawEvent { kind: EV_REL, code, value }
}

/// Whether the virtual keyboard re-emits `ev`: only key events are
/// forwarded; LEDs, scan codes and the like are dropped, since normal
/// typing does not need them and they could confuse libinput.
pub fn is_forwarded(ev: &RawEvent) -> (b: bool)
    ensures
        b == (ev.kind == EV_KEY),
{
    ev.kind == EV_KEY
}

} // verus!
