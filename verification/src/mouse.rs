//! What the virtual mouse writes: a 3-button mouse with a vertical and a
//! horizontal wheel.
//!
//! Each command becomes a sequence of frames; each frame is written to the
//! uinput device in one batch, which the kernel closes with a SYN report.

use vstd::prelude::*;
use crate::codes::{BTN_LEFT, BTN_MIDDLE, BTN_RIGHT, REL_HWHEEL, REL_WHEEL, REL_X, REL_Y};
use crate::event::{key_event, rel_event, relative, synthetic, RawEvent};

verus! {

/// One request to the virtual mouse.
#[derive(Debug, Clone, Copy, PartialEq, Eq, Structural)]
pub enum MouseCommand {
    /// Relative pointer motion by `(dx, dy)` pixels.
    MoveRel { dx: i32, dy: i32 },
    /// Vertical wheel: positive ticks turn it one way, negative the other.
    ScrollV(i32),
    /// Horizontal wheel: positive ticks turn it right, negative left.
    ScrollH(i32),
    /// Press and release the left button.
    LeftClick,
    /// Press and release the middle button.
    MiddleClick,
    /// Press and release the right button.
    RightClick,
    /// Press the left button and keep it down.
    HoldLeft,
    /// Release the left button.
    ReleaseLeft,
    /// Release every button.
    ReleaseAll,
}

/// A press frame followed by a release frame of `button`: two separate
/// frames, so that libinput registers a real click rather than a
/// zero-duration tap.
pub open spec fn click_frames(button: u16) -> Seq<Seq<RawEvent>> {
    seq![seq![key_event(button, 1)], seq![key_event(button, 0)]]
}

/// The events of a relative motion: X then Y, each only when non-zero.
pub open spec fn motion_events(dx: i32, dy: i32) -> Seq<RawEvent> {
    (if dx != 0 { seq![rel_event(REL_X, dx)] } else { Seq::empty() }) + (if dy != 0 {
        seq![rel_event(REL_Y, dy)]
    } else {
        Seq::empty()
    })
}

/// The frames written for `cmd`. Nothing at all is written for a motion
/// or scroll of zero.
pub open spec fn command_frames(cmd: MouseCommand) -> Seq<Seq<RawEvent>> {
    match cmd {
        MouseCommand::MoveRel { dx, dy } => if dx == 0 && dy == 0 {
            Seq::empty()
        } else {
            seq![motion_events(dx, dy)]
        },
        MouseCommand::ScrollV(ticks) => if ticks == 0 {
            Seq::empty()
        } else {
            seq![seq![rel_event(REL_WHEEL, ticks)]]
        },
        MouseCommand::ScrollH(ticks) => if ticks == 0 {
            Seq::empty()
        } else {
            seq![seq![rel_event(REL_HWHEEL, ticks)]]
        },
        MouseCommand::LeftClick => click_frames(BTN_LEFT),
        MouseCommand::MiddleClick => click_frames(BTN_MIDDLE),
        MouseCommand::RightClick => click_frames(BTN_RIGHT),
        MouseCommand::HoldLeft => seq![seq![key_event(BTN_LEFT, 1)]],
        MouseCommand::ReleaseLeft => seq![seq![key_event(BTN_LEFT, 0)]],
        MouseCommand::ReleaseAll => seq![
            seq![key_event(BTN_LEFT, 0), key_event(BTN_RIGHT, 0), key_event(BTN_MIDDLE, 0)],
        ],
    }
}

/// The frames of `frames`, each taken as a sequence.
pub open spec fn frames_view(frames: Seq<Vec<RawEvent>>) -> Seq<Seq<RawEvent>> {
    frames.map_values(|f: Vec<RawEvent>| f@)
}

fn click(button: u16) -> (frames: Vec<Vec<RawEvent>>)
    ensures
        frames_view(frames@) == click_frames(button),
{
    let press = vec![synthetic(button, 1)];
    let release = vec![synthetic(button, 0)];
    assert(press@ =~= seq![key_event(button, 1)]);
    assert(release@ =~= seq![key_event(button, 0)]);
    let frames = vec![press, release];
    assert(frames_view(frames@) =~= click_frames(button));
    frames
}

impl MouseCommand {
    /// The frames to write to the virtual mouse for this command.
    pub fn frames(self) -> (frames: Vec<Vec<RawEvent>>)
        ensures
            frames_view(frames@) == command_frames(self),
    {
        match self {
            MouseCommand::MoveRel { dx, dy } => {
                let mut events: Vec<RawEvent> = Vec::new();
                if dx != 0 {
                    events.push(relative(REL_X, dx));
                }
                if dy != 0 {
                    events.push(relative(REL_Y, dy));
                }
                assert(events@ =~= motion_events(dx, dy));
                if events.len() == 0 {
                    let frames: Vec<Vec<RawEvent>> = Vec::new();
                    assert(frames_view(frames@) =~= command_frames(self));
                    frames
                } else {
                    let frames = vec![events];
                    assert(frames_view(frames@) =~= command_frames(self));
                    frames
                }
            },
            MouseCommand::ScrollV(ticks) => {
                if ticks == 0 {
                    let frames: Vec<Vec<RawEvent>> = Vec::new();
                    assert(frames_view(frames@) =~= command_frames(self));
                    frames
                } else {
                    let frame = vec![relative(REL_WHEEL, ticks)];
                    assert(frame@ =~= seq![rel_event(REL_WHEEL, ticks)]);
                    let frames = vec![frame];
                    assert(frames_view(frames@) =~= command_frames(self));
                    frames
                }
            },
            MouseCommand::ScrollH(ticks) => {
                if ticks == 0 {
                    let frames: Vec<Vec<RawEvent>> = Vec::new();
                    assert(frames_view(frames@) =~= command_frames(self));
                    frames
                } else {
                    let frame = vec![relative(REL_HWHEEL, ticks)];
                    assert(frame@ =~= seq![rel_event(REL_HWHEEL, ticks)]);
                    let frames = vec![frame];
                    assert(frames_view(frames@) =~= command_frames(self));
                    frames
                }
            },
            MouseCommand::LeftClick => click(BTN_LEFT),
            MouseCommand::MiddleClick => click(BTN_MIDDLE),
            MouseCommand::RightClick => click(BTN_RIGHT),
            MouseCommand::HoldLeft => {
                let frame = vec![synthetic(BTN_LEFT, 1)];
                assert(frame@ =~= seq![key_event(BTN_LEFT, 1)]);
                let frames = vec![frame];
                assert(frames_view(frames@) =~= command_frames(self));
                frames
            },
            MouseCommand::ReleaseLeft => {
                let frame = vec![synthetic(BTN_LEFT, 0)];
                assert(frame@ =~= seq![key_event(BTN_LEFT, 0)]);
                let frames = vec![frame];
                assert(frames_view(frames@) =~= command_frames(self));
                frames
            },
            MouseCommand::ReleaseAll => {
                let frame = vec![
                    synthetic(BTN_LEFT, 0),
                    synthetic(BTN_RIGHT, 0),
                    synthetic(BTN_MIDDLE, 0),
                ];
                assert(frame@ =~= seq![
                    key_event(BTN_LEFT, 0),
                    key_event(BTN_RIGHT, 0),
                    key_event(BTN_MIDDLE, 0),
                ]);
                let frames = vec![frame];
                assert(frames_view(frames@) =~= command_frames(self));
                frames
            },
        }
    }
}

/// An event the virtual mouse may write: a press or release of one of its
/// three buttons, or a motion on one of its four relative axes.
pub open spec fn mouse_event(ev: RawEvent) -> bool {
    ||| ev == key_event(ev.code, ev.value) && (ev.code == BTN_LEFT || ev.code == BTN_RIGHT
        || ev.code == BTN_MIDDLE) && (ev.value == 0 || ev.value == 1)
    ||| ev == rel_event(ev.code, ev.value) && (ev.code == REL_X || ev.code == REL_Y || ev.code
        == REL_WHEEL || ev.code == REL_HWHEEL) && ev.value != 0
}

/// The virtual mouse writes only events of the kinds it declared, never an
/// empty frame, and never a zero motion.
pub proof fn lemma_frames_well_formed(cmd: MouseCommand)
    ensures
        forall|f: int|
            0 <= f < command_frames(cmd).len() ==> (#[trigger] command_frames(cmd)[f]).len() > 0,
        forall|f: int, e: int|
            0 <= f < command_frames(cmd).len() && 0 <= e < command_frames(cmd)[f].len()
                ==> mouse_event(#[trigger] command_frames(cmd)[f][e]),
{
    let frames = command_frames(cmd);
    assert forall|f: int, e: int| 0 <= f < frames.len() && 0 <= e < frames[f].len() implies mouse_event(
        #[trigger] frames[f][e],
    ) by {
        match cmd {
            MouseCommand::MoveRel { dx, dy } => {
                if dx != 0 && dy != 0 {
                    assert(frames[f] =~= seq![rel_event(REL_X, dx), rel_event(REL_Y, dy)]);
                } else if dx != 0 {
                    assert(frames[f] =~= seq![rel_event(REL_X, dx)]);
                } else if dy != 0 {
                    assert(frames[f] =~= seq![rel_event(REL_Y, dy)]);
                }
            },
            _ => {},
        }
    }
    assert forall|f: int| 0 <= f < frames.len() implies (#[trigger] frames[f]).len() > 0 by {
        match cmd {
            MouseCommand::MoveRel { dx, dy } => {
                if dx != 0 {
                    assert(frames[f][0] == rel_event(REL_X, dx));
                } else {
                    assert(frames[f] =~= seq![rel_event(REL_Y, dy)]);
                }
            },
            _ => {},
        }
    }
}

} // verus!
