//! Decision logic of the Mouse Keys daemon: the numeric keypad turned into
//! a mouse controller.
//!
//! The library holds everything the daemon decides: which key codes map to
//! which mouse actions, the bounded runtime state (enabled flag, mode,
//! speeds, held button), the Super+H toggle chord, the frames of events
//! written to the virtual mouse and keyboard, the keyboard-detection
//! heuristic and the text of the desktop notifications. Opening devices,
//! polling, grabbing and writing events stay with the program around it.

pub mod codes;
pub mod keys;
pub mod state;
pub mod notify;
pub mod event;
pub mod mouse;
pub mod dispatch;
pub mod input;
pub mod laws;
