//! The abstracted event model shared by every backend, and the Linux
//! input-subsystem backend itself.

pub mod linux_evdev;

use vstd::prelude::*;

verus! {

/// Which physical button a key event speaks of.
#[derive(Clone, Copy, Debug, PartialEq, Eq, Structural)]
pub enum Button {
    Left,
    Middle,
    Right,
}

/// Which absolute axis moved, carrying the reported position.
#[derive(Clone, Copy, Debug, PartialEq, Eq, Structural)]
pub enum AbsoluteMotionMoved {
    X(i32),
    Y(i32),
}

/// One abstracted input event, the unified shape every backend reports.
/// `Disconnect` and `Max` exist for parity with the foreign backend; the
/// Linux input-subsystem backend never produces them.
#[derive(Clone, Debug, PartialEq, Eq, Structural)]
pub enum ManyMouseEvent {
    Button { side: Button, is_pressed: bool },
    RelativeMotion { x: i32, y: i32 },
    AbsoluteMotion { moved: AbsoluteMotionMoved, min: i32, max: i32 },
    Scroll { value: i32, min: i32, max: i32 },
    Disconnect,
    Max {},
}

/// An abstracted event together with the registered device that produced it.
#[derive(Clone, Debug, PartialEq, Eq, Structural)]
pub struct Event {
    pub device_id: usize,
    pub event: ManyMouseEvent,
}

} // verus!
