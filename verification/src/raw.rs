//! Raw inputs: what happened at a device, independent of the window system
//! that reported it.

use vstd::prelude::*;

use crate::types::{ButtonId, DeviceType, KeyCode, Modifiers, RawAction, Timestamp, WindowPosition};

verus! {

/// What a key or button did, as a window system reports it.
#[derive(Debug, Clone, Copy, PartialEq, Eq, Hash, Structural)]
pub enum RawInputAction {
    Press,
    Release,
    Repeat,
}

/// The argument value that stands for what a key or button did.
pub open spec fn spec_raw_action(action: RawInputAction) -> RawAction {
    match action {
        RawInputAction::Press => RawAction::Press,
        RawInputAction::Release => RawAction::Release,
        RawInputAction::Repeat => RawAction::Repeat,
    }
}

impl From<RawInputAction> for RawAction {
    fn from(action: RawInputAction) -> (r: RawAction) {
        match action {
            RawInputAction::Press => RawAction::Press,
            RawInputAction::Release => RawAction::Release,
            RawInputAction::Repeat => RawAction::Repeat,
        }
    }
}

impl vstd::std_specs::convert::FromSpecImpl<RawInputAction> for RawAction {
    open spec fn obeys_from_spec() -> bool {
        true
    }

    open spec fn from_spec(action: RawInputAction) -> RawAction {
        spec_raw_action(action)
    }
}

/// One physical input occurrence, independent of the window system.
/// Positions and distances are fixed-point fractions of the window size.
#[derive(Debug, Clone, Copy, PartialEq, Eq)]
pub enum RawInputEvent {
    /// A key was pressed, released or repeats.
    Key(KeyCode, RawInputAction, Modifiers),
    /// The cursor is at this position.
    CursorPosition(i32, i32),
    /// The cursor moved by this distance since its last known position.
    Motion(i64, i64),
    /// A mouse button was pressed or released while the cursor was at the
    /// given position.
    Button(ButtonId, WindowPosition, RawInputAction, Modifiers),
    /// The wheel was turned by this distance.
    Scroll(i64, i64),
    /// A character was typed.
    Char(char),
    /// The window has this size in pixels.
    Resize(u32, u32),
    /// The window gained or lost the focus.
    Focus(bool),
    /// The window was asked to close.
    Close,
}

/// A raw input event with its time and origin.
#[derive(Debug, Clone, Copy, PartialEq, Eq)]
pub struct RawInput {
    pub time: Timestamp,
    pub device_type: DeviceType,
    pub device_id: u32,
    pub event: RawInputEvent,
}

impl RawInput {
    pub fn new(time: Timestamp, device_type: DeviceType, device_id: u32, event: RawInputEvent) -> (raw:
        RawInput)
        ensures
            raw == (RawInput { time, device_type, device_id, event }),
    {
        RawInput { time, device_type, device_id, event }
    }
}

} // verus!
