//! Touch input types.

use vstd::prelude::*;

verus! {

/// One tracked touch contact.
#[derive(Clone, Copy, Debug, PartialEq, Eq, Structural)]
pub struct TouchPoint {
    /// Touch id (for tracking across events)
    pub id: u32,
    /// X coordinate
    pub x: u32,
    /// Y coordinate
    pub y: u32,
    /// Pressure (0-255)
    pub pressure: u8,
    /// Touch area in pixels
    pub area: u32,
}

/// A touch event.
#[derive(Clone, Copy, Debug, PartialEq, Eq, Structural)]
pub enum TouchEvent {
    /// Contact began
    Down(TouchPoint),
    /// Contact moved
    Move(TouchPoint),
    /// Contact ended
    Up(TouchPoint),
}

} // verus!
