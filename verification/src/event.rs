//! Input events, as plain values.
//!
//! The window system delivers its events to the application shell,
//! which translates them into this enum before handing them to the
//! simulation.  Key codes are opaque `u32` values; positions and
//! wheel deltas are whole pixels.

use vstd::prelude::*;

verus! {

/// Whether a key or button went down or up.
#[derive(Clone, Copy, Debug, PartialEq, Eq, Structural)]
pub enum ElementState {
    Pressed,
    Released,
}

/// A mouse button.
#[derive(Clone, Copy, Debug, PartialEq, Eq, Structural)]
pub enum MouseButton {
    Left,
    Right,
    Middle,
    Other,
}

/// One discrete input event drained from the window system.
#[derive(Clone, Copy, Debug, PartialEq, Eq, Structural)]
pub enum Event {
    /// The window was destroyed.
    Destroyed,
    /// The user asked to close the window.
    CloseRequested,
    /// The cursor moved to this position, in pixels.
    CursorMoved { x: i64, y: i64 },
    /// The window gained or lost focus.
    Focused(bool),
    /// A mouse button went down or up.
    MouseInput { state: ElementState, button: MouseButton },
    /// The wheel scrolled by this many pixels.
    MouseWheel { dx: i64, dy: i64 },
    /// A character was typed.
    ReceivedCharacter(char),
    /// The window was resized.
    Resized,
    /// The window asked to be redrawn.
    Refresh,
    /// A key went down or up.
    KeyboardInput { state: ElementState, code: u32 },
}

} // verus!
