//! The window events that the engine takes, as plain values.

use vstd::prelude::*;

verus! {

/// Identifies a logical key. Two events speak of the same key exactly when
/// their identifiers are equal.
pub type Key = u64;

/// Identifies a window among those of the platform.
pub type WindowId = u64;

/// A size in physical pixels.
#[derive(Clone, Copy, Debug, PartialEq, Eq, Structural)]
pub struct PixelSize {
    pub width: u32,
    pub height: u32,
}

impl PixelSize {
    /// A size is degenerate when it spans no pixel, as that of a minimized
    /// window does.
    pub open spec fn spec_is_degenerate(&self) -> bool {
        self.width == 0 || self.height == 0
    }

    /// Whether the size spans no pixel.
    #[verifier::when_used_as_spec(spec_is_degenerate)]
    pub fn is_degenerate(&self) -> (degenerate: bool)
        ensures
            degenerate == self.spec_is_degenerate(),
    {
        self.width == 0 || self.height == 0
    }
}

/// Whether a key or button went down or came up.
#[derive(Clone, Copy, Debug, PartialEq, Eq, Structural)]
pub enum ElementState {
    Pressed,
    Released,
}

/// A button of the pointing device.
#[derive(Clone, Copy, Debug, PartialEq, Eq, Structural)]
pub enum MouseButton {
    Left,
    Right,
    Middle,
    Back,
    Forward,
    Other(u16),
}

/// How far the wheel turned, horizontal part first.
#[derive(Clone, Copy, Debug, PartialEq, Eq, Structural)]
pub enum MouseScrollDelta {
    /// In lines or rows.
    LineDelta(i32, i32),
    /// In pixels.
    PixelDelta(i32, i32),
}

/// An event of the window.
#[derive(Clone, Copy, Debug, PartialEq, Eq, Structural)]
pub enum WindowEvent {
    /// The user asked to close the window.
    CloseRequested,
    /// The window has a new inner size.
    Resized(PixelSize),
    /// The window moved to a display of another scale factor; it has the
    /// given inner size now.
    ScaleFactorChanged { inner_size: PixelSize },
    /// The window wants its contents drawn.
    RedrawRequested,
    /// A key went down, came up, or repeats while held.
    KeyboardInput { logical_key: Key, state: ElementState },
    /// The pointer moved to a position in the window.
    CursorMoved { x: i32, y: i32 },
    /// A button of the pointing device went down or came up.
    MouseInput { state: ElementState, button: MouseButton },
    /// The wheel turned.
    MouseWheel { delta: MouseScrollDelta },
    /// Any other event.
    Other,
}

} // verus!
