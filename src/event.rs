//! Input vocabulary shared by the window and device events.
use vstd::prelude::*;

verus! {

/// The input state of a key or button.
#[derive(Debug, Hash, PartialEq, Eq, Structural, Clone, Copy, PartialOrd, Ord)]
pub enum ElementState {
    Pressed,
    Released,
}

/// A button on a mouse.
#[derive(Debug, Hash, PartialEq, Eq, Structural, Clone, Copy, PartialOrd, Ord)]
pub enum MouseButton {
    Left,
    Right,
    Middle,
    Other(u8),
}

/// Describes touch-screen input state.
#[derive(Debug, Hash, PartialEq, Eq, Structural, Clone, Copy)]
pub enum TouchPhase {
    Started,
    Moved,
    Ended,
    /// The touch has been cancelled by the OS, for instance when the window
    /// lost focus.
    Cancelled,
}

/// The error returned when a proxy tries to wake an event loop that no
/// longer exists.
#[derive(Debug, Copy, Clone, PartialEq, Eq, Structural, Hash)]
pub struct EventLoopClosed;

} // verus!
