//! Raw device events and the hints they carry.
use vstd::prelude::*;

use crate::keyboard::KeyEvent;

verus! {

/// A hint suggesting the type of button that was pressed.
#[derive(Debug, Copy, Clone, PartialEq, Eq, Structural, Hash, PartialOrd, Ord)]
pub enum GamepadButton {
    Start,
    Select,
    /// The north face button (Nintendo X, Playstation triangle, Xbox Y).
    North,
    /// The south face button (Nintendo B, Playstation X, Xbox A).
    South,
    /// The east face button (Nintendo A, Playstation circle, Xbox B).
    East,
    /// The west face button (Nintendo Y, Playstation square, Xbox X).
    West,
    LeftStick,
    RightStick,
    LeftTrigger,
    RightTrigger,
    LeftShoulder,
    RightShoulder,
    DPadUp,
    DPadDown,
    DPadLeft,
    DPadRight,
}

/// A hint suggesting the type of axis that moved.
#[derive(Debug, Copy, Clone, PartialEq, Eq, Structural, Hash, PartialOrd, Ord)]
pub enum GamepadAxis {
    LeftStickX,
    LeftStickY,
    RightStickX,
    RightStickY,
    LeftTrigger,
    RightTrigger,
}

/// A given joystick's side on the gamepad.
#[derive(Debug, Copy, Clone, PartialEq, Eq, Structural, Hash, PartialOrd, Ord)]
pub enum Side {
    Left,
    Right,
}

/// A controller's battery level, in the four steps that controllers report.
#[derive(Debug, Clone, Copy, PartialEq, Eq, Structural, Hash, PartialOrd, Ord)]
pub enum BatteryLevel {
    Empty,
    Low,
    Medium,
    Full,
}

/// Raw keyboard events.
#[derive(Debug, Copy, Clone, PartialEq, Eq, Structural, Hash)]
pub enum KeyboardEvent {
    /// A keyboard device has been added.
    Added,
    /// A keyboard device has been removed.
    Removed,
    /// A key has been pressed or released.
    Input(KeyEvent),
}

/// Raw events of a Human Interface Device.
#[derive(Debug, Clone, PartialEq, Eq, Hash)]
pub enum HidEvent {
    /// A device has been added.
    Added,
    /// A device has been removed.
    Removed,
    /// A raw data packet has been received from the device.
    Data(Vec<u8>),
}

} // verus!
