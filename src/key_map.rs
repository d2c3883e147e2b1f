//! Normalisation of raw key codes.
//!
//! A raw key event carries a virtual-key code, a hardware scan code and an
//! "extended" flag. Normalising it first rewrites the codes that are
//! ambiguous on their own (which Shift, Ctrl or Alt; the Pause, NumLock and
//! ScrollLock aliases), then classifies the key twice: by place (scan code)
//! into a `PhysicalKey` and by meaning (virtual-key code) into a
//! `LogicalKey`. Either may be absent for a key that no table knows.
use vstd::prelude::*;

use crate::event::ElementState;
use crate::keyboard::{
    CommandKey, EditKey, FunctionKey, LogicalAlphaNumKey, LogicalKey, MediaKey, ModifierKey,
    ModifierState, NavigationKey, NumpadKey, PhysicalAlphaNumKey, PhysicalKey,
};

verus! {

/// Either Shift key, before disambiguation.
pub const VK_SHIFT: i32 = 0x10;
/// Either Control key, before disambiguation.
pub const VK_CONTROL: i32 = 0x11;
/// Either Alt key, before disambiguation.
pub const VK_MENU: i32 = 0x12;
pub const VK_PAUSE: i32 = 0x13;
pub const VK_NUMLOCK: i32 = 0x90;
pub const VK_SCROLL: i32 = 0x91;
pub const VK_LSHIFT: i32 = 0xA0;
pub const VK_RSHIFT: i32 = 0xA1;
pub const VK_LCONTROL: i32 = 0xA2;
pub const VK_RCONTROL: i32 = 0xA3;
pub const VK_LMENU: i32 = 0xA4;
pub const VK_RMENU: i32 = 0xA5;

/// Scan code of the right Shift key; the left one, and any other scan code
/// that arrives with `VK_SHIFT`, stands for left Shift.
pub const SCANCODE_RIGHT_SHIFT: u32 = 0x36;
/// Scan code that the Pause key is reported with once it has been
/// disambiguated.
pub const SCANCODE_PAUSE: u32 = 0x45;
/// Scan code of the first, spurious notification of a Pause press.
pub const SCANCODE_PAUSE_DUPLICATE: u32 = 0x1D;
/// Scan code shared by ScrollLock and, with the extended flag, by Pause.
pub const SCANCODE_SCROLL_LOCK: u32 = 0x46;
/// Scan code reported for NumLock: its base code `0x45` with the extended
/// marker `0x100`, which keeps it apart from Pause.
pub const SCANCODE_NUMLOCK: u32 = 0x145;

/// Keys that are classified the same way physically and logically.
#[derive(Debug, Clone, Copy, PartialEq, Eq, Structural)]
pub enum CommonKey {
    Edit(EditKey),
    Command(CommandKey),
    Function(FunctionKey),
    Navigation(NavigationKey),
    /// The non-digit keypad keys, and the digits when NumLock is on.
    Numpad(NumpadKey),
    Modifier(ModifierKey),
    Media(MediaKey),
}

impl CommonKey {
    pub open spec fn physical(self) -> PhysicalKey {
        match self {
            CommonKey::Edit(k) => PhysicalKey::Edit(k),
            CommonKey::Command(k) => PhysicalKey::Command(k),
            CommonKey::Function(k) => PhysicalKey::Function(k),
            CommonKey::Navigation(k) => PhysicalKey::Navigation(k),
            CommonKey::Numpad(k) => PhysicalKey::Numpad(k),
            CommonKey::Modifier(k) => PhysicalKey::Modifier(k),
            CommonKey::Media(k) => PhysicalKey::Media(k),
        }
    }

    pub open spec fn logical(self) -> LogicalKey {
        match self {
            CommonKey::Edit(k) => LogicalKey::Edit(k),
            CommonKey::Command(k) => LogicalKey::Command(k),
            CommonKey::Function(k) => LogicalKey::Function(k),
            CommonKey::Navigation(k) => LogicalKey::Navigation(k),
            CommonKey::Numpad(k) => LogicalKey::Numpad(k),
            CommonKey::Modifier(k) => LogicalKey::Modifier(k),
            CommonKey::Media(k) => LogicalKey::Media(k),
        }
    }

    /// The key as a `PhysicalKey`.
    pub fn to_physical(self) -> (r: PhysicalKey)
        ensures
            r == self.physical(),
    {
        match self {
            CommonKey::Edit(k) => PhysicalKey::Edit(k),
            CommonKey::Command(k) => PhysicalKey::Command(k),
            CommonKey::Function(k) => PhysicalKey::Function(k),
            CommonKey::Navigation(k) => PhysicalKey::Navigation(k),
            CommonKey::Numpad(k) => PhysicalKey::Numpad(k),
            CommonKey::Modifier(k) => PhysicalKey::Modifier(k),
            CommonKey::Media(k) => PhysicalKey::Media(k),
        }
    }

    /// The key as a `LogicalKey`.
    pub fn to_logical(self) -> (r: LogicalKey)
        ensures
            r == self.logical(),
    {
        match self {
            CommonKey::Edit(k) => LogicalKey::Edit(k),
            CommonKey::Command(k) => LogicalKey::Command(k),
            CommonKey::Function(k) => LogicalKey::Function(k),
            CommonKey::Navigation(k) => LogicalKey::Navigation(k),
            CommonKey::Numpad(k) => LogicalKey::Numpad(k),
            CommonKey::Modifier(k) => LogicalKey::Modifier(k),
            CommonKey::Media(k) => LogicalKey::Media(k),
        }
    }

    /// Looks a disambiguated virtual-key code up in the table of keys with
    /// no layout-dependent meaning. Enter splits by the extended flag; the
    /// navigation, Insert and Delete keys count only when extended, since
    /// without it they are the keypad's digits.
    pub fn from_raw(vkey: i32, extended: bool) -> (r: Option<CommonKey>)
        ensures
            r == common_key_of(vkey, extended),
    {
        match vkey {
            0x08 => Some(CommonKey::Edit(EditKey::Backspace)),  // VK_BACK
            0x09 => Some(CommonKey::Edit(EditKey::Tab)),  // VK_TAB
            0x0D => Some(CommonKey::Edit(if extended { EditKey::EnterRight } else { EditKey::EnterLeft })),  // VK_RETURN
            0x13 => Some(CommonKey::Command(CommandKey::PauseBreak)),  // VK_PAUSE
            0x14 => Some(CommonKey::Modifier(ModifierKey::CapsLock)),  // VK_CAPITAL
            0x15 => Some(CommonKey::Command(CommandKey::Convert)),  // VK_HANGUL
            0x19 => Some(CommonKey::Command(CommandKey::NonConvert)),  // VK_HANJA
            0x1B => Some(CommonKey::Command(CommandKey::Escape)),  // VK_ESCAPE
            0x1C => Some(CommonKey::Command(CommandKey::Convert)),  // VK_CONVERT
            0x1D => Some(CommonKey::Command(CommandKey::NonConvert)),  // VK_NONCONVERT
            0x1F => Some(CommonKey::Command(CommandKey::IMEMode)),  // VK_MODECHANGE
            0x20 => Some(CommonKey::Edit(EditKey::Space)),  // VK_SPACE
            0x21 => if extended { Some(CommonKey::Navigation(NavigationKey::PageUp)) } else { None },  // VK_PRIOR
            0x22 => if extended { Some(CommonKey::Navigation(NavigationKey::PageDown)) } else { None },  // VK_NEXT
            0x23 => if extended { Some(CommonKey::Navigation(NavigationKey::End)) } else { None },  // VK_END
            0x24 => if extended { Some(CommonKey::Navigation(NavigationKey::Home)) } else { None },  // VK_HOME
            0x25 => if extended { Some(CommonKey::Navigation(NavigationKey::Left)) } else { None },  // VK_LEFT
            0x26 => if extended { Some(CommonKey::Navigation(NavigationKey::Up)) } else { None },  // VK_UP
            0x27 => if extended { Some(CommonKey::Navigation(NavigationKey::Right)) } else { None },  // VK_RIGHT
            0x28 => if extended { Some(CommonKey::Navigation(NavigationKey::Down)) } else { None },  // VK_DOWN
            0x2C => Some(CommonKey::Command(CommandKey::PrintScreen)),  // VK_SNAPSHOT
            0x2D => if extended { Some(CommonKey::Edit(EditKey::Insert)) } else { None },  // VK_INSERT
            0x2E => if extended { Some(CommonKey::Edit(EditKey::Delete)) } else { None },  // VK_DELETE
            0x5B => Some(CommonKey::Modifier(ModifierKey::MetaLeft)),  // VK_LWIN
            0x5C => Some(CommonKey::Modifier(ModifierKey::MetaRight)),  // VK_RWIN
            0x5D => Some(CommonKey::Command(CommandKey::Menu)),  // VK_APPS
            0x60 => Some(CommonKey::Numpad(NumpadKey::Num0)),  // VK_NUMPAD0
            0x61 => Some(CommonKey::Numpad(NumpadKey::Num1)),  // VK_NUMPAD1
            0x62 => Some(CommonKey::Numpad(NumpadKey::Num2)),  // VK_NUMPAD2
            0x63 => Some(CommonKey::Numpad(NumpadKey::Num3)),  // VK_NUMPAD3
            0x64 => Some(CommonKey::Numpad(NumpadKey::Num4)),  // VK_NUMPAD4
            0x65 => Some(CommonKey::Numpad(NumpadKey::Num5)),  // VK_NUMPAD5
            0x66 => Some(CommonKey::Numpad(NumpadKey::Num6)),  // VK_NUMPAD6
            0x67 => Some(CommonKey::Numpad(NumpadKey::Num7)),  // VK_NUMPAD7
            0x68 => Some(CommonKey::Numpad(NumpadKey::Num8)),  // VK_NUMPAD8
            0x69 => Some(CommonKey::Numpad(NumpadKey::Num9)),  // VK_NUMPAD9
            0x6A => Some(CommonKey::Numpad(NumpadKey::Multiply)),  // VK_MULTIPLY
            0x6B => Some(CommonKey::Numpad(NumpadKey::Add)),  // VK_ADD
            0x6D => Some(CommonKey::Numpad(NumpadKey::Subtract)),  // VK_SUBTRACT
            0x6E => Some(CommonKey::Numpad(NumpadKey::Period)),  // VK_DECIMAL
            0x6F => Some(CommonKey::Numpad(NumpadKey::Divide)),  // VK_DIVIDE
            0x70 => Some(CommonKey::Function(FunctionKey::F1)),  // VK_F1
            0x71 => Some(CommonKey::Function(FunctionKey::F2)),  // VK_F2
            0x72 => Some(CommonKey::Function(FunctionKey::F3)),  // VK_F3
            0x73 => Some(CommonKey::Function(FunctionKey::F4)),  // VK_F4
            0x74 => Some(CommonKey::Function(FunctionKey::F5)),  // VK_F5
            0x75 => Some(CommonKey::Function(FunctionKey::F6)),  // VK_F6
            0x76 => Some(CommonKey::Function(FunctionKey::F7)),  // VK_F7
            0x77 => Some(CommonKey::Function(FunctionKey::F8)),  // VK_F8
            0x78 => Some(CommonKey::Function(FunctionKey::F9)),  // VK_F9
            0x79 => Some(CommonKey::Function(FunctionKey::F10)),  // VK_F10
            0x7A => Some(CommonKey::Function(FunctionKey::F11)),  // VK_F11
            0x7B => Some(CommonKey::Function(FunctionKey::F12)),  // VK_F12
            0x7C => Some(CommonKey::Function(FunctionKey::F13)),  // VK_F13
            0x7D => Some(CommonKey::Function(FunctionKey::F14)),  // VK_F14
            0x7E => Some(CommonKey::Function(FunctionKey::F15)),  // VK_F15
            0x7F => Some(CommonKey::Function(FunctionKey::F16)),  // VK_F16
            0x80 => Some(CommonKey::Function(FunctionKey::F17)),  // VK_F17
            0x81 => Some(CommonKey::Function(FunctionKey::F18)),  // VK_F18
            0x82 => Some(CommonKey::Function(FunctionKey::F19)),  // VK_F19
            0x83 => Some(CommonKey::Function(FunctionKey::F20)),  // VK_F20
            0x84 => Some(CommonKey::Function(FunctionKey::F21)),  // VK_F21
            0x85 => Some(CommonKey::Function(FunctionKey::F22)),  // VK_F22
            0x86 => Some(CommonKey::Function(FunctionKey::F23)),  // VK_F23
            0x87 => Some(CommonKey::Function(FunctionKey::F24)),  // VK_F24
            0x90 => Some(CommonKey::Modifier(ModifierKey::NumLock)),  // VK_NUMLOCK
            0x91 => Some(CommonKey::Modifier(ModifierKey::ScrollLock)),  // VK_SCROLL
            0xA0 => Some(CommonKey::Modifier(ModifierKey::ShiftLeft)),  // VK_LSHIFT
            0xA1 => Some(CommonKey::Modifier(ModifierKey::ShiftRight)),  // VK_RSHIFT
            0xA2 => Some(CommonKey::Modifier(ModifierKey::ControlLeft)),  // VK_LCONTROL
            0xA3 => Some(CommonKey::Modifier(ModifierKey::ControlRight)),  // VK_RCONTROL
            0xA4 => Some(CommonKey::Modifier(ModifierKey::AltLeft)),  // VK_LMENU
            0xA5 => Some(CommonKey::Modifier(ModifierKey::AltRight)),  // VK_RMENU
            0xB0 => Some(CommonKey::Media(MediaKey::TrackNext)),  // VK_MEDIA_NEXT_TRACK
            0xB1 => Some(CommonKey::Media(MediaKey::TrackPrevious)),  // VK_MEDIA_PREV_TRACK
            0xB2 => Some(CommonKey::Media(MediaKey::Stop)),  // VK_MEDIA_STOP
            0xB3 => Some(CommonKey::Media(MediaKey::PlayPause)),  // VK_MEDIA_PLAY_PAUSE
            _ => None,
        }
    }
}

/// The table of keys with no layout-dependent meaning, by virtual-key code.
pub open spec fn common_key_of(vkey: i32, extended: bool) -> Option<CommonKey> {
    match vkey {
        0x08 => Some(CommonKey::Edit(EditKey::Backspace)),  // VK_BACK
        0x09 => Some(CommonKey::Edit(EditKey::Tab)),  // VK_TAB
        0x0D => Some(CommonKey::Edit(if extended { EditKey::EnterRight } else { EditKey::EnterLeft })),  // VK_RETURN
        0x13 => Some(CommonKey::Command(CommandKey::PauseBreak)),  // VK_PAUSE
        0x14 => Some(CommonKey::Modifier(ModifierKey::CapsLock)),  // VK_CAPITAL
        0x15 => Some(CommonKey::Command(CommandKey::Convert)),  // VK_HANGUL
        0x19 => Some(CommonKey::Command(CommandKey::NonConvert)),  // VK_HANJA
        0x1B => Some(CommonKey::Command(CommandKey::Escape)),  // VK_ESCAPE
        0x1C => Some(CommonKey::Command(CommandKey::Convert)),  // VK_CONVERT
        0x1D => Some(CommonKey::Command(CommandKey::NonConvert)),  // VK_NONCONVERT
        0x1F => Some(CommonKey::Command(CommandKey::IMEMode)),  // VK_MODECHANGE
        0x20 => Some(CommonKey::Edit(EditKey::Space)),  // VK_SPACE
        0x21 => if extended { Some(CommonKey::Navigation(NavigationKey::PageUp)) } else { None },  // VK_PRIOR
        0x22 => if extended { Some(CommonKey::Navigation(NavigationKey::PageDown)) } else { None },  // VK_NEXT
        0x23 => if extended { Some(CommonKey::Navigation(NavigationKey::End)) } else { None },  // VK_END
        0x24 => if extended { Some(CommonKey::Navigation(NavigationKey::Home)) } else { None },  // VK_HOME
        0x25 => if extended { Some(CommonKey::Navigation(NavigationKey::Left)) } else { None },  // VK_LEFT
        0x26 => if extended { Some(CommonKey::Navigation(NavigationKey::Up)) } else { None },  // VK_UP
        0x27 => if extended { Some(CommonKey::Navigation(NavigationKey::Right)) } else { None },  // VK_RIGHT
        0x28 => if extended { Some(CommonKey::Navigation(NavigationKey::Down)) } else { None },  // VK_DOWN
        0x2C => Some(CommonKey::Command(CommandKey::PrintScreen)),  // VK_SNAPSHOT
        0x2D => if extended { Some(CommonKey::Edit(EditKey::Insert)) } else { None },  // VK_INSERT
        0x2E => if extended { Some(CommonKey::Edit(EditKey::Delete)) } else { None },  // VK_DELETE
        0x5B => Some(CommonKey::Modifier(ModifierKey::MetaLeft)),  // VK_LWIN
        0x5C => Some(CommonKey::Modifier(ModifierKey::MetaRight)),  // VK_RWIN
        0x5D => Some(CommonKey::Command(CommandKey::Menu)),  // VK_APPS
        0x60 => Some(CommonKey::Numpad(NumpadKey::Num0)),  // VK_NUMPAD0
        0x61 => Some(CommonKey::Numpad(NumpadKey::Num1)),  // VK_NUMPAD1
        0x62 => Some(CommonKey::Numpad(NumpadKey::Num2)),  // VK_NUMPAD2
        0x63 => Some(CommonKey::Numpad(NumpadKey::Num3)),  // VK_NUMPAD3
        0x64 => Some(CommonKey::Numpad(NumpadKey::Num4)),  // VK_NUMPAD4
        0x65 => Some(CommonKey::Numpad(NumpadKey::Num5)),  // VK_NUMPAD5
        0x66 => Some(CommonKey::Numpad(NumpadKey::Num6)),  // VK_NUMPAD6
        0x67 => Some(CommonKey::Numpad(NumpadKey::Num7)),  // VK_NUMPAD7
        0x68 => Some(CommonKey::Numpad(NumpadKey::Num8)),  // VK_NUMPAD8
        0x69 => Some(CommonKey::Numpad(NumpadKey::Num9)),  // VK_NUMPAD9
        0x6A => Some(CommonKey::Numpad(NumpadKey::Multiply)),  // VK_MULTIPLY
        0x6B => Some(CommonKey::Numpad(NumpadKey::Add)),  // VK_ADD
        0x6D => Some(CommonKey::Numpad(NumpadKey::Subtract)),  // VK_SUBTRACT
        0x6E => Some(CommonKey::Numpad(NumpadKey::Period)),  // VK_DECIMAL
        0x6F => Some(CommonKey::Numpad(NumpadKey::Divide)),  // VK_DIVIDE
        0x70 => Some(CommonKey::Function(FunctionKey::F1)),  // VK_F1
        0x71 => Some(CommonKey::Function(FunctionKey::F2)),  // VK_F2
        0x72 => Some(CommonKey::Function(FunctionKey::F3)),  // VK_F3
        0x73 => Some(CommonKey::Function(FunctionKey::F4)),  // VK_F4
        0x74 => Some(CommonKey::Function(FunctionKey::F5)),  // VK_F5
        0x75 => Some(CommonKey::Function(FunctionKey::F6)),  // VK_F6
        0x76 => Some(CommonKey::Function(FunctionKey::F7)),  // VK_F7
        0x77 => Some(CommonKey::Function(FunctionKey::F8)),  // VK_F8
        0x78 => Some(CommonKey::Function(FunctionKey::F9)),  // VK_F9
        0x79 => Some(CommonKey::Function(FunctionKey::F10)),  // VK_F10
        0x7A => Some(CommonKey::Function(FunctionKey::F11)),  // VK_F11
        0x7B => Some(CommonKey::Function(FunctionKey::F12)),  // VK_F12
        0x7C => Some(CommonKey::Function(FunctionKey::F13)),  // VK_F13
        0x7D => Some(CommonKey::Function(FunctionKey::F14)),  // VK_F14
        0x7E => Some(CommonKey::Function(FunctionKey::F15)),  // VK_F15
        0x7F => Some(CommonKey::Function(FunctionKey::F16)),  // VK_F16
        0x80 => Some(CommonKey::Function(FunctionKey::F17)),  // VK_F17
        0x81 => Some(CommonKey::Function(FunctionKey::F18)),  // VK_F18
        0x82 => Some(CommonKey::Function(FunctionKey::F19)),  // VK_F19
        0x83 => Some(CommonKey::Function(FunctionKey::F20)),  // VK_F20
        0x84 => Some(CommonKey::Function(FunctionKey::F21)),  // VK_F21
        0x85 => Some(CommonKey::Function(FunctionKey::F22)),  // VK_F22
        0x86 => Some(CommonKey::Function(FunctionKey::F23)),  // VK_F23
        0x87 => Some(CommonKey::Function(FunctionKey::F24)),  // VK_F24
        0x90 => Some(CommonKey::Modifier(ModifierKey::NumLock)),  // VK_NUMLOCK
        0x91 => Some(CommonKey::Modifier(ModifierKey::ScrollLock)),  // VK_SCROLL
        0xA0 => Some(CommonKey::Modifier(ModifierKey::ShiftLeft)),  // VK_LSHIFT
        0xA1 => Some(CommonKey::Modifier(ModifierKey::ShiftRight)),  // VK_RSHIFT
        0xA2 => Some(CommonKey::Modifier(ModifierKey::ControlLeft)),  // VK_LCONTROL
        0xA3 => Some(CommonKey::Modifier(ModifierKey::ControlRight)),  // VK_RCONTROL
        0xA4 => Some(CommonKey::Modifier(ModifierKey::AltLeft)),  // VK_LMENU
        0xA5 => Some(CommonKey::Modifier(ModifierKey::AltRight)),  // VK_RMENU
        0xB0 => Some(CommonKey::Media(MediaKey::TrackNext)),  // VK_MEDIA_NEXT_TRACK
        0xB1 => Some(CommonKey::Media(MediaKey::TrackPrevious)),  // VK_MEDIA_PREV_TRACK
        0xB2 => Some(CommonKey::Media(MediaKey::Stop)),  // VK_MEDIA_STOP
        0xB3 => Some(CommonKey::Media(MediaKey::PlayPause)),  // VK_MEDIA_PLAY_PAUSE
        _ => None,
    }
}

/// The alphanumeric block by scan code: the key at each position of the
/// standard ANSI/ISO matrix, named by its US legend.
pub open spec fn scancode_alpha_num(scancode: u32) -> Option<PhysicalAlphaNumKey> {
    match scancode {
        0x02 => Some(PhysicalAlphaNumKey::Key1),
        0x03 => Some(PhysicalAlphaNumKey::Key2),
        0x04 => Some(PhysicalAlphaNumKey::Key3),
        0x05 => Some(PhysicalAlphaNumKey::Key4),
        0x06 => Some(PhysicalAlphaNumKey::Key5),
        0x07 => Some(PhysicalAlphaNumKey::Key6),
        0x08 => Some(PhysicalAlphaNumKey::Key7),
        0x09 => Some(PhysicalAlphaNumKey::Key8),
        0x0A => Some(PhysicalAlphaNumKey::Key9),
        0x0B => Some(PhysicalAlphaNumKey::Key0),
        0x0C => Some(PhysicalAlphaNumKey::IntlDash),
        0x0D => Some(PhysicalAlphaNumKey::IntlEquals),
        0x10 => Some(PhysicalAlphaNumKey::Q),
        0x11 => Some(PhysicalAlphaNumKey::W),
        0x12 => Some(PhysicalAlphaNumKey::E),
        0x13 => Some(PhysicalAlphaNumKey::R),
        0x14 => Some(PhysicalAlphaNumKey::T),
        0x15 => Some(PhysicalAlphaNumKey::Y),
        0x16 => Some(PhysicalAlphaNumKey::U),
        0x17 => Some(PhysicalAlphaNumKey::I),
        0x18 => Some(PhysicalAlphaNumKey::O),
        0x19 => Some(PhysicalAlphaNumKey::P),
        0x1A => Some(PhysicalAlphaNumKey::IntlLeftBracket),
        0x1B => Some(PhysicalAlphaNumKey::IntlRightBracket),
        0x1E => Some(PhysicalAlphaNumKey::A),
        0x1F => Some(PhysicalAlphaNumKey::S),
        0x20 => Some(PhysicalAlphaNumKey::D),
        0x21 => Some(PhysicalAlphaNumKey::F),
        0x22 => Some(PhysicalAlphaNumKey::G),
        0x23 => Some(PhysicalAlphaNumKey::H),
        0x24 => Some(PhysicalAlphaNumKey::J),
        0x25 => Some(PhysicalAlphaNumKey::K),
        0x26 => Some(PhysicalAlphaNumKey::L),
        0x27 => Some(PhysicalAlphaNumKey::IntlSemicolon),
        0x28 => Some(PhysicalAlphaNumKey::IntlApostrophe),
        0x29 => Some(PhysicalAlphaNumKey::IntlGrave),
        0x2B => Some(PhysicalAlphaNumKey::IntlBackslashRight),
        0x2C => Some(PhysicalAlphaNumKey::Z),
        0x2D => Some(PhysicalAlphaNumKey::X),
        0x2E => Some(PhysicalAlphaNumKey::C),
        0x2F => Some(PhysicalAlphaNumKey::V),
        0x30 => Some(PhysicalAlphaNumKey::B),
        0x31 => Some(PhysicalAlphaNumKey::N),
        0x32 => Some(PhysicalAlphaNumKey::M),
        0x33 => Some(PhysicalAlphaNumKey::IntlComma),
        0x34 => Some(PhysicalAlphaNumKey::IntlPeriod),
        0x35 => Some(PhysicalAlphaNumKey::IntlSlash),
        0x56 => Some(PhysicalAlphaNumKey::IntlBackslashLeft),
        0x73 => Some(PhysicalAlphaNumKey::IntlRo),
        0x7D => Some(PhysicalAlphaNumKey::IntlYen),
        _ => None,
    }
}

/// The keypad digits as reported without NumLock, when the virtual-key code
/// is that of the navigation key printed on them.
pub open spec fn numpad_overlay(vkey: i32) -> Option<NumpadKey> {
    match vkey {
        0x0C => Some(NumpadKey::Num5),  // VK_CLEAR
        0x21 => Some(NumpadKey::Num9),  // VK_PRIOR
        0x22 => Some(NumpadKey::Num3),  // VK_NEXT
        0x23 => Some(NumpadKey::Num1),  // VK_END
        0x24 => Some(NumpadKey::Num7),  // VK_HOME
        0x25 => Some(NumpadKey::Num4),  // VK_LEFT
        0x26 => Some(NumpadKey::Num8),  // VK_UP
        0x27 => Some(NumpadKey::Num6),  // VK_RIGHT
        0x28 => Some(NumpadKey::Num2),  // VK_DOWN
        0x2D => Some(NumpadKey::Num0),  // VK_INSERT
        0x2E => Some(NumpadKey::Period),  // VK_DELETE
        _ => None,
    }
}

/// The alphanumeric keys by virtual-key code: letters and digits map one to
/// one, punctuation goes by the layout's OEM codes.
pub open spec fn vkey_alpha_num(vkey: i32) -> Option<LogicalAlphaNumKey> {
    match vkey {
        0x30 => Some(LogicalAlphaNumKey::Key0),  // '0'
        0x31 => Some(LogicalAlphaNumKey::Key1),  // '1'
        0x32 => Some(LogicalAlphaNumKey::Key2),  // '2'
        0x33 => Some(LogicalAlphaNumKey::Key3),  // '3'
        0x34 => Some(LogicalAlphaNumKey::Key4),  // '4'
        0x35 => Some(LogicalAlphaNumKey::Key5),  // '5'
        0x36 => Some(LogicalAlphaNumKey::Key6),  // '6'
        0x37 => Some(LogicalAlphaNumKey::Key7),  // '7'
        0x38 => Some(LogicalAlphaNumKey::Key8),  // '8'
        0x39 => Some(LogicalAlphaNumKey::Key9),  // '9'
        0x41 => Some(LogicalAlphaNumKey::A),  // 'A'
        0x42 => Some(LogicalAlphaNumKey::B),  // 'B'
        0x43 => Some(LogicalAlphaNumKey::C),  // 'C'
        0x44 => Some(LogicalAlphaNumKey::D),  // 'D'
        0x45 => Some(LogicalAlphaNumKey::E),  // 'E'
        0x46 => Some(LogicalAlphaNumKey::F),  // 'F'
        0x47 => Some(LogicalAlphaNumKey::G),  // 'G'
        0x48 => Some(LogicalAlphaNumKey::H),  // 'H'
        0x49 => Some(LogicalAlphaNumKey::I),  // 'I'
        0x4A => Some(LogicalAlphaNumKey::J),  // 'J'
        0x4B => Some(LogicalAlphaNumKey::K),  // 'K'
        0x4C => Some(LogicalAlphaNumKey::L),  // 'L'
        0x4D => Some(LogicalAlphaNumKey::M),  // 'M'
        0x4E => Some(LogicalAlphaNumKey::N),  // 'N'
        0x4F => Some(LogicalAlphaNumKey::O),  // 'O'
        0x50 => Some(LogicalAlphaNumKey::P),  // 'P'
        0x51 => Some(LogicalAlphaNumKey::Q),  // 'Q'
        0x52 => Some(LogicalAlphaNumKey::R),  // 'R'
        0x53 => Some(LogicalAlphaNumKey::S),  // 'S'
        0x54 => Some(LogicalAlphaNumKey::T),  // 'T'
        0x55 => Some(LogicalAlphaNumKey::U),  // 'U'
        0x56 => Some(LogicalAlphaNumKey::V),  // 'V'
        0x57 => Some(LogicalAlphaNumKey::W),  // 'W'
        0x58 => Some(LogicalAlphaNumKey::X),  // 'X'
        0x59 => Some(LogicalAlphaNumKey::Y),  // 'Y'
        0x5A => Some(LogicalAlphaNumKey::Z),  // 'Z'
        0xBA => Some(LogicalAlphaNumKey::IntlSemicolon),  // VK_OEM_1
        0xBB => Some(LogicalAlphaNumKey::IntlEquals),  // VK_OEM_PLUS
        0xBC => Some(LogicalAlphaNumKey::IntlComma),  // VK_OEM_COMMA
        0xBD => Some(LogicalAlphaNumKey::IntlDash),  // VK_OEM_MINUS
        0xBE => Some(LogicalAlphaNumKey::IntlPeriod),  // VK_OEM_PERIOD
        0xBF => Some(LogicalAlphaNumKey::IntlSlash),  // VK_OEM_2
        0xC0 => Some(LogicalAlphaNumKey::IntlGrave),  // VK_OEM_3
        0xDB => Some(LogicalAlphaNumKey::IntlLeftBracket),  // VK_OEM_4
        0xDC => Some(LogicalAlphaNumKey::IntlBackslashRight),  // VK_OEM_5
        0xDD => Some(LogicalAlphaNumKey::IntlRightBracket),  // VK_OEM_6
        0xDE => Some(LogicalAlphaNumKey::IntlApostrophe),  // VK_OEM_7
        0xE2 => Some(LogicalAlphaNumKey::IntlRo),  // VK_OEM_102
        _ => None,
    }
}

/// The two positions whose logical meaning is taken from the scan code.
pub open spec fn scancode_logical_alpha_num(scancode: u32) -> Option<LogicalAlphaNumKey> {
    match scancode {
        0x56 => Some(LogicalAlphaNumKey::IntlBackslashLeft),
        0x7D => Some(LogicalAlphaNumKey::IntlYen),
        _ => None,
    }
}

fn physical_alpha_num_from_scancode(scancode: u32) -> (r: Option<PhysicalAlphaNumKey>)
    ensures
        r == scancode_alpha_num(scancode),
{
    match scancode {
        0x02 => Some(PhysicalAlphaNumKey::Key1),
        0x03 => Some(PhysicalAlphaNumKey::Key2),
        0x04 => Some(PhysicalAlphaNumKey::Key3),
        0x05 => Some(PhysicalAlphaNumKey::Key4),
        0x06 => Some(PhysicalAlphaNumKey::Key5),
        0x07 => Some(PhysicalAlphaNumKey::Key6),
        0x08 => Some(PhysicalAlphaNumKey::Key7),
        0x09 => Some(PhysicalAlphaNumKey::Key8),
        0x0A => Some(PhysicalAlphaNumKey::Key9),
        0x0B => Some(PhysicalAlphaNumKey::Key0),
        0x0C => Some(PhysicalAlphaNumKey::IntlDash),
        0x0D => Some(PhysicalAlphaNumKey::IntlEquals),
        0x10 => Some(PhysicalAlphaNumKey::Q),
        0x11 => Some(PhysicalAlphaNumKey::W),
        0x12 => Some(PhysicalAlphaNumKey::E),
        0x13 => Some(PhysicalAlphaNumKey::R),
        0x14 => Some(PhysicalAlphaNumKey::T),
        0x15 => Some(PhysicalAlphaNumKey::Y),
        0x16 => Some(PhysicalAlphaNumKey::U),
        0x17 => Some(PhysicalAlphaNumKey::I),
        0x18 => Some(PhysicalAlphaNumKey::O),
        0x19 => Some(PhysicalAlphaNumKey::P),
        0x1A => Some(PhysicalAlphaNumKey::IntlLeftBracket),
        0x1B => Some(PhysicalAlphaNumKey::IntlRightBracket),
        0x1E => Some(PhysicalAlphaNumKey::A),
        0x1F => Some(PhysicalAlphaNumKey::S),
        0x20 => Some(PhysicalAlphaNumKey::D),
        0x21 => Some(PhysicalAlphaNumKey::F),
        0x22 => Some(PhysicalAlphaNumKey::G),
        0x23 => Some(PhysicalAlphaNumKey::H),
        0x24 => Some(PhysicalAlphaNumKey::J),
        0x25 => Some(PhysicalAlphaNumKey::K),
        0x26 => Some(PhysicalAlphaNumKey::L),
        0x27 => Some(PhysicalAlphaNumKey::IntlSemicolon),
        0x28 => Some(PhysicalAlphaNumKey::IntlApostrophe),
        0x29 => Some(PhysicalAlphaNumKey::IntlGrave),
        0x2B => Some(PhysicalAlphaNumKey::IntlBackslashRight),
        0x2C => Some(PhysicalAlphaNumKey::Z),
        0x2D => Some(PhysicalAlphaNumKey::X),
        0x2E => Some(PhysicalAlphaNumKey::C),
        0x2F => Some(PhysicalAlphaNumKey::V),
        0x30 => Some(PhysicalAlphaNumKey::B),
        0x31 => Some(PhysicalAlphaNumKey::N),
        0x32 => Some(PhysicalAlphaNumKey::M),
        0x33 => Some(PhysicalAlphaNumKey::IntlComma),
        0x34 => Some(PhysicalAlphaNumKey::IntlPeriod),
        0x35 => Some(PhysicalAlphaNumKey::IntlSlash),
        0x56 => Some(PhysicalAlphaNumKey::IntlBackslashLeft),
        0x73 => Some(PhysicalAlphaNumKey::IntlRo),
        0x7D => Some(PhysicalAlphaNumKey::IntlYen),
        _ => None,
    }
}

fn numpad_from_vkey(vkey: i32) -> (r: Option<NumpadKey>)
    ensures
        r == numpad_overlay(vkey),
{
    match vkey {
        0x0C => Some(NumpadKey::Num5),  // VK_CLEAR
        0x21 => Some(NumpadKey::Num9),  // VK_PRIOR
        0x22 => Some(NumpadKey::Num3),  // VK_NEXT
        0x23 => Some(NumpadKey::Num1),  // VK_END
        0x24 => Some(NumpadKey::Num7),  // VK_HOME
        0x25 => Some(NumpadKey::Num4),  // VK_LEFT
        0x26 => Some(NumpadKey::Num8),  // VK_UP
        0x27 => Some(NumpadKey::Num6),  // VK_RIGHT
        0x28 => Some(NumpadKey::Num2),  // VK_DOWN
        0x2D => Some(NumpadKey::Num0),  // VK_INSERT
        0x2E => Some(NumpadKey::Period),  // VK_DELETE
        _ => None,
    }
}

fn logical_alpha_num_from_vkey(vkey: i32) -> (r: Option<LogicalAlphaNumKey>)
    ensures
        r == vkey_alpha_num(vkey),
{
    match vkey {
        0x30 => Some(LogicalAlphaNumKey::Key0),  // '0'
        0x31 => Some(LogicalAlphaNumKey::Key1),  // '1'
        0x32 => Some(LogicalAlphaNumKey::Key2),  // '2'
        0x33 => Some(LogicalAlphaNumKey::Key3),  // '3'
        0x34 => Some(LogicalAlphaNumKey::Key4),  // '4'
        0x35 => Some(LogicalAlphaNumKey::Key5),  // '5'
        0x36 => Some(LogicalAlphaNumKey::Key6),  // '6'
        0x37 => Some(LogicalAlphaNumKey::Key7),  // '7'
        0x38 => Some(LogicalAlphaNumKey::Key8),  // '8'
        0x39 => Some(LogicalAlphaNumKey::Key9),  // '9'
        0x41 => Some(LogicalAlphaNumKey::A),  // 'A'
        0x42 => Some(LogicalAlphaNumKey::B),  // 'B'
        0x43 => Some(LogicalAlphaNumKey::C),  // 'C'
        0x44 => Some(LogicalAlphaNumKey::D),  // 'D'
        0x45 => Some(LogicalAlphaNumKey::E),  // 'E'
        0x46 => Some(LogicalAlphaNumKey::F),  // 'F'
        0x47 => Some(LogicalAlphaNumKey::G),  // 'G'
        0x48 => Some(LogicalAlphaNumKey::H),  // 'H'
        0x49 => Some(LogicalAlphaNumKey::I),  // 'I'
        0x4A => Some(LogicalAlphaNumKey::J),  // 'J'
        0x4B => Some(LogicalAlphaNumKey::K),  // 'K'
        0x4C => Some(LogicalAlphaNumKey::L),  // 'L'
        0x4D => Some(LogicalAlphaNumKey::M),  // 'M'
        0x4E => Some(LogicalAlphaNumKey::N),  // 'N'
        0x4F => Some(LogicalAlphaNumKey::O),  // 'O'
        0x50 => Some(LogicalAlphaNumKey::P),  // 'P'
        0x51 => Some(LogicalAlphaNumKey::Q),  // 'Q'
        0x52 => Some(LogicalAlphaNumKey::R),  // 'R'
        0x53 => Some(LogicalAlphaNumKey::S),  // 'S'
        0x54 => Some(LogicalAlphaNumKey::T),  // 'T'
        0x55 => Some(LogicalAlphaNumKey::U),  // 'U'
        0x56 => Some(LogicalAlphaNumKey::V),  // 'V'
        0x57 => Some(LogicalAlphaNumKey::W),  // 'W'
        0x58 => Some(LogicalAlphaNumKey::X),  // 'X'
        0x59 => Some(LogicalAlphaNumKey::Y),  // 'Y'
        0x5A => Some(LogicalAlphaNumKey::Z),  // 'Z'
        0xBA => Some(LogicalAlphaNumKey::IntlSemicolon),  // VK_OEM_1
        0xBB => Some(LogicalAlphaNumKey::IntlEquals),  // VK_OEM_PLUS
        0xBC => Some(LogicalAlphaNumKey::IntlComma),  // VK_OEM_COMMA
        0xBD => Some(LogicalAlphaNumKey::IntlDash),  // VK_OEM_MINUS
        0xBE => Some(LogicalAlphaNumKey::IntlPeriod),  // VK_OEM_PERIOD
        0xBF => Some(LogicalAlphaNumKey::IntlSlash),  // VK_OEM_2
        0xC0 => Some(LogicalAlphaNumKey::IntlGrave),  // VK_OEM_3
        0xDB => Some(LogicalAlphaNumKey::IntlLeftBracket),  // VK_OEM_4
        0xDC => Some(LogicalAlphaNumKey::IntlBackslashRight),  // VK_OEM_5
        0xDD => Some(LogicalAlphaNumKey::IntlRightBracket),  // VK_OEM_6
        0xDE => Some(LogicalAlphaNumKey::IntlApostrophe),  // VK_OEM_7
        0xE2 => Some(LogicalAlphaNumKey::IntlRo),  // VK_OEM_102
        _ => None,
    }
}

fn logical_alpha_num_from_scancode(scancode: u32) -> (r: Option<LogicalAlphaNumKey>)
    ensures
        r == scancode_logical_alpha_num(scancode),
{
    match scancode {
        0x56 => Some(LogicalAlphaNumKey::IntlBackslashLeft),
        0x7D => Some(LogicalAlphaNumKey::IntlYen),
        _ => None,
    }
}

/// A raw key event after normalisation.
#[derive(Debug, Clone, Copy, PartialEq, Eq, Structural)]
pub struct MappedKey {
    /// The virtual-key code after disambiguation.
    pub vkey: i32,
    /// The scan code after disambiguation.
    pub scancode: u32,
    pub extended: bool,
    pub physical: Option<PhysicalKey>,
    pub logical: Option<LogicalKey>,
}

/// The codes that the disambiguation pass makes of a raw event, or `None`
/// for the spurious first notification of a Pause press, which is dropped.
/// The rules are tried in order:
/// - Shift is told apart by its scan code;
/// - Control and Alt by the extended flag (set on the right-hand key);
/// - NumLock keeps its code and gets its own scan code;
/// - Pause with scan code `0x1D` is the duplicate and is dropped;
/// - scan code `0x45` is Pause, whatever code came with it;
/// - scan code `0x46` is Pause when extended (reported as `0x45`), else
///   ScrollLock.
pub open spec fn corrected_codes(vkey: i32, scancode: u32, extended: bool) -> Option<(i32, u32)> {
    if vkey == VK_SHIFT {
        Some((if scancode == SCANCODE_RIGHT_SHIFT { VK_RSHIFT } else { VK_LSHIFT }, scancode))
    } else if vkey == VK_CONTROL {
        Some((if extended { VK_RCONTROL } else { VK_LCONTROL }, scancode))
    } else if vkey == VK_MENU {
        Some((if extended { VK_RMENU } else { VK_LMENU }, scancode))
    } else if vkey == VK_NUMLOCK {
        Some((vkey, SCANCODE_NUMLOCK))
    } else if vkey == VK_PAUSE && scancode == SCANCODE_PAUSE_DUPLICATE {
        None
    } else if scancode == SCANCODE_PAUSE {
        Some((VK_PAUSE, scancode))
    } else if scancode == SCANCODE_SCROLL_LOCK {
        if extended {
            Some((VK_PAUSE, SCANCODE_PAUSE))
        } else {
            Some((VK_SCROLL, scancode))
        }
    } else {
        Some((vkey, scancode))
    }
}

/// The physical classification of disambiguated codes: the common table by
/// virtual-key code, else the alphanumeric block by scan code, else, for a
/// key that is not extended, the keypad digits under their navigation codes.
pub open spec fn physical_key_of(vkey: i32, scancode: u32, extended: bool) -> Option<PhysicalKey> {
    match common_key_of(vkey, extended) {
        Some(c) => Some(c.physical()),
        None => match scancode_alpha_num(scancode) {
            Some(k) => Some(PhysicalKey::AlphaNum(k)),
            None => if extended {
                None
            } else {
                match numpad_overlay(vkey) {
                    Some(n) => Some(PhysicalKey::Numpad(n)),
                    None => None,
                }
            },
        },
    }
}

/// The logical classification of disambiguated codes: the common table,
/// else the alphanumeric keys by virtual-key code, else the two positions
/// taken from the scan code.
pub open spec fn logical_key_of(vkey: i32, scancode: u32, extended: bool) -> Option<LogicalKey> {
    match common_key_of(vkey, extended) {
        Some(c) => Some(c.logical()),
        None => match vkey_alpha_num(vkey) {
            Some(k) => Some(LogicalKey::AlphaNum(k)),
            None => match scancode_logical_alpha_num(scancode) {
                Some(k) => Some(LogicalKey::AlphaNum(k)),
                None => None,
            },
        },
    }
}

/// What normalising a raw event gives.
pub open spec fn normalized(vkey: i32, scancode: u32, extended: bool) -> Option<MappedKey> {
    match corrected_codes(vkey, scancode, extended) {
        None => None,
        Some((v, s)) => Some(
            MappedKey {
                vkey: v,
                scancode: s,
                extended,
                physical: physical_key_of(v, s, extended),
                logical: logical_key_of(v, s, extended),
            },
        ),
    }
}

fn correct_codes(vkey: i32, scancode: u32, extended: bool) -> (r: Option<(i32, u32)>)
    ensures
        r == corrected_codes(vkey, scancode, extended),
{
    if vkey == VK_SHIFT {
        Some((if scancode == SCANCODE_RIGHT_SHIFT { VK_RSHIFT } else { VK_LSHIFT }, scancode))
    } else if vkey == VK_CONTROL {
        Some((if extended { VK_RCONTROL } else { VK_LCONTROL }, scancode))
    } else if vkey == VK_MENU {
        Some((if extended { VK_RMENU } else { VK_LMENU }, scancode))
    } else if vkey == VK_NUMLOCK {
        Some((vkey, SCANCODE_NUMLOCK))
    } else if vkey == VK_PAUSE && scancode == SCANCODE_PAUSE_DUPLICATE {
        None
    } else if scancode == SCANCODE_PAUSE {
        Some((VK_PAUSE, scancode))
    } else if scancode == SCANCODE_SCROLL_LOCK {
        if extended {
            Some((VK_PAUSE, SCANCODE_PAUSE))
        } else {
            Some((VK_SCROLL, scancode))
        }
    } else {
        Some((vkey, scancode))
    }
}

/// Normalises a raw key event into its physical and logical keys.
///
/// Returns `None` only for the duplicate notification of a Pause press; an
/// unknown key is not an error and comes back with `None` on the axes that
/// could not classify it.
pub fn handle_extended_keys(vkey: i32, scancode: u32, extended: bool) -> (r: Option<MappedKey>)
    ensures
        r == normalized(vkey, scancode, extended),
{
    let (vkey, scancode) = match correct_codes(vkey, scancode, extended) {
        None => return None,
        Some(codes) => codes,
    };
    let common_key = CommonKey::from_raw(vkey, extended);
    let physical = match common_key {
        Some(c) => Some(c.to_physical()),
        None => match physical_alpha_num_from_scancode(scancode) {
            Some(k) => Some(PhysicalKey::AlphaNum(k)),
            None => if extended {
                None
            } else {
                match numpad_from_vkey(vkey) {
                    Some(n) => Some(PhysicalKey::Numpad(n)),
                    None => None,
                }
            },
        },
    };
    let logical = match common_key {
        Some(c) => Some(c.to_logical()),
        None => match logical_alpha_num_from_vkey(vkey) {
            Some(k) => Some(LogicalKey::AlphaNum(k)),
            None => match logical_alpha_num_from_scancode(scancode) {
                Some(k) => Some(LogicalKey::AlphaNum(k)),
                None => None,
            },
        },
    };
    Some(MappedKey { vkey, scancode, extended, physical, logical })
}

/// Folds a normalised key transition into the modifier state: a modifier or
/// lock key updates it as `ModifierState::update` does, any other key leaves
/// it as it is.
pub fn track_modifiers(mods: &mut ModifierState, key: &MappedKey, state: ElementState)
    ensures
        match key.physical {
            Some(PhysicalKey::Modifier(m)) => *final(mods) == old(mods).after_key(m, state),
            _ => *final(mods) == *old(mods),
        },
        old(mods).is_consistent() ==> final(mods).is_consistent(),
{
    if let Some(PhysicalKey::Modifier(m)) = key.physical {
        mods.update(m, state);
    }
}

/// A Pause press delivered twice: the notification with scan code `0x1D`
/// yields no event, and the one with scan code `0x45` is Pause/Break on both
/// axes, whatever virtual-key code and extended flag come with it, unless
/// that code is itself one of the codes disambiguated before the Pause
/// rules (Shift, Control, Alt, NumLock).
pub proof fn lemma_pause_delivered_once(first_extended: bool, vkey: i32, extended: bool)
    requires
        vkey != VK_SHIFT,
        vkey != VK_CONTROL,
        vkey != VK_MENU,
        vkey != VK_NUMLOCK,
    ensures
        normalized(VK_PAUSE, SCANCODE_PAUSE_DUPLICATE, first_extended).is_none(),
        normalized(vkey, SCANCODE_PAUSE, extended) matches Some(m) && m.physical == Some(
            PhysicalKey::Command(CommandKey::PauseBreak),
        ) && m.logical == Some(LogicalKey::Command(CommandKey::PauseBreak)),
{
}

} // verus!
