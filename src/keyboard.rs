//! Keyboard event types.
//!
//! `PhysicalKey` names where a key sits on the keyboard, whatever the layout.
//! `LogicalKey` names what the key means under the active layout.
use vstd::prelude::*;

use crate::event::ElementState;

verus! {

/// A keyboard event as the application sees it: a character, an input
/// method composition step, a key transition, or several at once.
#[derive(Debug, Clone, PartialEq, Eq, Hash)]
pub struct KeyboardEvent {
    pub chara: Option<char>,
    pub composition: Option<CompositionEvent>,
    pub key: Option<KeyEvent>,
}

/// A step of an input method composition; the strings pass through untouched.
#[derive(Debug, Clone, PartialEq, Eq, Hash)]
pub enum CompositionEvent {
    Start(String),
    Update(String),
    End(String),
    Cancel,
}

/// Describes a keyboard input event.
#[derive(Debug, Clone, Copy, PartialEq, Eq, Structural, Hash)]
pub struct KeyEvent {
    pub state: KeyState,
    pub key: Option<Key>,
}

/// A key, by place and by meaning.
#[derive(Debug, Hash, PartialEq, Eq, Structural, Clone, Copy, PartialOrd, Ord)]
pub struct Key {
    pub physical: PhysicalKey,
    pub logical: LogicalKey,
}

/// Whether a key went down, is held down and repeating, or came up.
#[derive(Debug, Hash, PartialEq, Eq, Structural, Clone, Copy, PartialOrd, Ord)]
pub enum KeyState {
    Pressed,
    /// Held down; the count says how many repeat notifications have come.
    Repeated(usize),
    Released,
}

/// Where a key sits on the keyboard; its meaning never changes with the layout.
#[derive(Debug, Hash, PartialEq, Eq, Structural, Clone, Copy, PartialOrd, Ord)]
pub enum PhysicalKey {
    AlphaNum(PhysicalAlphaNumKey),
    Navigation(NavigationKey),
    Command(CommandKey),
    Function(FunctionKey),
    Numpad(NumpadKey),
    Media(MediaKey),
    Modifier(ModifierKey),
    Edit(EditKey),
}

/// What a key means under the active layout.
#[derive(Debug, Hash, PartialEq, Eq, Structural, Clone, Copy, PartialOrd, Ord)]
pub enum LogicalKey {
    AlphaNum(LogicalAlphaNumKey),
    Navigation(NavigationKey),
    Command(CommandKey),
    Function(FunctionKey),
    Numpad(NumpadKey),
    Media(MediaKey),
    Modifier(ModifierKey),
    Edit(EditKey),
}

/// A key of the alphanumeric block, by position; punctuation positions are named by their US legend.
#[derive(Debug, Hash, PartialEq, Eq, Structural, Clone, Copy, PartialOrd, Ord)]
pub enum PhysicalAlphaNumKey {
    A,
    B,
    C,
    D,
    E,
    F,
    G,
    H,
    I,
    J,
    K,
    L,
    M,
    N,
    O,
    P,
    Q,
    R,
    S,
    T,
    U,
    V,
    W,
    X,
    Y,
    Z,
    Key1,
    Key2,
    Key3,
    Key4,
    Key5,
    Key6,
    Key7,
    Key8,
    Key9,
    Key0,
    /// Labeled <code>`~</code> on a US keyboard.
    IntlGrave,
    /// Labeled `-_` on a US keyboard.
    IntlDash,
    /// Labeled `=+` on a US keyboard.
    IntlEquals,
    /// Labeled `[{` on a US keyboard.
    IntlLeftBracket,
    /// Labeled `]}` on a US keyboard.
    IntlRightBracket,
    /// Labeled `;:` on a US keyboard.
    IntlSemicolon,
    /// Labeled `'"` on a US keyboard.
    IntlApostrophe,
    /// Labeled `,<` on a US keyboard.
    IntlComma,
    /// Labeled `.>` on a US keyboard.
    IntlPeriod,
    /// Labeled `/?` on a US keyboard.
    IntlSlash,
    /// Labeled `\|` on a UK keyboard. Doesn't exist on all keyboard layouts.
    IntlBackslashLeft,
    /// Labeled `\|` on a US keyboard. Doesn't exist on all keyboard layouts.
    IntlBackslashRight,
    /// Labeled `\ろ` (ro) on a Japanese keyboard. Doesn't exist on all keyboard layouts.
    IntlRo,
    /// Labeled `¥` (yen) on a Japanese keyboard and `\/` on a Russian keyboard. Doesn't exist on all keyboard layouts.
    IntlYen,
}

/// A key of the alphanumeric block, by the symbol the layout gives it.
#[derive(Debug, Hash, PartialEq, Eq, Structural, Clone, Copy, PartialOrd, Ord)]
pub enum LogicalAlphaNumKey {
    A,
    B,
    C,
    D,
    E,
    F,
    G,
    H,
    I,
    J,
    K,
    L,
    M,
    N,
    O,
    P,
    Q,
    R,
    S,
    T,
    U,
    V,
    W,
    X,
    Y,
    Z,
    Key1,
    Key2,
    Key3,
    Key4,
    Key5,
    Key6,
    Key7,
    Key8,
    Key9,
    Key0,
    /// Labeled <code>`~</code> on a US keyboard.
    IntlGrave,
    /// Labeled `-_` on a US keyboard.
    IntlDash,
    /// Labeled `=+` on a US keyboard.
    IntlEquals,
    /// Labeled `[{` on a US keyboard.
    IntlLeftBracket,
    /// Labeled `]}` on a US keyboard.
    IntlRightBracket,
    /// Labeled `;:` on a US keyboard.
    IntlSemicolon,
    /// Labeled `'"` on a US keyboard.
    IntlApostrophe,
    /// Labeled `,<` on a US keyboard.
    IntlComma,
    /// Labeled `.>` on a US keyboard.
    IntlPeriod,
    /// Labeled `/?` on a US keyboard.
    IntlSlash,
    /// Labeled `\|` on a UK keyboard. Doesn't exist on all keyboard layouts.
    IntlBackslashLeft,
    /// Labeled `\|` on a US keyboard. Doesn't exist on all keyboard layouts.
    IntlBackslashRight,
    /// Labeled `\ろ` (ro) on a Japanese keyboard. Doesn't exist on all keyboard layouts.
    IntlRo,
    /// Labeled `¥` (yen) on a Japanese keyboard and `\/` on a Russian keyboard. Doesn't exist on all keyboard layouts.
    IntlYen,
}

/// Keys that edit text.
#[derive(Debug, Hash, PartialEq, Eq, Structural, Clone, Copy, PartialOrd, Ord)]
pub enum EditKey {
    Space,
    Tab,
    EnterLeft,
    EnterRight,
    Backspace,
    Insert,
    Delete,
}

/// Keys that issue a command.
#[derive(Debug, Hash, PartialEq, Eq, Structural, Clone, Copy, PartialOrd, Ord)]
pub enum CommandKey {
    Escape,
    Menu,
    PrintScreen,
    PauseBreak,
    Break,
    Cut,
    Copy,
    Paste,
    Undo,
    Redo,
    /// Kana Mode on Japanese keyboards. Changes the input method.
    IMEMode,
    NonConvert,
    Convert,
}

/// The function row.
#[derive(Debug, Hash, PartialEq, Eq, Structural, Clone, Copy, PartialOrd, Ord)]
pub enum FunctionKey {
    F1,
    F2,
    F3,
    F4,
    F5,
    F6,
    F7,
    F8,
    F9,
    F10,
    F11,
    F12,
    F13,
    F14,
    F15,
    F16,
    F17,
    F18,
    F19,
    F20,
    F21,
    F22,
    F23,
    F24,
}

/// Media transport keys.
#[derive(Debug, Hash, PartialEq, Eq, Structural, Clone, Copy, PartialOrd, Ord)]
pub enum MediaKey {
    PlayPause,
    Pause,
    Play,
    Stop,
    FastForward,
    Rewind,
    Record,
    TrackNext,
    TrackPrevious,
}

/// Modifier and lock keys.
#[derive(Debug, Hash, PartialEq, Eq, Structural, Clone, Copy, PartialOrd, Ord)]
pub enum ModifierKey {
    ControlLeft,
    ControlRight,
    ShiftLeft,
    ShiftRight,
    AltLeft,
    AltRight,
    AltGr,
    MetaLeft,
    MetaRight,
    NumLock,
    CapsLock,
    ScrollLock,
}

/// Cursor movement keys.
#[derive(Debug, Hash, PartialEq, Eq, Structural, Clone, Copy, PartialOrd, Ord)]
pub enum NavigationKey {
    Up,
    Down,
    Left,
    Right,
    Home,
    End,
    PageUp,
    PageDown,
}

/// Keys of the numeric keypad.
#[derive(Debug, Hash, PartialEq, Eq, Structural, Clone, Copy, PartialOrd, Ord)]
pub enum NumpadKey {
    Divide,
    Multiply,
    Subtract,
    Add,
    Period,
    Num1,
    Num2,
    Num3,
    Num4,
    Num5,
    Num6,
    Num7,
    Num8,
    Num9,
    Num0,
}

/// A transition of a key as the platform reports it.
#[derive(Debug, Hash, PartialEq, Eq, Structural, Clone, Copy)]
pub enum KeyTransition {
    Down,
    Repeat,
    Up,
}

/// The state that follows `prev` on transition `t`.
pub open spec fn next_key_state(prev: KeyState, t: KeyTransition) -> KeyState {
    match t {
        KeyTransition::Up => KeyState::Released,
        KeyTransition::Down | KeyTransition::Repeat => match prev {
            KeyState::Released => KeyState::Pressed,
            KeyState::Pressed => KeyState::Repeated(1),
            KeyState::Repeated(n) => KeyState::Repeated(
                if n == usize::MAX { n } else { (n + 1) as usize },
            ),
        },
    }
}

impl KeyState {
    /// Moves the state of a key along one transition: a press starts at
    /// `Pressed`, each further down or repeat notification counts one more
    /// repeat (staying at the largest count once there), and a release resets
    /// it to `Released`.
    pub fn advance(self, t: KeyTransition) -> (r: KeyState)
        ensures
            r == next_key_state(self, t),
    {
        match t {
            KeyTransition::Up => KeyState::Released,
            KeyTransition::Down | KeyTransition::Repeat => match self {
                KeyState::Released => KeyState::Pressed,
                KeyState::Pressed => KeyState::Repeated(1),
                KeyState::Repeated(n) => KeyState::Repeated(n.saturating_add(1)),
            },
        }
    }
}

/// The modifier keys that are down and the lock keys that are on.
///
/// Control, Shift, Alt and Meta each have a bit per side and a bit for
/// "either side", which is kept equal to the OR of the two. AltGr has a bit
/// of its own and does not count as Alt.
#[derive(Debug, Clone, Copy, PartialEq, Eq, Structural, Hash)]
pub struct ModifierState {
    pub bits: u32,
}

impl ModifierState {
    /// Either control key is pressed.
    pub const CONTROL: u32 = 0x0001;
    pub const CONTROL_LEFT: u32 = 0x0002;
    pub const CONTROL_RIGHT: u32 = 0x0004;
    /// Set of all `CONTROL*` flags.
    pub const CONTROL_ALL: u32 = 0x0007;
    /// Either shift key is pressed.
    pub const SHIFT: u32 = 0x0008;
    pub const SHIFT_LEFT: u32 = 0x0010;
    pub const SHIFT_RIGHT: u32 = 0x0020;
    /// Set of all `SHIFT*` flags.
    pub const SHIFT_ALL: u32 = 0x0038;
    /// Either alt key is pressed.
    pub const ALT: u32 = 0x0040;
    pub const ALT_LEFT: u32 = 0x0080;
    pub const ALT_RIGHT: u32 = 0x0100;
    /// Set of all `ALT*` flags, except `ALT_GR`.
    pub const ALT_ALL: u32 = 0x01C0;
    /// Setting `ALT_GR` does not set `ALT`.
    pub const ALT_GR: u32 = 0x0200;
    /// Either meta key is pressed.
    pub const META: u32 = 0x0400;
    pub const META_LEFT: u32 = 0x0800;
    pub const META_RIGHT: u32 = 0x1000;
    /// Set of all `META*` flags.
    pub const META_ALL: u32 = 0x1C00;
    pub const NUM_LOCK: u32 = 0x2000;
    pub const CAPS_LOCK: u32 = 0x4000;
    pub const SCROLL_LOCK: u32 = 0x8000;

    pub open spec fn has(self, flag: u32) -> bool {
        self.bits & flag == flag
    }

    /// Each "either side" bit is the OR of its two side bits.
    pub open spec fn is_consistent(self) -> bool {
        consistent_bits(self.bits)
    }

    /// The state after `key` goes down or up. A side key sets or clears its
    /// bit and the "either side" bit is recomputed; AltGr sets or clears its
    /// own bit; a lock key flips its bit when pressed.
    pub open spec fn after_key(self, key: ModifierKey, state: ElementState) -> ModifierState {
        let pressed = state == ElementState::Pressed;
        ModifierState {
            bits: match key {
                ModifierKey::ControlLeft => set_side(
                    self.bits,
                    ModifierState::CONTROL,
                    ModifierState::CONTROL_LEFT,
                    ModifierState::CONTROL_RIGHT,
                    ModifierState::CONTROL_LEFT,
                    pressed,
                ),
                ModifierKey::ControlRight => set_side(
                    self.bits,
                    ModifierState::CONTROL,
                    ModifierState::CONTROL_LEFT,
                    ModifierState::CONTROL_RIGHT,
                    ModifierState::CONTROL_RIGHT,
                    pressed,
                ),
                ModifierKey::ShiftLeft => set_side(
                    self.bits,
                    ModifierState::SHIFT,
                    ModifierState::SHIFT_LEFT,
                    ModifierState::SHIFT_RIGHT,
                    ModifierState::SHIFT_LEFT,
                    pressed,
                ),
                ModifierKey::ShiftRight => set_side(
                    self.bits,
                    ModifierState::SHIFT,
                    ModifierState::SHIFT_LEFT,
                    ModifierState::SHIFT_RIGHT,
                    ModifierState::SHIFT_RIGHT,
                    pressed,
                ),
                ModifierKey::AltLeft => set_side(
                    self.bits,
                    ModifierState::ALT,
                    ModifierState::ALT_LEFT,
                    ModifierState::ALT_RIGHT,
                    ModifierState::ALT_LEFT,
                    pressed,
                ),
                ModifierKey::AltRight => set_side(
                    self.bits,
                    ModifierState::ALT,
                    ModifierState::ALT_LEFT,
                    ModifierState::ALT_RIGHT,
                    ModifierState::ALT_RIGHT,
                    pressed,
                ),
                ModifierKey::MetaLeft => set_side(
                    self.bits,
                    ModifierState::META,
                    ModifierState::META_LEFT,
                    ModifierState::META_RIGHT,
                    ModifierState::META_LEFT,
                    pressed,
                ),
                ModifierKey::MetaRight => set_side(
                    self.bits,
                    ModifierState::META,
                    ModifierState::META_LEFT,
                    ModifierState::META_RIGHT,
                    ModifierState::META_RIGHT,
                    pressed,
                ),
                ModifierKey::AltGr => if pressed {
                    self.bits | ModifierState::ALT_GR
                } else {
                    self.bits & !ModifierState::ALT_GR
                },
                ModifierKey::NumLock => toggle_lock(self.bits, ModifierState::NUM_LOCK, pressed),
                ModifierKey::CapsLock => toggle_lock(self.bits, ModifierState::CAPS_LOCK, pressed),
                ModifierKey::ScrollLock => toggle_lock(
                    self.bits,
                    ModifierState::SCROLL_LOCK,
                    pressed,
                ),
            },
        }
    }

    pub fn empty() -> (r: ModifierState)
        ensures
            r.bits == 0,
            r.is_consistent(),
    {
        proof {
            assert(consistent_bits(0)) by (bit_vector);
        }
        ModifierState { bits: 0 }
    }

    pub fn bits(&self) -> (r: u32)
        ensures
            r == self.bits,
    {
        self.bits
    }

    pub fn contains(&self, flag: u32) -> (r: bool)
        ensures
            r == self.has(flag),
    {
        self.bits & flag == flag
    }

    /// Records that `key` went down or up; keeps each "either side" bit equal
    /// to the OR of its side bits.
    pub fn update(&mut self, key: ModifierKey, state: ElementState)
        ensures
            *final(self) == old(self).after_key(key, state),
            old(self).is_consistent() ==> final(self).is_consistent(),
    {
        let pressed = state == ElementState::Pressed;
        let bits = self.bits;
        proof {
            lemma_after_key_consistent(*self, key, state);
        }
        self.bits = match key {
            ModifierKey::ControlLeft => set_side_bits(
                bits,
                ModifierState::CONTROL,
                ModifierState::CONTROL_LEFT,
                ModifierState::CONTROL_RIGHT,
                ModifierState::CONTROL_LEFT,
                pressed,
            ),
            ModifierKey::ControlRight => set_side_bits(
                bits,
                ModifierState::CONTROL,
                ModifierState::CONTROL_LEFT,
                ModifierState::CONTROL_RIGHT,
                ModifierState::CONTROL_RIGHT,
                pressed,
            ),
            ModifierKey::ShiftLeft => set_side_bits(
                bits,
                ModifierState::SHIFT,
                ModifierState::SHIFT_LEFT,
                ModifierState::SHIFT_RIGHT,
                ModifierState::SHIFT_LEFT,
                pressed,
            ),
            ModifierKey::ShiftRight => set_side_bits(
                bits,
                ModifierState::SHIFT,
                ModifierState::SHIFT_LEFT,
                ModifierState::SHIFT_RIGHT,
                ModifierState::SHIFT_RIGHT,
                pressed,
            ),
            ModifierKey::AltLeft => set_side_bits(
                bits,
                ModifierState::ALT,
                ModifierState::ALT_LEFT,
                ModifierState::ALT_RIGHT,
                ModifierState::ALT_LEFT,
                pressed,
            ),
            ModifierKey::AltRight => set_side_bits(
                bits,
                ModifierState::ALT,
                ModifierState::ALT_LEFT,
                ModifierState::ALT_RIGHT,
                ModifierState::ALT_RIGHT,
                pressed,
            ),
            ModifierKey::MetaLeft => set_side_bits(
                bits,
                ModifierState::META,
                ModifierState::META_LEFT,
                ModifierState::META_RIGHT,
                ModifierState::META_LEFT,
                pressed,
            ),
            ModifierKey::MetaRight => set_side_bits(
                bits,
                ModifierState::META,
                ModifierState::META_LEFT,
                ModifierState::META_RIGHT,
                ModifierState::META_RIGHT,
                pressed,
            ),
            ModifierKey::AltGr => if pressed {
                bits | ModifierState::ALT_GR
            } else {
                bits & !ModifierState::ALT_GR
            },
            ModifierKey::NumLock => if pressed {
                bits ^ ModifierState::NUM_LOCK
            } else {
                bits
            },
            ModifierKey::CapsLock => if pressed {
                bits ^ ModifierState::CAPS_LOCK
            } else {
                bits
            },
            ModifierKey::ScrollLock => if pressed {
                bits ^ ModifierState::SCROLL_LOCK
            } else {
                bits
            },
        };
    }
}

/// `any` is set exactly when `left` or `right` is.
pub open spec fn group_consistent(bits: u32, any: u32, left: u32, right: u32) -> bool {
    (bits & any == any) == (bits & left == left || bits & right == right)
}

pub open spec fn consistent_bits(bits: u32) -> bool {
    &&& group_consistent(
        bits,
        ModifierState::CONTROL,
        ModifierState::CONTROL_LEFT,
        ModifierState::CONTROL_RIGHT,
    )
    &&& group_consistent(
        bits,
        ModifierState::SHIFT,
        ModifierState::SHIFT_LEFT,
        ModifierState::SHIFT_RIGHT,
    )
    &&& group_consistent(bits, ModifierState::ALT, ModifierState::ALT_LEFT, ModifierState::ALT_RIGHT)
    &&& group_consistent(
        bits,
        ModifierState::META,
        ModifierState::META_LEFT,
        ModifierState::META_RIGHT,
    )
}

/// Sets or clears the bit `side` of the group (`any`, `left`, `right`), then
/// sets `any` to whether either side bit is set.
pub open spec fn set_side(bits: u32, any: u32, left: u32, right: u32, side: u32, pressed: bool) -> u32 {
    let b = if pressed { bits | side } else { bits & !side };
    if b & left == left || b & right == right { b | any } else { b & !any }
}

/// Flips the lock bit on a press; a release leaves it.
pub open spec fn toggle_lock(bits: u32, lock: u32, pressed: bool) -> u32 {
    if pressed { bits ^ lock } else { bits }
}

fn set_side_bits(bits: u32, any: u32, left: u32, right: u32, side: u32, pressed: bool) -> (r: u32)
    ensures
        r == set_side(bits, any, left, right, side, pressed),
{
    let b = if pressed { bits | side } else { bits & !side };
    if b & left == left || b & right == right { b | any } else { b & !any }
}

proof fn lemma_set_side_consistent(bits: u32, any: u32, left: u32, right: u32, side: u32, pressed: bool)
    by (bit_vector)
    requires
        consistent_bits(bits),
        (any == 0x0001 && left == 0x0002 && right == 0x0004) || (any == 0x0008 && left == 0x0010
            && right == 0x0020) || (any == 0x0040 && left == 0x0080 && right == 0x0100) || (any
            == 0x0400 && left == 0x0800 && right == 0x1000),
        side == left || side == right,
    ensures
        consistent_bits(set_side(bits, any, left, right, side, pressed)),
{
}

proof fn lemma_other_bits_consistent(bits: u32, m: u32)
    by (bit_vector)
    requires
        consistent_bits(bits),
        m == 0x0200 || m == 0x2000 || m == 0x4000 || m == 0x8000,
    ensures
        consistent_bits(bits | m),
        consistent_bits(bits & !m),
        consistent_bits(bits ^ m),
{
}

proof fn lemma_after_key_consistent(s: ModifierState, key: ModifierKey, state: ElementState)
    ensures
        s.is_consistent() ==> s.after_key(key, state).is_consistent(),
{
    if s.is_consistent() {
        let pressed = state == ElementState::Pressed;
        match key {
            ModifierKey::ControlLeft | ModifierKey::ControlRight => {
                lemma_set_side_consistent(s.bits, 0x0001, 0x0002, 0x0004, 0x0002, pressed);
                lemma_set_side_consistent(s.bits, 0x0001, 0x0002, 0x0004, 0x0004, pressed);
            },
            ModifierKey::ShiftLeft | ModifierKey::ShiftRight => {
                lemma_set_side_consistent(s.bits, 0x0008, 0x0010, 0x0020, 0x0010, pressed);
                lemma_set_side_consistent(s.bits, 0x0008, 0x0010, 0x0020, 0x0020, pressed);
            },
            ModifierKey::AltLeft | ModifierKey::AltRight => {
                lemma_set_side_consistent(s.bits, 0x0040, 0x0080, 0x0100, 0x0080, pressed);
                lemma_set_side_consistent(s.bits, 0x0040, 0x0080, 0x0100, 0x0100, pressed);
            },
            ModifierKey::MetaLeft | ModifierKey::MetaRight => {
                lemma_set_side_consistent(s.bits, 0x0400, 0x0800, 0x1000, 0x0800, pressed);
                lemma_set_side_consistent(s.bits, 0x0400, 0x0800, 0x1000, 0x1000, pressed);
            },
            ModifierKey::AltGr => lemma_other_bits_consistent(s.bits, 0x0200),
            ModifierKey::NumLock => lemma_other_bits_consistent(s.bits, 0x2000),
            ModifierKey::CapsLock => lemma_other_bits_consistent(s.bits, 0x4000),
            ModifierKey::ScrollLock => lemma_other_bits_consistent(s.bits, 0x8000),
        }
    }
}

/// The state after a sequence of key transitions, applied in order.
pub open spec fn after_keys(s: ModifierState, events: Seq<(ModifierKey, ElementState)>) -> ModifierState
    decreases events.len(),
{
    if events.len() == 0 {
        s
    } else {
        after_keys(s, events.drop_last()).after_key(events.last().0, events.last().1)
    }
}

/// Whatever modifier keys go down or up, in whatever order, each "either
/// side" bit equals the OR of its side bits after every event: `CONTROL`
/// is `CONTROL_LEFT | CONTROL_RIGHT`, and the same for Shift, Alt and Meta.
pub proof fn lemma_modifier_groups_stay_consistent(
    s: ModifierState,
    events: Seq<(ModifierKey, ElementState)>,
)
    requires
        s.is_consistent(),
    ensures
        forall|i: int|
            0 <= i <= events.len() ==> #[trigger] after_keys(s, events.take(i)).is_consistent(),
    decreases events.len(),
{
    if events.len() > 0 {
        let prefix = events.drop_last();
        lemma_modifier_groups_stay_consistent(s, prefix);
        assert forall|i: int| 0 <= i <= events.len() implies #[trigger] after_keys(
            s,
            events.take(i),
        ).is_consistent() by {
            if i < events.len() {
                assert(events.take(i) =~= prefix.take(i));
            } else {
                assert(events.take(i) =~= events);
                assert(prefix.take(prefix.len() as int) =~= prefix);
                lemma_after_key_consistent(after_keys(s, prefix), events.last().0, events.last().1);
            }
        }
    } else {
        assert forall|i: int| 0 <= i <= events.len() implies #[trigger] after_keys(
            s,
            events.take(i),
        ).is_consistent() by {
            assert(events.take(i).len() == 0);
        }
    }
}

} // verus!
