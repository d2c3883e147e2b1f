use winit::event::ElementState;
use winit::key_map::{
    handle_extended_keys, track_modifiers, CommonKey, MappedKey, SCANCODE_NUMLOCK, VK_CONTROL, VK_LCONTROL,
    VK_MENU, VK_NUMLOCK, VK_PAUSE, VK_RMENU, VK_RSHIFT, VK_SCROLL, VK_SHIFT,
};
use winit::keyboard::{
    CommandKey, EditKey, FunctionKey, LogicalAlphaNumKey, LogicalKey, MediaKey, ModifierKey,
    ModifierState, NavigationKey, NumpadKey, PhysicalAlphaNumKey, PhysicalKey,
};

fn both(m: &MappedKey) -> (Option<PhysicalKey>, Option<LogicalKey>) {
    (m.physical, m.logical)
}

#[test]
fn right_shift_is_told_apart_by_scan_code() {
    let m = handle_extended_keys(VK_SHIFT, 0x36, false).unwrap();
    assert_eq!(m.vkey, VK_RSHIFT);
    assert_eq!(m.physical, Some(PhysicalKey::Modifier(ModifierKey::ShiftRight)));
    assert_eq!(m.logical, Some(LogicalKey::Modifier(ModifierKey::ShiftRight)));
}

#[test]
fn left_shift_scan_code_gives_left_shift() {
    let m = handle_extended_keys(VK_SHIFT, 0x2A, false).unwrap();
    assert_eq!(m.physical, Some(PhysicalKey::Modifier(ModifierKey::ShiftLeft)));
    assert_eq!(m.logical, Some(LogicalKey::Modifier(ModifierKey::ShiftLeft)));
}

#[test]
fn control_and_alt_split_by_extended_flag() {
    let left = handle_extended_keys(VK_CONTROL, 0x1D, false).unwrap();
    assert_eq!(left.vkey, VK_LCONTROL);
    assert_eq!(left.physical, Some(PhysicalKey::Modifier(ModifierKey::ControlLeft)));
    let right = handle_extended_keys(VK_CONTROL, 0x1D, true).unwrap();
    assert_eq!(right.physical, Some(PhysicalKey::Modifier(ModifierKey::ControlRight)));
    let alt = handle_extended_keys(VK_MENU, 0x38, true).unwrap();
    assert_eq!(alt.vkey, VK_RMENU);
    assert_eq!(alt.logical, Some(LogicalKey::Modifier(ModifierKey::AltRight)));
}

#[test]
fn pause_duplicate_is_dropped_and_second_delivery_is_pause() {
    assert_eq!(handle_extended_keys(VK_PAUSE, 0x1D, false), None);
    assert_eq!(handle_extended_keys(VK_PAUSE, 0x1D, true), None);
    let m = handle_extended_keys(0xFF, 0x45, false).unwrap();
    assert_eq!(m.vkey, VK_PAUSE);
    assert_eq!(m.physical, Some(PhysicalKey::Command(CommandKey::PauseBreak)));
    assert_eq!(m.logical, Some(LogicalKey::Command(CommandKey::PauseBreak)));
    let e = handle_extended_keys(0xFF, 0x45, true).unwrap();
    assert_eq!(both(&e), both(&m));
}

#[test]
fn numlock_keeps_its_code_with_its_own_scan_code() {
    let m = handle_extended_keys(VK_NUMLOCK, 0x45, false).unwrap();
    assert_eq!(m.vkey, VK_NUMLOCK);
    assert_eq!(m.scancode, SCANCODE_NUMLOCK);
    assert_eq!(m.physical, Some(PhysicalKey::Modifier(ModifierKey::NumLock)));
}

#[test]
fn scroll_lock_scan_code_is_pause_when_extended() {
    let scroll = handle_extended_keys(0x03, 0x46, false).unwrap();
    assert_eq!(scroll.vkey, VK_SCROLL);
    assert_eq!(scroll.physical, Some(PhysicalKey::Modifier(ModifierKey::ScrollLock)));
    let pause = handle_extended_keys(0x03, 0x46, true).unwrap();
    assert_eq!(pause.vkey, VK_PAUSE);
    assert_eq!(pause.scancode, 0x45);
    assert_eq!(pause.logical, Some(LogicalKey::Command(CommandKey::PauseBreak)));
}

#[test]
fn physical_and_logical_may_disagree() {
    // The A key of an AZERTY layout sits where QWERTY has Q.
    let m = handle_extended_keys(0x41, 0x10, false).unwrap();
    assert_eq!(m.physical, Some(PhysicalKey::AlphaNum(PhysicalAlphaNumKey::Q)));
    assert_eq!(m.logical, Some(LogicalKey::AlphaNum(LogicalAlphaNumKey::A)));
}

#[test]
fn digits_and_punctuation() {
    let one = handle_extended_keys(0x31, 0x02, false).unwrap();
    assert_eq!(one.physical, Some(PhysicalKey::AlphaNum(PhysicalAlphaNumKey::Key1)));
    assert_eq!(one.logical, Some(LogicalKey::AlphaNum(LogicalAlphaNumKey::Key1)));
    let zero = handle_extended_keys(0x30, 0x0B, false).unwrap();
    assert_eq!(zero.physical, Some(PhysicalKey::AlphaNum(PhysicalAlphaNumKey::Key0)));
    assert_eq!(zero.logical, Some(LogicalKey::AlphaNum(LogicalAlphaNumKey::Key0)));
    let semi = handle_extended_keys(0xBA, 0x27, false).unwrap();
    assert_eq!(semi.physical, Some(PhysicalKey::AlphaNum(PhysicalAlphaNumKey::IntlSemicolon)));
    assert_eq!(semi.logical, Some(LogicalKey::AlphaNum(LogicalAlphaNumKey::IntlSemicolon)));
    let backslash = handle_extended_keys(0xDC, 0x2B, false).unwrap();
    assert_eq!(
        backslash.physical,
        Some(PhysicalKey::AlphaNum(PhysicalAlphaNumKey::IntlBackslashRight))
    );
}

#[test]
fn logical_falls_back_to_scan_code_for_iso_and_yen_keys() {
    let iso = handle_extended_keys(0x00, 0x56, false).unwrap();
    assert_eq!(iso.physical, Some(PhysicalKey::AlphaNum(PhysicalAlphaNumKey::IntlBackslashLeft)));
    assert_eq!(iso.logical, Some(LogicalKey::AlphaNum(LogicalAlphaNumKey::IntlBackslashLeft)));
    let yen = handle_extended_keys(0x00, 0x7D, false).unwrap();
    assert_eq!(yen.physical, Some(PhysicalKey::AlphaNum(PhysicalAlphaNumKey::IntlYen)));
    assert_eq!(yen.logical, Some(LogicalKey::AlphaNum(LogicalAlphaNumKey::IntlYen)));
}

#[test]
fn enter_splits_by_extended_flag() {
    let main = handle_extended_keys(0x0D, 0x1C, false).unwrap();
    assert_eq!(main.physical, Some(PhysicalKey::Edit(EditKey::EnterLeft)));
    let pad = handle_extended_keys(0x0D, 0x1C, true).unwrap();
    assert_eq!(pad.logical, Some(LogicalKey::Edit(EditKey::EnterRight)));
}

#[test]
fn navigation_keys_need_the_extended_flag() {
    let end = handle_extended_keys(0x23, 0x4F, true).unwrap();
    assert_eq!(end.physical, Some(PhysicalKey::Navigation(NavigationKey::End)));
    assert_eq!(end.logical, Some(LogicalKey::Navigation(NavigationKey::End)));
    // Without the flag it is the keypad's 1 with NumLock off.
    let pad = handle_extended_keys(0x23, 0x4F, false).unwrap();
    assert_eq!(pad.physical, Some(PhysicalKey::Numpad(NumpadKey::Num1)));
    assert_eq!(pad.logical, None);
    let del = handle_extended_keys(0x2E, 0x53, false).unwrap();
    assert_eq!(del.physical, Some(PhysicalKey::Numpad(NumpadKey::Period)));
    let ins = handle_extended_keys(0x2D, 0x52, true).unwrap();
    assert_eq!(ins.physical, Some(PhysicalKey::Edit(EditKey::Insert)));
}

#[test]
fn common_keys_are_the_same_on_both_axes() {
    let f5 = handle_extended_keys(0x74, 0x3F, false).unwrap();
    assert_eq!(f5.physical, Some(PhysicalKey::Function(FunctionKey::F5)));
    assert_eq!(f5.logical, Some(LogicalKey::Function(FunctionKey::F5)));
    let f24 = handle_extended_keys(0x87, 0x00, false).unwrap();
    assert_eq!(f24.logical, Some(LogicalKey::Function(FunctionKey::F24)));
    let num7 = handle_extended_keys(0x67, 0x47, false).unwrap();
    assert_eq!(num7.physical, Some(PhysicalKey::Numpad(NumpadKey::Num7)));
    let play = handle_extended_keys(0xB3, 0x22, true).unwrap();
    assert_eq!(play.physical, Some(PhysicalKey::Media(MediaKey::PlayPause)));
    let esc = handle_extended_keys(0x1B, 0x01, false).unwrap();
    assert_eq!(esc.logical, Some(LogicalKey::Command(CommandKey::Escape)));
    let hangul = handle_extended_keys(0x15, 0x00, false).unwrap();
    assert_eq!(hangul.logical, Some(LogicalKey::Command(CommandKey::Convert)));
}

#[test]
fn unknown_codes_are_unclassified() {
    let m = handle_extended_keys(0xE8, 0x70, false).unwrap();
    assert_eq!(m.physical, None);
    assert_eq!(m.logical, None);
    let e = handle_extended_keys(0x0C, 0x4C, true).unwrap();
    assert_eq!(e.physical, None);
}

#[test]
fn common_key_table_lookup() {
    assert_eq!(CommonKey::from_raw(0x08, false), Some(CommonKey::Edit(EditKey::Backspace)));
    assert_eq!(CommonKey::from_raw(0x21, false), None);
    assert_eq!(
        CommonKey::from_raw(0x21, true),
        Some(CommonKey::Navigation(NavigationKey::PageUp))
    );
    assert_eq!(CommonKey::from_raw(0x41, false), None);
}

#[test]
fn modifier_keys_update_the_modifier_state() {
    let mut mods = ModifierState::empty();
    let rshift = handle_extended_keys(VK_SHIFT, 0x36, false).unwrap();
    track_modifiers(&mut mods, &rshift, ElementState::Pressed);
    assert_eq!(mods.bits(), ModifierState::SHIFT | ModifierState::SHIFT_RIGHT);
    let a = handle_extended_keys(0x41, 0x1E, false).unwrap();
    track_modifiers(&mut mods, &a, ElementState::Pressed);
    assert_eq!(mods.bits(), ModifierState::SHIFT | ModifierState::SHIFT_RIGHT);
    track_modifiers(&mut mods, &rshift, ElementState::Released);
    assert_eq!(mods.bits(), 0);
}
