use winit::altgr::{get_key_mods, KeyboardState};
use winit::event::ElementState;
use winit::keyboard::{KeyState, KeyTransition, ModifierKey, ModifierState};

fn groups_consistent(m: ModifierState) -> bool {
    let either = |any: u32, l: u32, r: u32| m.contains(any) == (m.contains(l) || m.contains(r));
    either(ModifierState::CONTROL, ModifierState::CONTROL_LEFT, ModifierState::CONTROL_RIGHT)
        && either(ModifierState::SHIFT, ModifierState::SHIFT_LEFT, ModifierState::SHIFT_RIGHT)
        && either(ModifierState::ALT, ModifierState::ALT_LEFT, ModifierState::ALT_RIGHT)
        && either(ModifierState::META, ModifierState::META_LEFT, ModifierState::META_RIGHT)
}

#[test]
fn either_side_bit_follows_each_event() {
    let events = [
        (ModifierKey::ControlLeft, ElementState::Pressed),
        (ModifierKey::ControlRight, ElementState::Pressed),
        (ModifierKey::ControlLeft, ElementState::Released),
        (ModifierKey::ShiftRight, ElementState::Pressed),
        (ModifierKey::ControlRight, ElementState::Released),
        (ModifierKey::AltGr, ElementState::Pressed),
        (ModifierKey::MetaLeft, ElementState::Pressed),
        (ModifierKey::ShiftRight, ElementState::Released),
        (ModifierKey::AltLeft, ElementState::Pressed),
        (ModifierKey::AltLeft, ElementState::Released),
    ];
    let mut m = ModifierState::empty();
    let mut expected_control = Vec::new();
    for (key, state) in events.iter() {
        m.update(*key, *state);
        assert!(groups_consistent(m));
        expected_control.push(m.contains(ModifierState::CONTROL));
    }
    assert_eq!(
        expected_control,
        vec![true, true, true, true, false, false, false, false, false, false]
    );
    assert!(m.contains(ModifierState::ALT_GR));
    assert!(!m.contains(ModifierState::ALT));
    assert_eq!(m.bits(), ModifierState::ALT_GR | ModifierState::META | ModifierState::META_LEFT);
}

#[test]
fn lock_keys_flip_on_press() {
    let mut m = ModifierState::empty();
    m.update(ModifierKey::CapsLock, ElementState::Pressed);
    m.update(ModifierKey::CapsLock, ElementState::Released);
    assert_eq!(m.bits(), ModifierState::CAPS_LOCK);
    m.update(ModifierKey::CapsLock, ElementState::Pressed);
    assert_eq!(m.bits(), 0);
}

#[test]
fn key_state_counts_repeats_until_release() {
    let s = KeyState::Released.advance(KeyTransition::Down);
    assert_eq!(s, KeyState::Pressed);
    let s = s.advance(KeyTransition::Repeat);
    assert_eq!(s, KeyState::Repeated(1));
    let s = s.advance(KeyTransition::Repeat).advance(KeyTransition::Down);
    assert_eq!(s, KeyState::Repeated(3));
    assert_eq!(s.advance(KeyTransition::Up), KeyState::Released);
    assert_eq!(
        KeyState::Repeated(usize::MAX).advance(KeyTransition::Repeat),
        KeyState::Repeated(usize::MAX)
    );
}

#[test]
fn key_mods_report_held_sides() {
    let keys = KeyboardState {
        shift_left: true,
        control_right: true,
        meta_right: true,
        num_lock: true,
        ..KeyboardState::default()
    };
    let m = get_key_mods(&keys, false);
    assert_eq!(
        m.bits(),
        ModifierState::SHIFT
            | ModifierState::SHIFT_LEFT
            | ModifierState::CONTROL
            | ModifierState::CONTROL_RIGHT
            | ModifierState::META
            | ModifierState::META_RIGHT
            | ModifierState::NUM_LOCK
    );
}

#[test]
fn key_mods_turn_ctrl_alt_into_altgr() {
    let keys = KeyboardState {
        control_left: true,
        alt_right: true,
        ..KeyboardState::default()
    };
    let with_altgr = get_key_mods(&keys, true);
    assert_eq!(with_altgr.bits(), ModifierState::ALT_GR);
    let without = get_key_mods(&keys, false);
    assert_eq!(
        without.bits(),
        ModifierState::CONTROL
            | ModifierState::CONTROL_LEFT
            | ModifierState::ALT
            | ModifierState::ALT_RIGHT
    );
}

#[test]
fn key_mods_of_nothing_held() {
    assert_eq!(get_key_mods(&KeyboardState::default(), true).bits(), 0);
}
