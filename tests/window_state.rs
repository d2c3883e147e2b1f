use winit::monitor::MonitorHandle;
use winit::window_state::{
    Rect, SavedWindow, ShowCommand, WindowDirective, WindowFlags, WindowState,
};

fn flags(bits: u32) -> WindowFlags {
    WindowFlags { bits }
}

const RDV: u32 = WindowFlags::RESIZABLE | WindowFlags::DECORATIONS | WindowFlags::VISIBLE;

fn rect() -> Rect {
    Rect { left: 10, top: 20, right: 810, bottom: 620 }
}

#[test]
fn fullscreen_masks_resizable_decorations_maximized() {
    let f = flags(RDV | WindowFlags::MAXIMIZED | WindowFlags::FULLSCREEN | WindowFlags::CHILD);
    assert_eq!(
        f.mask().bits(),
        WindowFlags::VISIBLE | WindowFlags::FULLSCREEN | WindowFlags::CHILD
    );
}

#[test]
fn hidden_masks_maximized() {
    let f = flags(WindowFlags::RESIZABLE | WindowFlags::MAXIMIZED);
    assert_eq!(f.mask().bits(), WindowFlags::RESIZABLE);
    let shown = flags(WindowFlags::VISIBLE | WindowFlags::MAXIMIZED);
    assert_eq!(shown.mask(), shown);
}

#[test]
fn masking_twice_is_masking_once() {
    for bits in 0..0x400u32 {
        let once = flags(bits).mask();
        assert_eq!(once.mask(), once);
    }
}

#[test]
fn equal_after_masking_emits_nothing() {
    // Both are fullscreen; they differ only in bits that fullscreen masks.
    let a = flags(WindowFlags::FULLSCREEN | WindowFlags::VISIBLE | WindowFlags::RESIZABLE);
    let b = flags(WindowFlags::FULLSCREEN | WindowFlags::VISIBLE | WindowFlags::DECORATIONS);
    assert!(a.apply_diff(b).is_empty());
    assert!(a.apply_diff(a).is_empty());
    let hidden_max = flags(WindowFlags::MAXIMIZED);
    assert!(hidden_max.apply_diff(WindowFlags::empty()).is_empty());
}

#[test]
fn styles_for_decorated_resizable_visible_window() {
    assert_eq!(flags(RDV).to_window_styles(), (0x96CF_0000, 0x0000_0110));
    assert_eq!(WindowFlags::empty().to_window_styles(), (0x8600_0000, 0x0000_0010));
    let all = flags(
        WindowFlags::ON_TASKBAR
            | WindowFlags::ALWAYS_ON_TOP
            | WindowFlags::NO_BACK_BUFFER
            | WindowFlags::TRANSPARENT
            | WindowFlags::CHILD
            | WindowFlags::MAXIMIZED,
    );
    assert_eq!(all.to_window_styles(), (0x4700_0000, 0x002C_0018));
}

#[test]
fn directives_come_in_fixed_order() {
    let old = flags(WindowFlags::VISIBLE);
    let new = flags(WindowFlags::VISIBLE | WindowFlags::ALWAYS_ON_TOP | WindowFlags::MAXIMIZED);
    let (style, style_ex) = new.to_window_styles();
    assert_eq!(
        old.apply_diff(new),
        vec![
            WindowDirective::SetZOrder { topmost: true },
            WindowDirective::ShowWindow(ShowCommand::Maximize),
            WindowDirective::SetStyle { style, style_ex },
            WindowDirective::RefreshFrame,
        ]
    );
    let back = new.apply_diff(flags(0));
    assert_eq!(back[0], WindowDirective::SetZOrder { topmost: false });
    assert_eq!(back[1], WindowDirective::ShowWindow(ShowCommand::Restore));
    assert_eq!(back[2], WindowDirective::ShowWindow(ShowCommand::Hide));
    assert_eq!(back[3], WindowDirective::SetStyle { style: 0x8600_0000, style_ex: 0x10 });
    assert_eq!(back[4], WindowDirective::RefreshFrame);
    assert_eq!(back.len(), 5);
}

#[test]
fn showing_a_window_emits_show() {
    let d = WindowFlags::empty().apply_diff(flags(WindowFlags::VISIBLE));
    assert_eq!(
        d,
        vec![
            WindowDirective::ShowWindow(ShowCommand::Show),
            WindowDirective::SetStyle { style: 0x9600_0000, style_ex: 0x10 },
            WindowDirective::RefreshFrame,
        ]
    );
}

#[test]
fn fullscreen_bit_follows_the_target() {
    let mut state = WindowState::new(96);
    state.set_fullscreen(Some(MonitorHandle::new(None, 1)), rect());
    // The caller asks for the bit to be clear; the target decides.
    state.set_window_flags(flags(WindowFlags::VISIBLE | WindowFlags::ON_TASKBAR));
    assert!(state.window_flags().contains(WindowFlags::FULLSCREEN));
    assert!(state.window_flags().contains(WindowFlags::ON_TASKBAR));
    state.set_fullscreen(None, rect());
    state.set_window_flags(flags(WindowFlags::VISIBLE | WindowFlags::FULLSCREEN));
    assert!(!state.window_flags().contains(WindowFlags::FULLSCREEN));
    assert_eq!(state.window_flags().bits(), WindowFlags::VISIBLE);
}

#[test]
fn entering_fullscreen_keeps_restorable_flags() {
    let mut state = WindowState::new(120);
    let shown = state.set_window_flags(flags(RDV));
    assert_eq!(shown[0], WindowDirective::ShowWindow(ShowCommand::Show));

    let (directives, restore) = state.set_fullscreen(Some(MonitorHandle::new(None, 3)), rect());
    assert_eq!(
        directives,
        vec![
            WindowDirective::SetStyle { style: 0x9600_0000, style_ex: 0x10 },
            WindowDirective::RefreshFrame,
        ]
    );
    assert_eq!(restore, None);
    assert_eq!(state.window_flags().bits(), RDV | WindowFlags::FULLSCREEN);
    assert_eq!(state.saved_window(), Some(SavedWindow { client_rect: rect(), dpi: 120 }));

    let (directives, restore) = state.set_fullscreen(None, Rect { left: 0, top: 0, right: 1920, bottom: 1080 });
    assert_eq!(
        directives,
        vec![
            WindowDirective::SetStyle { style: 0x96CF_0000, style_ex: 0x110 },
            WindowDirective::RefreshFrame,
        ]
    );
    assert_eq!(restore, Some(SavedWindow { client_rect: rect(), dpi: 120 }));
    assert_eq!(state.saved_window(), None);
    assert_eq!(state.window_flags().bits(), RDV);
}

#[test]
fn same_fullscreen_state_keeps_saved_window() {
    let mut state = WindowState::new(96);
    state.set_fullscreen(Some(MonitorHandle::new(None, 1)), rect());
    let (directives, restore) = state.set_fullscreen(Some(MonitorHandle::new(None, 2)), Rect { left: 0, top: 0, right: 1, bottom: 1 });
    assert!(directives.is_empty());
    assert_eq!(restore, None);
    assert_eq!(state.saved_window(), Some(SavedWindow { client_rect: rect(), dpi: 96 }));
    assert_eq!(state.fullscreen().as_ref().map(|m| m.get_native_identifier()), Some(2));
}

#[test]
fn set_and_contains() {
    let mut f = WindowFlags::empty();
    f.set(WindowFlags::TRANSPARENT, true);
    f.set(WindowFlags::CHILD, true);
    assert!(f.contains(WindowFlags::TRANSPARENT));
    f.set(WindowFlags::TRANSPARENT, false);
    assert_eq!(f.bits(), WindowFlags::CHILD);
}

#[test]
fn dpi_is_recorded() {
    let mut state = WindowState::new(96);
    state.set_dpi(144);
    assert_eq!(state.dpi(), 144);
}
