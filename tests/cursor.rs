use winit::window::CursorIcon;
use winit::window_state::{
    rect_contains, CursorDirective, CursorEnv, CursorFlags, MouseProperties, OsError, Point, Rect,
    WindowState,
};

fn rect() -> Rect {
    Rect { left: 0, top: 0, right: 100, bottom: 50 }
}

fn env(focused: bool, pos: Option<Point>) -> CursorEnv {
    CursorEnv { client_rect: rect(), focused, cursor_pos: pos }
}

fn grabbed() -> CursorFlags {
    CursorFlags { bits: CursorFlags::GRABBED }
}

#[test]
fn grab_without_focus_is_recorded_and_applied_on_focus() {
    let mut mouse = MouseProperties::new();
    let plan = grabbed().refresh_os_cursor(&env(false, None));
    assert!(plan.is_empty());
    assert_eq!(mouse.set_cursor_flags(grabbed(), Ok(())), Ok(()));
    assert!(mouse.cursor_flags().contains(CursorFlags::GRABBED));
    let plan = mouse.refresh_os_cursor(&env(true, None));
    assert_eq!(plan, vec![CursorDirective::ClipCursor(Some(rect()))]);
}

#[test]
fn focused_without_grab_releases_clip() {
    let plan = CursorFlags::empty().refresh_os_cursor(&env(true, Some(Point { x: 500, y: 5 })));
    assert_eq!(plan, vec![CursorDirective::ClipCursor(None)]);
}

#[test]
fn hidden_flag_applies_when_cursor_is_over_client_area() {
    let hidden = CursorFlags { bits: CursorFlags::HIDDEN };
    let plan = hidden.refresh_os_cursor(&env(false, Some(Point { x: 100, y: 50 })));
    assert_eq!(plan, vec![CursorDirective::SetCursorHidden(true)]);
    let plan = CursorFlags::empty().refresh_os_cursor(&env(true, Some(Point { x: 0, y: 0 })));
    assert_eq!(
        plan,
        vec![CursorDirective::ClipCursor(None), CursorDirective::SetCursorHidden(false)]
    );
    let outside = hidden.refresh_os_cursor(&env(false, Some(Point { x: 101, y: 10 })));
    assert!(outside.is_empty());
}

#[test]
fn failed_refresh_rolls_flags_back() {
    let mut mouse = MouseProperties::new();
    mouse.set_cursor_flags(grabbed(), Ok(())).unwrap();
    let err = OsError { code: 1400 };
    let both = CursorFlags { bits: CursorFlags::GRABBED | CursorFlags::HIDDEN };
    assert_eq!(mouse.set_cursor_flags(both, Err(err)), Err(err));
    assert_eq!(mouse.cursor_flags(), grabbed());
}

#[test]
fn rect_edges_count_as_inside() {
    assert!(rect_contains(rect(), Point { x: 0, y: 0 }));
    assert!(rect_contains(rect(), Point { x: 100, y: 50 }));
    assert!(!rect_contains(rect(), Point { x: -1, y: 10 }));
    assert!(!rect_contains(rect(), Point { x: 10, y: 51 }));
}

#[test]
fn window_state_keeps_cursor_shape_and_flags() {
    let mut state = WindowState::new(96);
    state.set_cursor_icon(CursorIcon::Hand);
    assert_eq!(state.mouse().cursor(), CursorIcon::Hand);
    let in_window = CursorFlags { bits: CursorFlags::IN_WINDOW };
    assert_eq!(state.set_cursor_flags(in_window, Ok(())), Ok(()));
    assert_eq!(state.mouse().cursor_flags(), in_window);
    let mut f = in_window;
    f.set(CursorFlags::IN_WINDOW, false);
    assert_eq!(f, CursorFlags::empty());
}
