use winit::monitor::MonitorHandle;
use winit::window::{CursorIcon, Window, WindowId};
use winit::window_state::{Rect, ShowCommand, WindowDirective, WindowFlags};

#[test]
fn new_window_is_blank() {
    let w = Window::new(WindowId { raw: 4 }, 96);
    assert_eq!(w.id(), WindowId { raw: 4 });
    assert_eq!(w.title(), "");
    assert_eq!(w.state().window_flags().bits(), 0);
    assert_eq!(w.state().dpi(), 96);
}

#[test]
fn title_is_stored() {
    let mut w = Window::new(WindowId { raw: 1 }, 96);
    w.set_title("hello");
    assert_eq!(w.title(), "hello");
}

#[test]
fn flag_setters_go_through_the_reconciler() {
    let mut w = Window::new(WindowId { raw: 1 }, 96);
    let d = w.set_resizable(true);
    assert_eq!(d.len(), 2);
    let d = w.show();
    assert_eq!(d[0], WindowDirective::ShowWindow(ShowCommand::Show));
    let d = w.set_decorations(true);
    assert_eq!(d, vec![
        WindowDirective::SetStyle { style: 0x96CF_0000, style_ex: 0x110 },
        WindowDirective::RefreshFrame,
    ]);
    let d = w.set_maximized(true);
    assert_eq!(d[0], WindowDirective::ShowWindow(ShowCommand::Maximize));
    let d = w.set_always_on_top(true);
    assert_eq!(d[0], WindowDirective::SetZOrder { topmost: true });
    assert!(w.set_always_on_top(true).is_empty());
    let d = w.hide_window();
    assert_eq!(d[0], WindowDirective::ShowWindow(ShowCommand::Restore));
    assert_eq!(d[1], WindowDirective::ShowWindow(ShowCommand::Hide));
    assert_eq!(
        w.state().window_flags().bits(),
        WindowFlags::RESIZABLE | WindowFlags::DECORATIONS | WindowFlags::MAXIMIZED | WindowFlags::ALWAYS_ON_TOP
    );
}

#[test]
fn setters_keep_the_fullscreen_bit() {
    let mut w = Window::new(WindowId { raw: 1 }, 96);
    w.show();
    let rect = Rect { left: 0, top: 0, right: 640, bottom: 480 };
    w.set_fullscreen(Some(MonitorHandle::new(Some("DP-1".to_string()), 7)), rect);
    // Resizability is masked while fullscreen: nothing to do yet.
    assert!(w.set_resizable(true).is_empty());
    assert!(w.state().window_flags().contains(WindowFlags::FULLSCREEN));
    assert!(w.state().window_flags().contains(WindowFlags::RESIZABLE));
    let (d, restore) = w.set_fullscreen(None, rect);
    assert_eq!(d[0], WindowDirective::SetStyle { style: 0x9605_0000, style_ex: 0x10 });
    assert_eq!(restore.unwrap().client_rect, rect);
}

#[test]
fn redraw_request_is_handed_over_once() {
    let mut w = Window::new(WindowId { raw: 1 }, 96);
    assert!(!w.take_redraw_request());
    w.request_redraw();
    assert!(w.take_redraw_request());
    assert!(!w.take_redraw_request());
}

#[test]
fn cursor_icon_is_stored() {
    let mut w = Window::new(WindowId { raw: 1 }, 96);
    w.set_cursor_icon(CursorIcon::Crosshair);
    assert_eq!(w.state().mouse().cursor(), CursorIcon::Crosshair);
}

#[test]
fn monitor_getters() {
    let m = MonitorHandle::new(Some("HDMI-A-1".to_string()), 42);
    assert_eq!(m.get_name(), Some("HDMI-A-1".to_string()));
    assert_eq!(m.get_native_identifier(), 42);
    assert_eq!(MonitorHandle::new(None, 0).get_name(), None);
}
