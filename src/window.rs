//! A window as the platform-neutral logic sees it.
//!
//! Every change of the window's attributes goes through its `WindowState`
//! and comes back as the directives that carry it out.
use vstd::prelude::*;

use crate::monitor::MonitorHandle;
use crate::window_state::{
    Rect, SavedWindow, WindowDirective, WindowFlags, WindowState, diff_directives,
    lemma_flag_change_keeps_fullscreen,
};

verus! {

broadcast use vstd::string::group_string_axioms;

/// Identifies a window.
#[derive(Debug, Copy, Clone, PartialEq, Eq, Structural, PartialOrd, Ord, Hash)]
pub struct WindowId {
    pub raw: u64,
}

/// Identifies an input device.
#[derive(Debug, Copy, Clone, PartialEq, Eq, Structural, PartialOrd, Ord, Hash)]
pub struct DeviceId {
    pub raw: u64,
}

/// A window: its identity, title and state, and whether a redraw has been
/// asked for and not yet handed to the platform.
pub struct Window {
    id: WindowId,
    title: String,
    state: WindowState,
    redraw_requested: bool,
}

impl Window {
    pub closed spec fn window_id(&self) -> WindowId {
        self.id
    }

    pub closed spec fn title_text(&self) -> Seq<char> {
        self.title@
    }

    pub closed spec fn flags(&self) -> WindowFlags {
        self.state.flags()
    }

    pub closed spec fn fullscreen_target(&self) -> Option<MonitorHandle> {
        self.state.fullscreen_target()
    }

    pub closed spec fn redraw_pending(&self) -> bool {
        self.redraw_requested
    }

    pub closed spec fn window_state(&self) -> &WindowState {
        &self.state
    }

    /// A new window, with an empty title, no flag set and no redraw asked for.
    pub fn new(id: WindowId, dpi: u32) -> (r: Window)
        ensures
            r.window_id() == id,
            r.title_text().len() == 0,
            r.flags().bits == 0,
            r.fullscreen_target().is_none(),
            !r.redraw_pending(),
            r.window_state().dpi_value() == dpi,
    {
        Window { id, title: String::new(), state: WindowState::new(dpi), redraw_requested: false }
    }

    pub fn id(&self) -> (r: WindowId)
        ensures
            r == self.window_id(),
    {
        self.id
    }

    pub fn title(&self) -> (r: &str)
        ensures
            r@ == self.title_text(),
    {
        self.title.as_str()
    }

    pub fn set_title(&mut self, title: &str)
        ensures
            final(self).title_text() == title@,
            final(self).window_id() == old(self).window_id(),
            final(self).window_state() == old(self).window_state(),
            final(self).redraw_pending() == old(self).redraw_pending(),
    {
        self.title = title.to_string();
    }

    pub fn state(&self) -> (r: &WindowState)
        ensures
            r == self.window_state(),
    {
        &self.state
    }

    /// Sets the cursor shape shown over the window.
    pub fn set_cursor_icon(&mut self, cursor: CursorIcon)
        ensures
            final(self).window_state().mouse_state().icon() == cursor,
            final(self).window_state().mouse_state().flags() == old(
                self,
            ).window_state().mouse_state().flags(),
            final(self).flags() == old(self).flags(),
            final(self).window_id() == old(self).window_id(),
            final(self).title_text() == old(self).title_text(),
            final(self).redraw_pending() == old(self).redraw_pending(),
    {
        self.state.set_cursor_icon(cursor);
    }

    /// Asks for the window to be redrawn.
    pub fn request_redraw(&mut self)
        ensures
            final(self).redraw_pending(),
            final(self).window_state() == old(self).window_state(),
            final(self).window_id() == old(self).window_id(),
            final(self).title_text() == old(self).title_text(),
    {
        self.redraw_requested = true;
    }

    /// Hands a pending redraw request to the platform: returns whether one was
    /// pending and clears it.
    pub fn take_redraw_request(&mut self) -> (r: bool)
        ensures
            r == old(self).redraw_pending(),
            !final(self).redraw_pending(),
            final(self).window_state() == old(self).window_state(),
            final(self).window_id() == old(self).window_id(),
            final(self).title_text() == old(self).title_text(),
    {
        let r = self.redraw_requested;
        self.redraw_requested = false;
        r
    }

    /// Makes the window fullscreen on `monitor`, or windowed again with
    /// `None`; see `WindowState::set_fullscreen`.
    pub fn set_fullscreen(&mut self, monitor: Option<MonitorHandle>, client_rect: Rect) -> (r: (
        Vec<WindowDirective>,
        Option<SavedWindow>,
    ))
        ensures
            final(self).fullscreen_target() == monitor,
            final(self).flags() == old(self).flags().with(
                WindowFlags::FULLSCREEN,
                monitor.is_some(),
            ),
            final(self).window_id() == old(self).window_id(),
            final(self).title_text() == old(self).title_text(),
            final(self).redraw_pending() == old(self).redraw_pending(),
            r.0@ == diff_directives(old(self).flags(), final(self).flags()),
            r.1 == (if old(self).fullscreen_target().is_some() && monitor.is_none() {
                old(self).window_state().saved()
            } else {
                None
            }),
    {
        self.state.set_fullscreen(monitor, client_rect)
    }

    fn change_flag(&mut self, flag: u32, value: bool) -> (r: Vec<WindowDirective>)
        requires
            flag == WindowFlags::RESIZABLE || flag == WindowFlags::DECORATIONS || flag
                == WindowFlags::VISIBLE || flag == WindowFlags::ALWAYS_ON_TOP || flag
                == WindowFlags::MAXIMIZED,
        ensures
            final(self).flags() == old(self).flags().with(flag, value),
            final(self).fullscreen_target() == old(self).fullscreen_target(),
            final(self).window_id() == old(self).window_id(),
            final(self).title_text() == old(self).title_text(),
            final(self).redraw_pending() == old(self).redraw_pending(),
            r@ == diff_directives(old(self).flags(), final(self).flags()),
    {
        let mut flags = self.state.window_flags();
        flags.set(flag, value);
        proof {
            lemma_flag_change_keeps_fullscreen(self.state.flags().bits, flag, value);
        }
        self.state.set_window_flags(flags)
    }

    /// Makes the window visible. Returns the directives that carry the change out.
    pub fn show(&mut self) -> (r: Vec<WindowDirective>)
        ensures
            final(self).flags() == old(self).flags().with(WindowFlags::VISIBLE, true),
            final(self).fullscreen_target() == old(self).fullscreen_target(),
            final(self).window_id() == old(self).window_id(),
            final(self).title_text() == old(self).title_text(),
            final(self).redraw_pending() == old(self).redraw_pending(),
            r@ == diff_directives(old(self).flags(), final(self).flags()),
    {
        self.change_flag(WindowFlags::VISIBLE, true)
    }

    /// Hides the window. Returns the directives that carry the change out.
    pub fn hide_window(&mut self) -> (r: Vec<WindowDirective>)
        ensures
            final(self).flags() == old(self).flags().with(WindowFlags::VISIBLE, false),
            final(self).fullscreen_target() == old(self).fullscreen_target(),
            final(self).window_id() == old(self).window_id(),
            final(self).title_text() == old(self).title_text(),
            final(self).redraw_pending() == old(self).redraw_pending(),
            r@ == diff_directives(old(self).flags(), final(self).flags()),
    {
        self.change_flag(WindowFlags::VISIBLE, false)
    }

    /// Lets the user resize the window, or stops them. Returns the directives that carry the change out.
    pub fn set_resizable(&mut self, resizable: bool) -> (r: Vec<WindowDirective>)
        ensures
            final(self).flags() == old(self).flags().with(WindowFlags::RESIZABLE, resizable),
            final(self).fullscreen_target() == old(self).fullscreen_target(),
            final(self).window_id() == old(self).window_id(),
            final(self).title_text() == old(self).title_text(),
            final(self).redraw_pending() == old(self).redraw_pending(),
            r@ == diff_directives(old(self).flags(), final(self).flags()),
    {
        self.change_flag(WindowFlags::RESIZABLE, resizable)
    }

    /// Maximizes the window or restores it. Returns the directives that carry the change out.
    pub fn set_maximized(&mut self, maximized: bool) -> (r: Vec<WindowDirective>)
        ensures
            final(self).flags() == old(self).flags().with(WindowFlags::MAXIMIZED, maximized),
            final(self).fullscreen_target() == old(self).fullscreen_target(),
            final(self).window_id() == old(self).window_id(),
            final(self).title_text() == old(self).title_text(),
            final(self).redraw_pending() == old(self).redraw_pending(),
            r@ == diff_directives(old(self).flags(), final(self).flags()),
    {
        self.change_flag(WindowFlags::MAXIMIZED, maximized)
    }

    /// Gives the window a border and title bar, or takes them away. Returns the directives that carry the change out.
    pub fn set_decorations(&mut self, decorations: bool) -> (r: Vec<WindowDirective>)
        ensures
            final(self).flags() == old(self).flags().with(WindowFlags::DECORATIONS, decorations),
            final(self).fullscreen_target() == old(self).fullscreen_target(),
            final(self).window_id() == old(self).window_id(),
            final(self).title_text() == old(self).title_text(),
            final(self).redraw_pending() == old(self).redraw_pending(),
            r@ == diff_directives(old(self).flags(), final(self).flags()),
    {
        self.change_flag(WindowFlags::DECORATIONS, decorations)
    }

    /// Keeps the window above the others, or stops doing so. Returns the directives that carry the change out.
    pub fn set_always_on_top(&mut self, always_on_top: bool) -> (r: Vec<WindowDirective>)
        ensures
            final(self).flags() == old(self).flags().with(WindowFlags::ALWAYS_ON_TOP, always_on_top),
            final(self).fullscreen_target() == old(self).fullscreen_target(),
            final(self).window_id() == old(self).window_id(),
            final(self).title_text() == old(self).title_text(),
            final(self).redraw_pending() == old(self).redraw_pending(),
            r@ == diff_directives(old(self).flags(), final(self).flags()),
    {
        self.change_flag(WindowFlags::ALWAYS_ON_TOP, always_on_top)
    }
}

/// The shape of the mouse cursor over a window.
#[derive(Debug, Clone, Copy, PartialEq, Eq, Structural, Hash)]
pub enum CursorIcon {
    Default,
    Crosshair,
    Hand,
    Arrow,
    Move,
    Text,
    Wait,
    Help,
    Progress,
    NotAllowed,
    ContextMenu,
    Cell,
    VerticalText,
    Alias,
    Copy,
    NoDrop,
    Grab,
    Grabbing,
    AllScroll,
    ZoomIn,
    ZoomOut,
    EResize,
    NResize,
    NeResize,
    NwResize,
    SResize,
    SeResize,
    SwResize,
    WResize,
    EwResize,
    NsResize,
    NeswResize,
    NwseResize,
    ColResize,
    RowResize,
}

} // verus!
