//! Declarative window state and its reconciliation with the OS.
//!
//! A window's desired attributes are a `WindowFlags` set. Changing them
//! yields the ordered list of directives that bring the OS window from the
//! old attributes to the new ones; carrying them out is the platform
//! layer's work.
use vstd::prelude::*;

use crate::monitor::MonitorHandle;
use crate::window::CursorIcon;


verus! {

/// A set of window attributes.
#[derive(Debug, Clone, Copy, PartialEq, Eq, Structural, Hash)]
pub struct WindowFlags {
    pub bits: u32,
}

impl WindowFlags {
    pub const RESIZABLE: u32 = 0x001;
    pub const DECORATIONS: u32 = 0x002;
    pub const VISIBLE: u32 = 0x004;
    pub const ON_TASKBAR: u32 = 0x008;
    pub const ALWAYS_ON_TOP: u32 = 0x010;
    pub const NO_BACK_BUFFER: u32 = 0x020;
    pub const TRANSPARENT: u32 = 0x040;
    pub const CHILD: u32 = 0x080;
    pub const MAXIMIZED: u32 = 0x100;
    /// Marks a window that has a fullscreen target; always kept equal to
    /// whether `WindowState` holds one.
    pub const FULLSCREEN: u32 = 0x200;
    /// What a fullscreen window keeps for comparison: no border, no resizing,
    /// not maximized.
    pub const FULLSCREEN_AND_MASK: u32 = 0xFFFF_FEFC;
    /// What a hidden window keeps for comparison: not maximized.
    pub const INVISIBLE_AND_MASK: u32 = 0xFFFF_FEFF;
}

/// Window style bits, as the OS defines them.
pub const WS_POPUP: u32 = 0x8000_0000;
pub const WS_CHILD: u32 = 0x4000_0000;
pub const WS_VISIBLE: u32 = 0x1000_0000;
pub const WS_CLIPSIBLINGS: u32 = 0x0400_0000;
pub const WS_CLIPCHILDREN: u32 = 0x0200_0000;
pub const WS_MAXIMIZE: u32 = 0x0100_0000;
pub const WS_CAPTION: u32 = 0x00C0_0000;
pub const WS_BORDER: u32 = 0x0080_0000;
pub const WS_SYSMENU: u32 = 0x0008_0000;
pub const WS_SIZEBOX: u32 = 0x0004_0000;
pub const WS_MINIMIZEBOX: u32 = 0x0002_0000;
pub const WS_MAXIMIZEBOX: u32 = 0x0001_0000;
/// Extended window style bits, as the OS defines them.
pub const WS_EX_TOPMOST: u32 = 0x0000_0008;
pub const WS_EX_ACCEPTFILES: u32 = 0x0000_0010;
pub const WS_EX_WINDOWEDGE: u32 = 0x0000_0100;
pub const WS_EX_APPWINDOW: u32 = 0x0004_0000;
pub const WS_EX_LAYERED: u32 = 0x0008_0000;
pub const WS_EX_NOREDIRECTIONBITMAP: u32 = 0x0020_0000;

/// The flags with the comparison masks applied: a fullscreen window is
/// neither resizable, decorated nor maximized, and a hidden one is not
/// maximized. The bits of the window's stored flags stay as they are.
pub open spec fn mask_bits(bits: u32) -> u32 {
    let a = if bits & WindowFlags::FULLSCREEN == WindowFlags::FULLSCREEN {
        bits & WindowFlags::FULLSCREEN_AND_MASK
    } else {
        bits
    };
    if a & WindowFlags::VISIBLE == WindowFlags::VISIBLE {
        a
    } else {
        a & WindowFlags::INVISIBLE_AND_MASK
    }
}

/// The style bits that a set of (masked) flags asks for.
pub open spec fn window_style(f: WindowFlags) -> u32 {
    (if f.has(WindowFlags::RESIZABLE) { WS_SIZEBOX | WS_MAXIMIZEBOX } else { 0 }) | (if f.has(
        WindowFlags::DECORATIONS,
    ) {
        WS_CAPTION | WS_SYSMENU | WS_MINIMIZEBOX | WS_BORDER
    } else {
        0
    }) | (if f.has(WindowFlags::VISIBLE) { WS_VISIBLE } else { 0 }) | (if f.has(
        WindowFlags::ON_TASKBAR,
    ) {
        0
    } else {
        WS_POPUP
    }) | (if f.has(WindowFlags::CHILD) { WS_CHILD } else { 0 }) | (if f.has(
        WindowFlags::MAXIMIZED,
    ) {
        WS_MAXIMIZE
    } else {
        0
    }) | WS_CLIPSIBLINGS | WS_CLIPCHILDREN
}

/// The extended style bits that a set of (masked) flags asks for.
pub open spec fn window_ex_style(f: WindowFlags) -> u32 {
    (if f.has(WindowFlags::DECORATIONS) { WS_EX_WINDOWEDGE } else { 0 }) | (if f.has(
        WindowFlags::ON_TASKBAR,
    ) {
        WS_EX_APPWINDOW
    } else {
        0
    }) | (if f.has(WindowFlags::ALWAYS_ON_TOP) { WS_EX_TOPMOST } else { 0 }) | (if f.has(
        WindowFlags::NO_BACK_BUFFER,
    ) {
        WS_EX_NOREDIRECTIONBITMAP
    } else {
        0
    }) | (if f.has(WindowFlags::TRANSPARENT) { WS_EX_LAYERED } else { 0 }) | WS_EX_ACCEPTFILES
}

/// A show command for a window.
#[derive(Debug, Clone, Copy, PartialEq, Eq, Structural, Hash)]
pub enum ShowCommand {
    Maximize,
    Restore,
    Show,
    Hide,
}

/// One OS call that the reconciler decided on.
#[derive(Debug, Clone, Copy, PartialEq, Eq, Structural, Hash)]
pub enum WindowDirective {
    /// Move the window to the top of the z-order, or out of it.
    SetZOrder { topmost: bool },
    ShowWindow(ShowCommand),
    /// Replace the window's style and extended style.
    SetStyle { style: u32, style_ex: u32 },
    /// Tell the window manager that the frame changed, without moving,
    /// sizing, reordering or redrawing the window.
    RefreshFrame,
}

/// The directives that bring a window from `old` to `new`, in order. Both
/// are masked first; when the masked values agree nothing is emitted.
/// Otherwise: the z-order change, if always-on-top changed; the maximize or
/// restore command, if maximized changed; the show or hide command, if
/// visible changed; the style derived from the masked new flags; and last
/// the frame refresh.
pub open spec fn diff_directives(old: WindowFlags, new: WindowFlags) -> Seq<WindowDirective> {
    let o = old.masked();
    let n = new.masked();
    if o == n {
        Seq::empty()
    } else {
        let s0: Seq<WindowDirective> = if o.has(WindowFlags::ALWAYS_ON_TOP) != n.has(
            WindowFlags::ALWAYS_ON_TOP,
        ) {
            seq![WindowDirective::SetZOrder { topmost: n.has(WindowFlags::ALWAYS_ON_TOP) }]
        } else {
            Seq::empty()
        };
        let s1 = if o.has(WindowFlags::MAXIMIZED) != n.has(WindowFlags::MAXIMIZED) {
            s0.push(
                WindowDirective::ShowWindow(
                    if n.has(WindowFlags::MAXIMIZED) {
                        ShowCommand::Maximize
                    } else {
                        ShowCommand::Restore
                    },
                ),
            )
        } else {
            s0
        };
        let s2 = if o.has(WindowFlags::VISIBLE) != n.has(WindowFlags::VISIBLE) {
            s1.push(
                WindowDirective::ShowWindow(
                    if n.has(WindowFlags::VISIBLE) {
                        ShowCommand::Show
                    } else {
                        ShowCommand::Hide
                    },
                ),
            )
        } else {
            s1
        };
        s2.push(
            WindowDirective::SetStyle { style: window_style(n), style_ex: window_ex_style(n) },
        ).push(WindowDirective::RefreshFrame)
    }
}

proof fn lemma_mask_bits_idempotent(bits: u32)
    by (bit_vector)
    ensures
        mask_bits(mask_bits(bits)) == mask_bits(bits),
{
}

proof fn lemma_xor_flags(x: u32, y: u32)
    by (bit_vector)
    ensures
        (x ^ y == 0) == (x == y),
        ((x ^ y) & WindowFlags::ALWAYS_ON_TOP == WindowFlags::ALWAYS_ON_TOP) == ((x
            & WindowFlags::ALWAYS_ON_TOP == WindowFlags::ALWAYS_ON_TOP) != (y
            & WindowFlags::ALWAYS_ON_TOP == WindowFlags::ALWAYS_ON_TOP)),
        ((x ^ y) & WindowFlags::MAXIMIZED == WindowFlags::MAXIMIZED) == ((x & WindowFlags::MAXIMIZED
            == WindowFlags::MAXIMIZED) != (y & WindowFlags::MAXIMIZED == WindowFlags::MAXIMIZED)),
        ((x ^ y) & WindowFlags::VISIBLE == WindowFlags::VISIBLE) == ((x & WindowFlags::VISIBLE
            == WindowFlags::VISIBLE) != (y & WindowFlags::VISIBLE == WindowFlags::VISIBLE)),
{
}

impl WindowFlags {
    /// Whether every bit of `flag` is set.
    pub open spec fn has(self, flag: u32) -> bool {
        self.bits & flag == flag
    }

    pub open spec fn masked(self) -> WindowFlags {
        WindowFlags { bits: mask_bits(self.bits) }
    }

    /// The flags with the bits of `flag` set or cleared.
    pub open spec fn with(self, flag: u32, value: bool) -> WindowFlags {
        WindowFlags { bits: if value { self.bits | flag } else { self.bits & !flag } }
    }

    pub fn empty() -> (r: WindowFlags)
        ensures
            r.bits == 0,
    {
        WindowFlags { bits: 0 }
    }

    pub fn bits(&self) -> (r: u32)
        ensures
            r == self.bits,
    {
        self.bits
    }

    pub fn contains(&self, flag: u32) -> (r: bool)
        ensures
            r == self.has(flag),
    {
        self.bits & flag == flag
    }

    /// Sets or clears the bits of `flag`.
    pub fn set(&mut self, flag: u32, value: bool)
        ensures
            *final(self) == old(self).with(flag, value),
    {
        if value {
            self.bits = self.bits | flag;
        } else {
            self.bits = self.bits & !flag;
        }
    }

    /// Applies the comparison masks: fullscreen clears resizable, decorations
    /// and maximized; hidden clears maximized.
    pub fn mask(self) -> (r: WindowFlags)
        ensures
            r == self.masked(),
    {
        let mut bits = self.bits;
        if bits & WindowFlags::FULLSCREEN == WindowFlags::FULLSCREEN {
            bits = bits & WindowFlags::FULLSCREEN_AND_MASK;
        }
        if bits & WindowFlags::VISIBLE != WindowFlags::VISIBLE {
            bits = bits & WindowFlags::INVISIBLE_AND_MASK;
        }
        WindowFlags { bits }
    }

    /// The window style and extended style for these flags.
    pub fn to_window_styles(self) -> (r: (u32, u32))
        ensures
            r == (window_style(self), window_ex_style(self)),
    {
        let style = (if self.contains(WindowFlags::RESIZABLE) {
            WS_SIZEBOX | WS_MAXIMIZEBOX
        } else {
            0
        }) | (if self.contains(WindowFlags::DECORATIONS) {
            WS_CAPTION | WS_SYSMENU | WS_MINIMIZEBOX | WS_BORDER
        } else {
            0
        }) | (if self.contains(WindowFlags::VISIBLE) {
            WS_VISIBLE
        } else {
            0
        }) | (if self.contains(WindowFlags::ON_TASKBAR) {
            0
        } else {
            WS_POPUP
        }) | (if self.contains(WindowFlags::CHILD) {
            WS_CHILD
        } else {
            0
        }) | (if self.contains(WindowFlags::MAXIMIZED) {
            WS_MAXIMIZE
        } else {
            0
        }) | WS_CLIPSIBLINGS | WS_CLIPCHILDREN;
        let style_ex = (if self.contains(WindowFlags::DECORATIONS) {
            WS_EX_WINDOWEDGE
        } else {
            0
        }) | (if self.contains(WindowFlags::ON_TASKBAR) {
            WS_EX_APPWINDOW
        } else {
            0
        }) | (if self.contains(WindowFlags::ALWAYS_ON_TOP) {
            WS_EX_TOPMOST
        } else {
            0
        }) | (if self.contains(WindowFlags::NO_BACK_BUFFER) {
            WS_EX_NOREDIRECTIONBITMAP
        } else {
            0
        }) | (if self.contains(WindowFlags::TRANSPARENT) {
            WS_EX_LAYERED
        } else {
            0
        }) | WS_EX_ACCEPTFILES;
        (style, style_ex)
    }

    /// The directives that take the OS window from `self` to `new`.
    pub fn apply_diff(self, new: WindowFlags) -> (r: Vec<WindowDirective>)
        ensures
            r@ == diff_directives(self, new),
    {
        let old_m = self.mask();
        let new_m = new.mask();
        let diff = old_m.bits ^ new_m.bits;
        proof {
            lemma_xor_flags(old_m.bits, new_m.bits);
        }
        let mut directives: Vec<WindowDirective> = Vec::new();
        if diff == 0 {
            return directives;
        }
        if diff & WindowFlags::ALWAYS_ON_TOP == WindowFlags::ALWAYS_ON_TOP {
            directives.push(
                WindowDirective::SetZOrder { topmost: new_m.contains(WindowFlags::ALWAYS_ON_TOP) },
            );
        }
        if diff & WindowFlags::MAXIMIZED == WindowFlags::MAXIMIZED {
            directives.push(
                WindowDirective::ShowWindow(
                    if new_m.contains(WindowFlags::MAXIMIZED) {
                        ShowCommand::Maximize
                    } else {
                        ShowCommand::Restore
                    },
                ),
            );
        }
        if diff & WindowFlags::VISIBLE == WindowFlags::VISIBLE {
            directives.push(
                WindowDirective::ShowWindow(
                    if new_m.contains(WindowFlags::VISIBLE) {
                        ShowCommand::Show
                    } else {
                        ShowCommand::Hide
                    },
                ),
            );
        }
        let (style, style_ex) = new_m.to_window_styles();
        directives.push(WindowDirective::SetStyle { style, style_ex });
        directives.push(WindowDirective::RefreshFrame);
        proof {
            assert(directives@ =~= diff_directives(self, new));
        }
        directives
    }
}

proof fn lemma_fullscreen_bit(x: u32)
    by (bit_vector)
    ensures
        (x | WindowFlags::FULLSCREEN) & WindowFlags::FULLSCREEN == WindowFlags::FULLSCREEN,
        (x & !WindowFlags::FULLSCREEN) & WindowFlags::FULLSCREEN != WindowFlags::FULLSCREEN,
        x & WindowFlags::FULLSCREEN == WindowFlags::FULLSCREEN ==> x | WindowFlags::FULLSCREEN
            == x,
        x & WindowFlags::FULLSCREEN != WindowFlags::FULLSCREEN ==> x & !WindowFlags::FULLSCREEN
            == x,
{
}

/// Changing one of the user-settable flags keeps the fullscreen bit, so
/// recomputing that bit afterwards changes nothing.
pub(crate) proof fn lemma_flag_change_keeps_fullscreen(x: u32, g: u32, v: bool)
    by (bit_vector)
    requires
        g == WindowFlags::RESIZABLE || g == WindowFlags::DECORATIONS || g == WindowFlags::VISIBLE
            || g == WindowFlags::ALWAYS_ON_TOP || g == WindowFlags::MAXIMIZED,
    ensures
        ({
            let y = if v {
                x | g
            } else {
                x & !g
            };
            let fs = x & WindowFlags::FULLSCREEN == WindowFlags::FULLSCREEN;
            (if fs {
                y | WindowFlags::FULLSCREEN
            } else {
                y & !WindowFlags::FULLSCREEN
            }) == y
        }),
{
}

/// Comparing masked values, equal flags need no directive.
pub proof fn lemma_unchanged_flags_emit_nothing(old: WindowFlags, new: WindowFlags)
    requires
        old.masked() == new.masked(),
    ensures
        diff_directives(old, new) == Seq::<WindowDirective>::empty(),
{
}

/// Masking is a closure: masking a masked value changes nothing.
pub proof fn lemma_mask_idempotent(f: WindowFlags)
    ensures
        f.masked().masked() == f.masked(),
{
    lemma_mask_bits_idempotent(f.bits);
}

/// After `set_fullscreen` with some target, any flags requested through
/// `set_window_flags` come out with the fullscreen bit equal to whether the
/// target is present; the bit the caller asked for does not count.
pub proof fn lemma_fullscreen_bit_follows_target(target: Option<MonitorHandle>, requested: WindowFlags)
    ensures
        requested.with(WindowFlags::FULLSCREEN, target.is_some()).has(WindowFlags::FULLSCREEN)
            == target.is_some(),
{
    lemma_fullscreen_bit(requested.bits);
}

/// A set of cursor states.
#[derive(Debug, Clone, Copy, PartialEq, Eq, Structural, Hash)]
pub struct CursorFlags {
    pub bits: u8,
}

impl CursorFlags {
    /// The cursor is confined to the window's client area while it has focus.
    pub const GRABBED: u8 = 0x1;
    /// The cursor is hidden while over the client area.
    pub const HIDDEN: u8 = 0x2;
    /// The cursor is over the window; kept by enter and leave notifications.
    pub const IN_WINDOW: u8 = 0x4;

    pub open spec fn has(self, flag: u8) -> bool {
        self.bits & flag == flag
    }

    pub open spec fn with(self, flag: u8, value: bool) -> CursorFlags {
        CursorFlags { bits: if value { self.bits | flag } else { self.bits & !flag } }
    }

    pub fn empty() -> (r: CursorFlags)
        ensures
            r.bits == 0,
    {
        CursorFlags { bits: 0 }
    }

    pub fn contains(&self, flag: u8) -> (r: bool)
        ensures
            r == self.has(flag),
    {
        self.bits & flag == flag
    }

    /// Sets or clears the bits of `flag`.
    pub fn set(&mut self, flag: u8, value: bool)
        ensures
            *final(self) == old(self).with(flag, value),
    {
        if value {
            self.bits = self.bits | flag;
        } else {
            self.bits = self.bits & !flag;
        }
    }

    /// The cursor directives for these flags, given what the OS reports.
    pub fn refresh_os_cursor(self, env: &CursorEnv) -> (r: Vec<CursorDirective>)
        ensures
            r@ == cursor_directives(self, *env),
    {
        let mut directives: Vec<CursorDirective> = Vec::new();
        if env.focused {
            if self.contains(CursorFlags::GRABBED) {
                directives.push(CursorDirective::ClipCursor(Some(env.client_rect)));
            } else {
                directives.push(CursorDirective::ClipCursor(None));
            }
        }
        let cursor_in_client = match env.cursor_pos {
            Some(pos) => rect_contains(env.client_rect, pos),
            None => false,
        };
        if cursor_in_client {
            directives.push(CursorDirective::SetCursorHidden(self.contains(CursorFlags::HIDDEN)));
        }
        proof {
            assert(directives@ =~= cursor_directives(self, *env));
        }
        directives
    }
}

/// A rectangle in screen coordinates.
#[derive(Debug, Clone, Copy, PartialEq, Eq, Structural, Hash)]
pub struct Rect {
    pub left: i32,
    pub top: i32,
    pub right: i32,
    pub bottom: i32,
}

/// A point in screen coordinates.
#[derive(Debug, Clone, Copy, PartialEq, Eq, Structural, Hash)]
pub struct Point {
    pub x: i32,
    pub y: i32,
}

/// Whether `p` lies in `r`, edges included.
pub open spec fn rect_contains_spec(r: Rect, p: Point) -> bool {
    r.left <= p.x && p.x <= r.right && r.top <= p.y && p.y <= r.bottom
}

/// Whether `p` lies in `r`, edges included.
pub fn rect_contains(r: Rect, p: Point) -> (b: bool)
    ensures
        b == rect_contains_spec(r, p),
{
    r.left <= p.x && p.x <= r.right && r.top <= p.y && p.y <= r.bottom
}

/// An error the OS reported, by its error code.
#[derive(Debug, Clone, Copy, PartialEq, Eq, Structural, Hash)]
pub struct OsError {
    pub code: i32,
}

/// What the OS reports that the cursor logic reads.
#[derive(Debug, Clone, Copy, PartialEq, Eq, Structural, Hash)]
pub struct CursorEnv {
    /// The window's client area.
    pub client_rect: Rect,
    /// Whether the window has input focus.
    pub focused: bool,
    /// The cursor's last known position, if the OS gave one.
    pub cursor_pos: Option<Point>,
}

/// One OS call about the cursor.
#[derive(Debug, Clone, Copy, PartialEq, Eq, Structural, Hash)]
pub enum CursorDirective {
    /// Confine the cursor to the rectangle, or release any confinement.
    ClipCursor(Option<Rect>),
    SetCursorHidden(bool),
}

/// The cursor directives for `flags`: while the window has focus, clip the
/// cursor to the client area if it is grabbed and release the clip if not;
/// then, whatever the focus, if the cursor is over the client area, show or
/// hide it as the hidden flag says.
pub open spec fn cursor_directives(flags: CursorFlags, env: CursorEnv) -> Seq<CursorDirective> {
    let s0: Seq<CursorDirective> = if env.focused {
        seq![
            CursorDirective::ClipCursor(
                if flags.has(CursorFlags::GRABBED) {
                    Some(env.client_rect)
                } else {
                    None
                },
            ),
        ]
    } else {
        Seq::empty()
    };
    match env.cursor_pos {
        Some(p) if rect_contains_spec(env.client_rect, p) => s0.push(
            CursorDirective::SetCursorHidden(flags.has(CursorFlags::HIDDEN)),
        ),
        _ => s0,
    }
}

/// The cursor's shape and recorded state for one window.
#[derive(Debug, Clone, Copy)]
pub struct MouseProperties {
    cursor: CursorIcon,
    cursor_flags: CursorFlags,
}

impl MouseProperties {
    pub closed spec fn icon(self) -> CursorIcon {
        self.cursor
    }

    pub closed spec fn flags(self) -> CursorFlags {
        self.cursor_flags
    }

    pub fn cursor(&self) -> (r: CursorIcon)
        ensures
            r == self.icon(),
    {
        self.cursor
    }

    pub fn set_cursor(&mut self, cursor: CursorIcon)
        ensures
            final(self).icon() == cursor,
            final(self).flags() == old(self).flags(),
    {
        self.cursor = cursor;
    }

    /// The default cursor, with no flag set.
    pub fn new() -> (r: MouseProperties)
        ensures
            r.icon() == CursorIcon::Default,
            r.flags().bits == 0,
    {
        MouseProperties { cursor: CursorIcon::Default, cursor_flags: CursorFlags::empty() }
    }

    pub fn cursor_flags(&self) -> (r: CursorFlags)
        ensures
            r == self.flags(),
    {
        self.cursor_flags
    }

    /// The directives that bring the OS cursor in line with the recorded
    /// flags, for instance after the window gained focus.
    pub fn refresh_os_cursor(&self, env: &CursorEnv) -> (r: Vec<CursorDirective>)
        ensures
            r@ == cursor_directives(self.flags(), *env),
    {
        self.cursor_flags.refresh_os_cursor(env)
    }

    /// Records `new` as the cursor flags, all or nothing: `refreshed` is the
    /// outcome of carrying out `new.refresh_os_cursor(..)`. On success the
    /// new flags stand; on failure the old ones stay and the error is
    /// handed back.
    pub fn set_cursor_flags(&mut self, new: CursorFlags, refreshed: Result<(), OsError>) -> (r:
        Result<(), OsError>)
        ensures
            r == refreshed,
            final(self).icon() == old(self).icon(),
            final(self).flags() == (if refreshed is Ok {
                new
            } else {
                old(self).flags()
            }),
    {
        if refreshed.is_ok() {
            self.cursor_flags = new;
        }
        refreshed
    }
}

/// The client area and scale that a window had when it went fullscreen.
#[derive(Debug, Clone, Copy, PartialEq, Eq, Structural, Hash)]
pub struct SavedWindow {
    pub client_rect: Rect,
    /// Dots per inch; the scale factor is this over 96.
    pub dpi: u32,
}

/// The state of one window that the callbacks share.
#[derive(Debug)]
pub struct WindowState {
    mouse: MouseProperties,
    /// Present while the window is fullscreen, after entering it through
    /// `set_fullscreen`.
    saved_window: Option<SavedWindow>,
    /// Dots per inch of the window's monitor.
    dpi: u32,
    fullscreen: Option<MonitorHandle>,
    window_flags: WindowFlags,
}

impl WindowState {
    #[verifier::type_invariant]
    spec fn fullscreen_bit_matches(self) -> bool {
        self.window_flags.has(WindowFlags::FULLSCREEN) == self.fullscreen.is_some()
    }

    pub closed spec fn flags(self) -> WindowFlags {
        self.window_flags
    }

    pub closed spec fn fullscreen_target(self) -> Option<MonitorHandle> {
        self.fullscreen
    }

    pub closed spec fn mouse_state(self) -> MouseProperties {
        self.mouse
    }

    pub closed spec fn saved(self) -> Option<SavedWindow> {
        self.saved_window
    }

    pub closed spec fn dpi_value(self) -> u32 {
        self.dpi
    }

    pub fn mouse(&self) -> (r: &MouseProperties)
        ensures
            *r == self.mouse_state(),
    {
        &self.mouse
    }

    pub fn saved_window(&self) -> (r: Option<SavedWindow>)
        ensures
            r == self.saved(),
    {
        self.saved_window
    }

    pub fn dpi(&self) -> (r: u32)
        ensures
            r == self.dpi_value(),
    {
        self.dpi
    }

    /// Records the dpi of the monitor the window is now on.
    pub fn set_dpi(&mut self, dpi: u32)
        ensures
            final(self).dpi_value() == dpi,
            final(self).flags() == old(self).flags(),
            final(self).fullscreen_target() == old(self).fullscreen_target(),
            final(self).mouse_state() == old(self).mouse_state(),
            final(self).saved() == old(self).saved(),
    {
        proof {
            use_type_invariant(&*self);
        }
        self.dpi = dpi;
    }

    pub fn set_cursor_icon(&mut self, cursor: CursorIcon)
        ensures
            final(self).mouse_state().icon() == cursor,
            final(self).mouse_state().flags() == old(self).mouse_state().flags(),
            final(self).flags() == old(self).flags(),
            final(self).fullscreen_target() == old(self).fullscreen_target(),
            final(self).saved() == old(self).saved(),
            final(self).dpi_value() == old(self).dpi_value(),
    {
        let mut mouse = self.mouse;
        mouse.set_cursor(cursor);
        proof {
            use_type_invariant(&*self);
        }
        self.mouse = mouse;
    }

    /// Records new cursor flags, all or nothing; see
    /// `MouseProperties::set_cursor_flags`.
    pub fn set_cursor_flags(&mut self, new: CursorFlags, refreshed: Result<(), OsError>) -> (r:
        Result<(), OsError>)
        ensures
            r == refreshed,
            final(self).mouse_state().icon() == old(self).mouse_state().icon(),
            final(self).mouse_state().flags() == (if refreshed is Ok {
                new
            } else {
                old(self).mouse_state().flags()
            }),
            final(self).flags() == old(self).flags(),
            final(self).fullscreen_target() == old(self).fullscreen_target(),
            final(self).saved() == old(self).saved(),
            final(self).dpi_value() == old(self).dpi_value(),
    {
        let mut mouse = self.mouse;
        let r = mouse.set_cursor_flags(new, refreshed);
        proof {
            use_type_invariant(&*self);
        }
        self.mouse = mouse;
        r
    }

    /// The state of a new window: no flag set, not fullscreen.
    pub fn new(dpi: u32) -> (r: WindowState)
        ensures
            r.flags().bits == 0,
            r.fullscreen_target().is_none(),
            r.saved().is_none(),
            r.dpi_value() == dpi,
            r.mouse_state().icon() == CursorIcon::Default,
            r.mouse_state().flags().bits == 0,
    {
        let window_flags = WindowFlags::empty();
        proof {
            assert(0u32 & WindowFlags::FULLSCREEN != WindowFlags::FULLSCREEN) by (bit_vector);
        }
        WindowState {
            mouse: MouseProperties::new(),
            saved_window: None,
            dpi,
            fullscreen: None,
            window_flags,
        }
    }

    pub fn window_flags(&self) -> (r: WindowFlags)
        ensures
            r == self.flags(),
            r.has(WindowFlags::FULLSCREEN) == self.fullscreen_target().is_some(),
    {
        proof {
            use_type_invariant(self);
        }
        self.window_flags
    }

    pub fn fullscreen(&self) -> (r: &Option<MonitorHandle>)
        ensures
            *r == self.fullscreen_target(),
    {
        &self.fullscreen
    }

    /// Stores `new` as the window's flags, with the fullscreen bit taken from
    /// whether a fullscreen target is present, and returns the directives
    /// that take the OS window from the old flags to the stored ones.
    pub fn set_window_flags(&mut self, new: WindowFlags) -> (r: Vec<WindowDirective>)
        ensures
            final(self).flags() == new.with(
                WindowFlags::FULLSCREEN,
                old(self).fullscreen_target().is_some(),
            ),
            final(self).fullscreen_target() == old(self).fullscreen_target(),
            final(self).mouse_state() == old(self).mouse_state(),
            final(self).saved() == old(self).saved(),
            final(self).dpi_value() == old(self).dpi_value(),
            r@ == diff_directives(old(self).flags(), final(self).flags()),
    {
        proof {
            use_type_invariant(&*self);
        }
        let old_flags = self.window_flags;
        let mut flags = new;
        flags.set(WindowFlags::FULLSCREEN, self.fullscreen.is_some());
        proof {
            lemma_fullscreen_bit(new.bits);
        }
        self.window_flags = flags;
        old_flags.apply_diff(flags)
    }

    /// Sets or clears the fullscreen target and recomputes the flags.
    ///
    /// Entering fullscreen records the given client area and the current dpi
    /// in `saved_window`; leaving it takes that record out and returns it,
    /// so that the caller can restore the window's geometry.
    pub fn set_fullscreen(&mut self, fullscreen: Option<MonitorHandle>, client_rect: Rect) -> (r: (
        Vec<WindowDirective>,
        Option<SavedWindow>,
    ))
        ensures
            final(self).fullscreen_target() == fullscreen,
            final(self).flags() == old(self).flags().with(
                WindowFlags::FULLSCREEN,
                fullscreen.is_some(),
            ),
            final(self).mouse_state() == old(self).mouse_state(),
            final(self).dpi_value() == old(self).dpi_value(),
            r.0@ == diff_directives(old(self).flags(), final(self).flags()),
            old(self).fullscreen_target().is_none() && fullscreen.is_some() ==> final(self).saved() == Some(SavedWindow { client_rect, dpi: old(self).dpi_value() }) && r.1.is_none(),
            old(self).fullscreen_target().is_some() && fullscreen.is_none() ==> final(self).saved().is_none() && r.1 == old(self).saved(),
            old(self).fullscreen_target().is_some() == fullscreen.is_some() ==> final(self).saved() == old(self).saved() && r.1.is_none(),
    {
        proof {
            use_type_invariant(&*self);
        }
        let was_fullscreen = self.fullscreen.is_some();
        let will_be_fullscreen = fullscreen.is_some();
        let mut saved_window = self.saved_window;
        let mut restore: Option<SavedWindow> = None;
        if !was_fullscreen && will_be_fullscreen {
            saved_window = Some(SavedWindow { client_rect, dpi: self.dpi });
        } else if was_fullscreen && !will_be_fullscreen {
            restore = saved_window;
            saved_window = None;
        }
        let old_flags = self.window_flags;
        let mut flags = old_flags;
        flags.set(WindowFlags::FULLSCREEN, will_be_fullscreen);
        proof {
            lemma_fullscreen_bit(old_flags.bits);
        }
        *self = WindowState {
            mouse: self.mouse,
            saved_window,
            dpi: self.dpi,
            fullscreen,
            window_flags: flags,
        };
        (old_flags.apply_diff(flags), restore)
    }
}

} // verus!
