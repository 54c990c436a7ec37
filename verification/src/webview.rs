//! Decisions about a browser view inside a window: where its bounds come from,
//! and which X11 requests or browser notifications its changes turn into.

use vstd::prelude::*;

use crate::osr::{clamp_side, OsrState, PixelRect};
use crate::window::{xid_of, AppWindow, Color};

verus! {

/// A browser view, as far as these decisions read it.
pub struct AppWebview {
    /// The native window handle of the browser host; 0 where it has none.
    pub host_window: u64,
}

/// Where the bounds of a view come from.
#[derive(Clone, Copy, Debug, PartialEq, Eq, Structural)]
pub enum BoundsPlan {
    /// Known without asking the window system.
    Known(PixelRect),
    /// Ask the X server for the geometry of this window.
    QueryX11(u64),
    /// Not known.
    Unavailable,
}

/// Show or hide an X11 window: show clears `_NET_WM_STATE` and maps the window,
/// hide sets `_NET_WM_STATE` to `_NET_WM_STATE_HIDDEN` and unmaps it.
#[derive(Clone, Copy, Debug, PartialEq, Eq, Structural)]
pub enum X11Visibility {
    Show { window: u64 },
    Hide { window: u64 },
}

/// What placing a view at physical bounds comes to.
#[derive(Clone, Copy, Debug, PartialEq, Eq, Structural)]
pub enum BoundsAction {
    /// Give the off-screen view this logical size, then send the device metrics.
    ResizeOffscreen { logical_width: i32, logical_height: i32 },
    /// Tell the browser host a move or resize started and that it was resized.
    NotifyHost,
    /// Move and resize the X11 window.
    MoveResizeX11 { window: u64, x: i32, y: i32, width: u32, height: u32 },
    /// Nothing can be done.
    Nothing,
}

/// The X11 window id of a view: its host window, where it has one and the
/// browser runs on an X display.
pub open spec fn webview_xid(host_window: u64, x_display_available: bool) -> Option<u64> {
    if host_window == 0 || !x_display_available {
        None
    } else {
        Some(host_window)
    }
}

/// A side length for the X server: the value, at least 1.
pub open spec fn x11_side(v: i32) -> u32 {
    if v < 1 { 1 } else { v as u32 }
}

impl AppWebview {
    /// The X11 window id of this view, given whether the browser runs on an X display.
    pub fn xid(&self, x_display_available: bool) -> (r: Option<u64>)
        ensures
            r == webview_xid(self.host_window, x_display_available),
    {
        if self.host_window == 0 {
            return None;
        }
        if !x_display_available {
            return None;
        }
        Some(self.host_window)
    }

    /// The native child window does not show the browser's background, so the
    /// color is not applied here; the browser settings given at creation apply.
    pub fn set_background_color(&self, color: Option<Color>) {
    }

    /// Where the bounds of this view come from: an off-screen view has its view
    /// size at the origin; otherwise the X server is asked, if this is an X11 window.
    pub fn bounds(&self, osr: Option<&OsrState>, x_display_available: bool) -> (r: BoundsPlan)
        ensures
            r == (match osr {
                Some(s) => BoundsPlan::Known(
                    PixelRect { x: 0, y: 0, width: s.view_width as u32, height: s.view_height as u32 },
                ),
                None => match webview_xid(self.host_window, x_display_available) {
                    Some(w) => BoundsPlan::QueryX11(w),
                    None => BoundsPlan::Unavailable,
                },
            }),
            osr matches Some(s) ==> r matches BoundsPlan::Known(rect) && rect.x == 0 && rect.y == 0
                && rect.width == s.view_width as u32 && rect.height == s.view_height as u32,
            r matches BoundsPlan::QueryX11(w) ==> osr is None && w == self.host_window && w != 0
                && x_display_available,
            (osr is None && self.host_window != 0 && x_display_available) ==> r == BoundsPlan::QueryX11(
                self.host_window,
            ),
    {
        if let Some(state) = osr {
            return BoundsPlan::Known(state.bounds());
        }
        match self.xid(x_display_available) {
            Some(w) => BoundsPlan::QueryX11(w),
            None => BoundsPlan::Unavailable,
        }
    }

    /// The X11 windows to reparent (this view's, into the parent's), where both
    /// are X11 windows and the view is not off-screen.
    pub fn reparent(&self, offscreen: bool, parent: &AppWindow, x_display_available: bool) -> (r:
        Option<(u64, u64)>)
        ensures
            r == (if offscreen {
                None
            } else {
                match (webview_xid(self.host_window, x_display_available), xid_of(parent.handle)) {
                    (Some(c), Some(p)) => Some((c, p)),
                    _ => None,
                }
            }),
            offscreen ==> r is None,
            r matches Some((c, p)) ==> c == self.host_window && c != 0 && x_display_available
                && xid_of(parent.handle) == Some(p),
            (!offscreen && self.host_window != 0 && x_display_available && xid_of(parent.handle) is Some)
                ==> r is Some,
    {
        if offscreen {
            return None;
        }
        let xid = match self.xid(x_display_available) {
            Some(x) => x,
            None => {
                return None;
            },
        };
        let parent_xid = match parent.xid() {
            Some(p) => p,
            None => {
                return None;
            },
        };
        Some((xid, parent_xid))
    }

    /// The X11 request that shows or hides this view, where it is an X11 window
    /// and not off-screen.
    pub fn apply_visible(&self, offscreen: bool, visible: bool, x_display_available: bool) -> (r:
        Option<X11Visibility>)
        ensures
            r == (if offscreen {
                None
            } else {
                match webview_xid(self.host_window, x_display_available) {
                    Some(w) => Some(
                        if visible {
                            X11Visibility::Show { window: w }
                        } else {
                            X11Visibility::Hide { window: w }
                        },
                    ),
                    None => None,
                }
            }),
            offscreen ==> r is None,
            r matches Some(X11Visibility::Show { window }) ==> visible && window == self.host_window,
            r matches Some(X11Visibility::Hide { window }) ==> !visible && window == self.host_window,
            r is Some ==> self.host_window != 0 && x_display_available,
            (!offscreen && self.host_window != 0 && x_display_available) ==> r is Some,
    {
        if offscreen {
            return None;
        }
        let xid = match self.xid(x_display_available) {
            Some(x) => x,
            None => {
                return None;
            },
        };
        if visible {
            Some(X11Visibility::Show { window: xid })
        } else {
            Some(X11Visibility::Hide { window: xid })
        }
    }

    /// What placing this view at `(x, y)` with physical size `width` x `height`
    /// comes to. An off-screen view takes `logical_size` (the physical size
    /// divided by the scale factor), each side at least 1. Under Wayland, unless
    /// X11 is forced, the host is notified. Otherwise the X11 window is moved and
    /// resized, each side at least 1.
    pub fn apply_physical_bounds(
        &self,
        offscreen: bool,
        logical_size: (i32, i32),
        x: i32,
        y: i32,
        width: i32,
        height: i32,
        wayland_display_set: bool,
        force_x11_set: bool,
        x_display_available: bool,
    ) -> (r: BoundsAction)
        ensures
            r == (if offscreen {
                BoundsAction::ResizeOffscreen {
                    logical_width: clamp_side(logical_size.0),
                    logical_height: clamp_side(logical_size.1),
                }
            } else if wayland_display_set && !force_x11_set {
                BoundsAction::NotifyHost
            } else {
                match webview_xid(self.host_window, x_display_available) {
                    Some(w) => BoundsAction::MoveResizeX11 {
                        window: w,
                        x,
                        y,
                        width: x11_side(width),
                        height: x11_side(height),
                    },
                    None => BoundsAction::Nothing,
                }
            }),
            offscreen <==> r is ResizeOffscreen,
            r matches BoundsAction::ResizeOffscreen { logical_width, logical_height } ==> logical_width
                >= 1 && logical_height >= 1 && (logical_size.0 >= 1 ==> logical_width == logical_size.0)
                && (logical_size.1 >= 1 ==> logical_height == logical_size.1),
            r is NotifyHost <==> (!offscreen && wayland_display_set && !force_x11_set),
            r matches BoundsAction::MoveResizeX11 { window, x: rx, y: ry, width: rw, height: rh }
                ==> window == self.host_window && window != 0 && rx == x && ry == y && rw >= 1 && rh
                >= 1 && (width >= 1 ==> rw as int == width as int) && (height >= 1 ==> rh as int
                == height as int),
    {
        if offscreen {
            let w = if logical_size.0 < 1 { 1 } else { logical_size.0 };
            let h = if logical_size.1 < 1 { 1 } else { logical_size.1 };
            return BoundsAction::ResizeOffscreen { logical_width: w, logical_height: h };
        }
        if wayland_display_set && !force_x11_set {
            return BoundsAction::NotifyHost;
        }
        let xid = match self.xid(x_display_available) {
            Some(w) => w,
            None => {
                return BoundsAction::Nothing;
            },
        };
        let w: u32 = if width < 1 { 1 } else { width as u32 };
        let h: u32 = if height < 1 { 1 } else { height as u32 };
        BoundsAction::MoveResizeX11 { window: xid, x, y, width: w, height: h }
    }
}

/// The bounds the X server reported: `None` where the geometry request failed
/// (`status == 0`).
pub fn geometry_rect(status: i32, x: i32, y: i32, width: u32, height: u32) -> (r: Option<PixelRect>)
    ensures
        r == (if status == 0 {
            None
        } else {
            Some(PixelRect { x, y, width, height })
        }),
{
    if status == 0 {
        None
    } else {
        Some(PixelRect { x, y, width, height })
    }
}

/// A view is never addressed as X11 window 0.
pub proof fn lemma_webview_xid_nonzero(host_window: u64, x_display_available: bool)
    ensures
        webview_xid(host_window, x_display_available) is Some ==> host_window != 0,
{
}

} // verus!
