//! Decisions about a top-level native window: its handles for the browser and
//! for X11, and the X11 requests its settings turn into.

use vstd::prelude::*;

verus! {

/// The native handle of a window, as the window system gives it.
#[derive(Clone, Copy, Debug, PartialEq, Eq, Structural)]
pub enum NativeWindowHandle {
    /// An Xlib window id.
    Xlib { window: u64 },
    /// An XCB window id (never 0).
    Xcb { xcb_window: u32 },
    /// A Wayland surface, by its address.
    Wayland { surface: u64 },
    /// Any other kind of window system.
    Other,
}

/// An RGBA color.
#[derive(Clone, Copy, Debug, PartialEq, Eq, Structural)]
pub struct Color(pub u8, pub u8, pub u8, pub u8);

/// The `_NET_WM_STATE` properties a window setting switches.
#[derive(Clone, Copy, Debug, PartialEq, Eq, Structural)]
pub enum WmStateProperty {
    /// `_NET_WM_STATE_SKIP_TASKBAR`
    SkipTaskbar,
    /// `_NET_WM_STATE_STICKY`
    Sticky,
}

/// Add (`add == true`) or remove a `_NET_WM_STATE` property of an X11 window.
#[derive(Clone, Copy, Debug, PartialEq, Eq, Structural)]
pub struct WmStateChange {
    pub window: u64,
    pub add: bool,
    pub property: WmStateProperty,
}

/// Set the background of an X11 window to a color with 16-bit channels.
#[derive(Clone, Copy, Debug, PartialEq, Eq, Structural)]
pub struct X11Background {
    pub window: u64,
    pub red: u16,
    pub green: u16,
    pub blue: u16,
}

/// A top-level window, as far as these decisions read it.
pub struct AppWindow {
    /// The native handle, `None` where the window system did not give one.
    pub handle: Option<NativeWindowHandle>,
}

/// The handle the browser gets for a window: the X11 window id, the Wayland
/// surface address, or 0.
pub open spec fn cef_handle_of(handle: Option<NativeWindowHandle>) -> u64 {
    match handle {
        Some(NativeWindowHandle::Xlib { window }) => window,
        Some(NativeWindowHandle::Xcb { xcb_window: window }) => window as u64,
        Some(NativeWindowHandle::Wayland { surface }) => surface,
        _ => 0,
    }
}

/// The X11 window id of a window, if it is an X11 window.
pub open spec fn xid_of(handle: Option<NativeWindowHandle>) -> Option<u64> {
    match handle {
        Some(NativeWindowHandle::Xlib { window }) => Some(window),
        Some(NativeWindowHandle::Xcb { xcb_window: window }) => Some(window as u64),
        _ => None,
    }
}

/// A color channel of 8 bits spread over 16: `c * 257`, so 0xff becomes 0xffff.
pub open spec fn channel16(c: u8) -> u16 {
    (c as int * 257) as u16
}

fn widen_channel(c: u8) -> (r: u16)
    ensures
        r == channel16(c),
        r as int == c as int * 257,
{
    (c as u16) * 257
}

impl AppWindow {
    /// The handle the browser gets for this window.
    pub fn raw_cef_handle(&self) -> (r: u64)
        ensures
            r == cef_handle_of(self.handle),
            self.handle matches Some(NativeWindowHandle::Xlib { window }) ==> r == window,
            self.handle matches Some(NativeWindowHandle::Xcb { xcb_window }) ==> r == xcb_window as u64,
            self.handle matches Some(NativeWindowHandle::Wayland { surface }) ==> r == surface,
            (self.handle is None || self.handle == Some(NativeWindowHandle::Other)) ==> r == 0,
    {
        match self.handle {
            Some(NativeWindowHandle::Xlib { window }) => window,
            Some(NativeWindowHandle::Xcb { xcb_window: window }) => window as u64,
            Some(NativeWindowHandle::Wayland { surface }) => surface,
            _ => 0,
        }
    }

    /// The X11 window id of this window, if it is an X11 window.
    pub fn xid(&self) -> (r: Option<u64>)
        ensures
            r == xid_of(self.handle),
            self.handle matches Some(NativeWindowHandle::Xlib { window }) ==> r == Some(window),
            self.handle matches Some(NativeWindowHandle::Xcb { xcb_window }) ==> r == Some(
                xcb_window as u64,
            ),
            !(self.handle matches Some(NativeWindowHandle::Xlib { .. })) && !(self.handle matches Some(
                NativeWindowHandle::Xcb { .. },
            )) ==> r is None,
    {
        match self.handle {
            Some(NativeWindowHandle::Xlib { window }) => Some(window),
            Some(NativeWindowHandle::Xcb { xcb_window: window }) => Some(window as u64),
            _ => None,
        }
    }

    /// Enabling or disabling input on the native window is not supported on
    /// this platform; the call has no effect.
    pub fn set_enabled(&self, enabled: bool) {
    }

    /// The native window always takes input on this platform.
    pub fn is_enabled(&self) -> (r: bool)
        ensures
            r,
    {
        true
    }

    /// The X11 request that sets the window background to `color`; nothing for
    /// a window that is not an X11 window or when no color is given.
    pub fn set_background_color(&self, color: Option<Color>) -> (r: Option<X11Background>)
        ensures
            r == (match (xid_of(self.handle), color) {
                (Some(w), Some(c)) => Some(
                    X11Background {
                        window: w,
                        red: channel16(c.0),
                        green: channel16(c.1),
                        blue: channel16(c.2),
                    },
                ),
                _ => None,
            }),
            r is Some <==> (xid_of(self.handle) is Some && color is Some),
            r matches Some(bg) ==> color matches Some(c) && Some(bg.window) == xid_of(self.handle)
                && bg.red as int == c.0 as int * 257 && bg.green as int == c.1 as int * 257
                && bg.blue as int == c.2 as int * 257,
    {
        let xid = match self.xid() {
            Some(x) => x,
            None => {
                return None;
            },
        };
        let color = match color {
            Some(c) => c,
            None => {
                return None;
            },
        };
        Some(
            X11Background {
                window: xid,
                red: widen_channel(color.0),
                green: widen_channel(color.1),
                blue: widen_channel(color.2),
            },
        )
    }

    /// The X11 request that keeps the window off the taskbar (`skip`) or puts it back.
    pub fn set_skip_taskbar(&self, skip: bool) -> (r: Option<WmStateChange>)
        ensures
            r == (match xid_of(self.handle) {
                Some(w) => Some(
                    WmStateChange { window: w, add: skip, property: WmStateProperty::SkipTaskbar },
                ),
                None => None,
            }),
            r is Some <==> xid_of(self.handle) is Some,
            r matches Some(c) ==> Some(c.window) == xid_of(self.handle) && c.add == skip && c.property
                == WmStateProperty::SkipTaskbar,
    {
        match self.xid() {
            Some(w) => Some(
                WmStateChange { window: w, add: skip, property: WmStateProperty::SkipTaskbar },
            ),
            None => None,
        }
    }

    /// The X11 request that shows the window on all workspaces (`visible`) or on one.
    pub fn set_visible_on_all_workspaces(&self, visible: bool) -> (r: Option<WmStateChange>)
        ensures
            r == (match xid_of(self.handle) {
                Some(w) => Some(
                    WmStateChange { window: w, add: visible, property: WmStateProperty::Sticky },
                ),
                None => None,
            }),
            r is Some <==> xid_of(self.handle) is Some,
            r matches Some(c) ==> Some(c.window) == xid_of(self.handle) && c.add == visible
                && c.property == WmStateProperty::Sticky,
    {
        match self.xid() {
            Some(w) => Some(
                WmStateChange { window: w, add: visible, property: WmStateProperty::Sticky },
            ),
            None => None,
        }
    }
}

/// An X11 window is handed to the browser by its X11 id.
pub proof fn lemma_xid_is_cef_handle(handle: Option<NativeWindowHandle>)
    ensures
        xid_of(handle) matches Some(x) ==> cef_handle_of(handle) == x,
        xid_of(handle) is None && cef_handle_of(handle) != 0 ==> handle matches Some(
            NativeWindowHandle::Wayland { .. },
        ),
{
}

/// Full channels stay full and empty ones stay empty when widened to 16 bits.
pub proof fn lemma_channel16_ends(c: u8)
    ensures
        channel16(c) == 0 <==> c == 0,
        channel16(c) == 0xffff <==> c == 0xff,
        channel16(c) / 256 == c,
{
}

} // verus!
