use tauri_runtime_cef::surface::SurfaceExtent;
use tauri_runtime_cef::window::{
    AppWindow, Color, NativeWindowHandle, WmStateChange, WmStateProperty, X11Background,
};

#[test]
fn handles_for_each_window_system() {
    let x = AppWindow { handle: Some(NativeWindowHandle::Xlib { window: 0x4a0_0001 }) };
    assert_eq!(x.raw_cef_handle(), 0x4a0_0001);
    assert_eq!(x.xid(), Some(0x4a0_0001));
    let c = AppWindow { handle: Some(NativeWindowHandle::Xcb { xcb_window: 77 }) };
    assert_eq!(c.raw_cef_handle(), 77);
    assert_eq!(c.xid(), Some(77));
    let w = AppWindow { handle: Some(NativeWindowHandle::Wayland { surface: 0x5555_0000 }) };
    assert_eq!(w.raw_cef_handle(), 0x5555_0000);
    assert_eq!(w.xid(), None);
    let o = AppWindow { handle: Some(NativeWindowHandle::Other) };
    assert_eq!(o.raw_cef_handle(), 0);
    assert_eq!(o.xid(), None);
    let n = AppWindow { handle: None };
    assert_eq!(n.raw_cef_handle(), 0);
    assert_eq!(n.xid(), None);
}

#[test]
fn window_is_always_enabled() {
    let x = AppWindow { handle: Some(NativeWindowHandle::Xlib { window: 1 }) };
    assert!(x.is_enabled());
    x.set_enabled(false);
    assert!(x.is_enabled());
}

#[test]
fn background_color_request() {
    let x = AppWindow { handle: Some(NativeWindowHandle::Xlib { window: 9 }) };
    assert_eq!(
        x.set_background_color(Some(Color(255, 0, 0x80, 10))),
        Some(X11Background { window: 9, red: 0xffff, green: 0, blue: 0x8080 })
    );
    assert_eq!(x.set_background_color(None), None);
    let w = AppWindow { handle: Some(NativeWindowHandle::Wayland { surface: 1 }) };
    assert_eq!(w.set_background_color(Some(Color(1, 2, 3, 4))), None);
}

#[test]
fn wm_state_requests() {
    let x = AppWindow { handle: Some(NativeWindowHandle::Xcb { xcb_window: 5 }) };
    assert_eq!(
        x.set_skip_taskbar(true),
        Some(WmStateChange { window: 5, add: true, property: WmStateProperty::SkipTaskbar })
    );
    assert_eq!(
        x.set_visible_on_all_workspaces(false),
        Some(WmStateChange { window: 5, add: false, property: WmStateProperty::Sticky })
    );
    let n = AppWindow { handle: None };
    assert_eq!(n.set_skip_taskbar(true), None);
    assert_eq!(n.set_visible_on_all_workspaces(true), None);
}

#[test]
fn surface_configured_once_per_size() {
    let mut s = SurfaceExtent::new();
    assert_eq!(s.configure(800, 600), Some((800, 600)));
    assert_eq!(s.configure(800, 600), None);
    assert_eq!(s.configure(801, 600), Some((801, 600)));
    assert_eq!(s.configure(0, 0), Some((1, 1)));
    assert_eq!(s.configure(0, 0), Some((1, 1)));
    assert_eq!(s.configure(1, 1), None);
    assert_eq!((s.width, s.height), (1, 1));
}
