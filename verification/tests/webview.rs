use tauri_runtime_cef::osr::{OsrState, PixelRect};
use tauri_runtime_cef::webview::{geometry_rect, AppWebview, BoundsAction, BoundsPlan, X11Visibility};
use tauri_runtime_cef::window::{AppWindow, NativeWindowHandle};

#[test]
fn webview_xid_needs_handle_and_x_display() {
    assert_eq!(AppWebview { host_window: 0 }.xid(true), None);
    assert_eq!(AppWebview { host_window: 12 }.xid(false), None);
    assert_eq!(AppWebview { host_window: 12 }.xid(true), Some(12));
}

#[test]
fn bounds_plan() {
    let v = AppWebview { host_window: 12 };
    let s = OsrState::new(320, 240);
    assert_eq!(v.bounds(Some(&s), true), BoundsPlan::Known(PixelRect { x: 0, y: 0, width: 320, height: 240 }));
    assert_eq!(v.bounds(None, true), BoundsPlan::QueryX11(12));
    assert_eq!(v.bounds(None, false), BoundsPlan::Unavailable);
    assert_eq!(geometry_rect(0, 1, 2, 3, 4), None);
    assert_eq!(geometry_rect(1, -1, 2, 30, 40), Some(PixelRect { x: -1, y: 2, width: 30, height: 40 }));
}

#[test]
fn reparent_and_visibility() {
    let v = AppWebview { host_window: 12 };
    let parent = AppWindow { handle: Some(NativeWindowHandle::Xlib { window: 99 }) };
    let wayland = AppWindow { handle: Some(NativeWindowHandle::Wayland { surface: 3 }) };
    assert_eq!(v.reparent(false, &parent, true), Some((12, 99)));
    assert_eq!(v.reparent(true, &parent, true), None);
    assert_eq!(v.reparent(false, &wayland, true), None);
    assert_eq!(v.reparent(false, &parent, false), None);
    assert_eq!(v.apply_visible(false, true, true), Some(X11Visibility::Show { window: 12 }));
    assert_eq!(v.apply_visible(false, false, true), Some(X11Visibility::Hide { window: 12 }));
    assert_eq!(v.apply_visible(true, false, true), None);
    assert_eq!(AppWebview { host_window: 0 }.apply_visible(false, true, true), None);
}

#[test]
fn physical_bounds_actions() {
    let v = AppWebview { host_window: 12 };
    assert_eq!(
        v.apply_physical_bounds(true, (0, 300), 5, 5, 0, 600, true, false, true),
        BoundsAction::ResizeOffscreen { logical_width: 1, logical_height: 300 }
    );
    assert_eq!(
        v.apply_physical_bounds(false, (0, 0), 5, 5, 10, 10, true, false, true),
        BoundsAction::NotifyHost
    );
    assert_eq!(
        v.apply_physical_bounds(false, (0, 0), 5, -5, 0, 10, true, true, true),
        BoundsAction::MoveResizeX11 { window: 12, x: 5, y: -5, width: 1, height: 10 }
    );
    assert_eq!(
        v.apply_physical_bounds(false, (0, 0), 5, 5, 10, 10, false, false, false),
        BoundsAction::Nothing
    );
}
