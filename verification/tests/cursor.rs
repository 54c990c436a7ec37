use tauri_runtime_cef::cursor::{cef_cursor_to_winit, CursorIcon};

#[test]
fn known_cursor_types() {
    assert_eq!(cef_cursor_to_winit(0), CursorIcon::Default);
    assert_eq!(cef_cursor_to_winit(1), CursorIcon::Crosshair);
    assert_eq!(cef_cursor_to_winit(2), CursorIcon::Pointer);
    assert_eq!(cef_cursor_to_winit(3), CursorIcon::Text);
    assert_eq!(cef_cursor_to_winit(15), CursorIcon::EwResize);
    assert_eq!(cef_cursor_to_winit(19), CursorIcon::RowResize);
    assert_eq!(cef_cursor_to_winit(24), CursorIcon::Move);
    assert_eq!(cef_cursor_to_winit(31), CursorIcon::Copy);
    assert_eq!(cef_cursor_to_winit(32), CursorIcon::Default);
    assert_eq!(cef_cursor_to_winit(33), CursorIcon::NotAllowed);
    assert_eq!(cef_cursor_to_winit(37), CursorIcon::Grabbing);
}

#[test]
fn unknown_cursor_types_are_default() {
    for raw in [20u32, 21, 22, 23, 38, 45, 1000, u32::MAX] {
        assert_eq!(cef_cursor_to_winit(raw), CursorIcon::Default);
    }
}
