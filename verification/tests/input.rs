use tauri_runtime_cef::input::{
    host_call_for, CefMouseEvent, HostCall, MouseButtonKind, PointerButton, WindowInput,
};
use tauri_runtime_cef::keyboard::{KeyCode, KeyEventKind, KeyInput, ModifierKeys};

fn mods(shift: bool, control: bool) -> ModifierKeys {
    ModifierKeys { shift, control, alt: false, meta: false }
}

#[test]
fn pointer_move_carries_position_and_modifiers() {
    let r = host_call_for(&WindowInput::PointerMoved { x: 10, y: -3 }, mods(true, false));
    assert_eq!(
        r,
        Some(HostCall::MouseMove {
            event: CefMouseEvent { x: 10, y: -3, modifiers: 2 },
            mouse_leave: 0
        })
    );
}

#[test]
fn pointer_leave_uses_origin_without_position() {
    let r = host_call_for(&WindowInput::PointerLeft { position: None }, mods(false, false));
    assert_eq!(
        r,
        Some(HostCall::MouseMove {
            event: CefMouseEvent { x: 0, y: 0, modifiers: 0 },
            mouse_leave: 1
        })
    );
    let r = host_call_for(
        &WindowInput::PointerLeft { position: Some((5, 6)) },
        mods(false, true),
    );
    assert_eq!(
        r,
        Some(HostCall::MouseMove {
            event: CefMouseEvent { x: 5, y: 6, modifiers: 4 },
            mouse_leave: 1
        })
    );
}

#[test]
fn button_events_map_buttons_and_flags() {
    let m = mods(false, false);
    let press = |button| WindowInput::PointerButton { pressed: true, x: 1, y: 2, button };
    assert_eq!(
        host_call_for(&press(PointerButton::Left), m),
        Some(HostCall::MouseClick {
            event: CefMouseEvent { x: 1, y: 2, modifiers: 16 },
            button: MouseButtonKind::Left,
            mouse_up: 0,
            click_count: 1
        })
    );
    assert_eq!(
        host_call_for(&press(PointerButton::Touch), m),
        Some(HostCall::MouseClick {
            event: CefMouseEvent { x: 1, y: 2, modifiers: 16 },
            button: MouseButtonKind::Left,
            mouse_up: 0,
            click_count: 1
        })
    );
    assert_eq!(
        host_call_for(&press(PointerButton::Middle), m),
        Some(HostCall::MouseClick {
            event: CefMouseEvent { x: 1, y: 2, modifiers: 32 },
            button: MouseButtonKind::Middle,
            mouse_up: 0,
            click_count: 1
        })
    );
    let release =
        WindowInput::PointerButton { pressed: false, x: 7, y: 8, button: PointerButton::Right };
    assert_eq!(
        host_call_for(&release, mods(true, true)),
        Some(HostCall::MouseClick {
            event: CefMouseEvent { x: 7, y: 8, modifiers: 64 | 2 | 4 },
            button: MouseButtonKind::Right,
            mouse_up: 1,
            click_count: 1
        })
    );
    assert_eq!(host_call_for(&press(PointerButton::Other), m), None);
}

#[test]
fn wheel_is_sent_at_origin() {
    let r = host_call_for(&WindowInput::MouseWheel { dx: -100, dy: 300 }, mods(false, true));
    assert_eq!(
        r,
        Some(HostCall::MouseWheel {
            event: CefMouseEvent { x: 0, y: 0, modifiers: 4 },
            delta_x: -100,
            delta_y: 300
        })
    );
}

#[test]
fn focus_and_other_events() {
    assert_eq!(
        host_call_for(&WindowInput::Focused(true), mods(false, false)),
        Some(HostCall::SetFocus(1))
    );
    assert_eq!(
        host_call_for(&WindowInput::Focused(false), mods(false, false)),
        Some(HostCall::SetFocus(0))
    );
    assert_eq!(host_call_for(&WindowInput::Other, mods(true, true)), None);
}

#[test]
fn keyboard_event_is_forwarded() {
    let k = KeyInput {
        code: Some(KeyCode::KeyZ),
        pressed: true,
        text: Some("Z".to_string()),
        unmodified_text: Some("z".to_string()),
        repeat: false,
    };
    match host_call_for(&WindowInput::Keyboard(k), mods(true, false)) {
        Some(HostCall::Key(e)) => {
            assert_eq!(e.kind, KeyEventKind::KeyDown);
            assert_eq!(e.native_key_code, 44);
            assert_eq!(e.modifiers, 2);
            assert_eq!(e.character, 'Z' as u16);
            assert_eq!(e.unmodified_character, 'z' as u16);
        }
        other => panic!("unexpected {:?}", other),
    }
}
