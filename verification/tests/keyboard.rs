use tauri_runtime_cef::keyboard::{
    build_key_event, char16_from_char, code_to_native, winit_modifiers_to_cef, CefKeyEvent,
    KeyCode, KeyEventKind, KeyInput, ModifierKeys, EVENTFLAG_ALT_DOWN, EVENTFLAG_COMMAND_DOWN,
    EVENTFLAG_CONTROL_DOWN, EVENTFLAG_IS_KEY_PAD, EVENTFLAG_IS_REPEAT,
    EVENTFLAG_LEFT_MOUSE_BUTTON, EVENTFLAG_SHIFT_DOWN,
};

fn no_mods() -> ModifierKeys {
    ModifierKeys { shift: false, control: false, alt: false, meta: false }
}

#[test]
fn scan_codes_of_common_keys() {
    assert_eq!(code_to_native(KeyCode::Escape), (1, 1, false));
    assert_eq!(code_to_native(KeyCode::Digit0), (11, 11, false));
    assert_eq!(code_to_native(KeyCode::KeyA), (30, 30, false));
    assert_eq!(code_to_native(KeyCode::Enter), (28, 28, false));
    assert_eq!(code_to_native(KeyCode::Space), (57, 57, false));
    assert_eq!(code_to_native(KeyCode::F12), (88, 88, false));
    assert_eq!(code_to_native(KeyCode::F13), (183, 183, false));
    assert_eq!(code_to_native(KeyCode::F24), (194, 194, false));
    assert_eq!(code_to_native(KeyCode::MetaLeft), (125, 125, false));
    assert_eq!(code_to_native(KeyCode::MediaPlay), (200, 200, false));
    assert_eq!(code_to_native(KeyCode::MediaSelect), (226, 226, false));
    assert_eq!(code_to_native(KeyCode::ArrowUp), (103, 103, false));
}

#[test]
fn keypad_keys_are_flagged() {
    assert_eq!(code_to_native(KeyCode::Numpad5), (76, 76, true));
    assert_eq!(code_to_native(KeyCode::Numpad0), (82, 82, true));
    assert_eq!(code_to_native(KeyCode::NumpadEnter), (96, 96, true));
    assert_eq!(code_to_native(KeyCode::NumpadDivide), (98, 98, true));
    assert_eq!(code_to_native(KeyCode::NumLock), (69, 69, true));
    assert_eq!(code_to_native(KeyCode::NumpadMultiply), (55, 55, true));
}

#[test]
fn keys_without_scan_code_give_zero() {
    assert_eq!(code_to_native(KeyCode::F25), (0, 0, false));
    assert_eq!(code_to_native(KeyCode::NumpadEqual), (0, 0, false));
    assert_eq!(code_to_native(KeyCode::MediaPlayPause), (0, 0, false));
    assert_eq!(code_to_native(KeyCode::BrowserBack), (0, 0, false));
}

#[test]
fn two_keys_share_scan_code_97() {
    assert_eq!(code_to_native(KeyCode::IntlRo), (97, 97, false));
    assert_eq!(code_to_native(KeyCode::ControlRight), (97, 97, false));
}

#[test]
fn modifier_flags_add_to_button_flag() {
    assert_eq!(winit_modifiers_to_cef(no_mods(), 0), 0);
    let sc = ModifierKeys { shift: true, control: true, alt: false, meta: false };
    assert_eq!(winit_modifiers_to_cef(sc, 0), EVENTFLAG_SHIFT_DOWN | EVENTFLAG_CONTROL_DOWN);
    assert_eq!(winit_modifiers_to_cef(sc, 0), 6);
    let all = ModifierKeys { shift: true, control: true, alt: true, meta: true };
    assert_eq!(winit_modifiers_to_cef(all, 0), 142);
    let alt = ModifierKeys { shift: false, control: false, alt: true, meta: false };
    assert_eq!(
        winit_modifiers_to_cef(alt, EVENTFLAG_LEFT_MOUSE_BUTTON),
        EVENTFLAG_LEFT_MOUSE_BUTTON | EVENTFLAG_ALT_DOWN
    );
    let meta = ModifierKeys { shift: false, control: false, alt: false, meta: true };
    assert_eq!(winit_modifiers_to_cef(meta, 2), EVENTFLAG_COMMAND_DOWN | 2);
}

#[test]
fn first_utf16_unit() {
    assert_eq!(char16_from_char('a'), 97);
    assert_eq!(char16_from_char('\0'), 0);
    assert_eq!(char16_from_char('é'), 0xE9);
    assert_eq!(char16_from_char('\u{FFFF}'), 0xFFFF);
    assert_eq!(char16_from_char('\u{10000}'), 0xD800);
    assert_eq!(char16_from_char('😀'), 0xD83D);
    assert_eq!(char16_from_char('\u{10FFFF}'), 0xDBFF);
    for c in ['x', '€', '𝄞', '\u{1F600}'] {
        let mut buf = [0u16; 2];
        assert_eq!(char16_from_char(c), c.encode_utf16(&mut buf)[0]);
    }
}

#[test]
fn key_press_with_text() {
    let e = KeyInput {
        code: Some(KeyCode::KeyA),
        pressed: true,
        text: Some("a".to_string()),
        unmodified_text: Some("a".to_string()),
        repeat: false,
    };
    assert_eq!(
        build_key_event(&e, no_mods()),
        CefKeyEvent {
            kind: KeyEventKind::KeyDown,
            modifiers: 0,
            windows_key_code: 30,
            native_key_code: 30,
            is_system_key: 0,
            character: 97,
            unmodified_character: 97,
            focus_on_editable_field: 0,
        }
    );
}

#[test]
fn keypad_repeat_release_with_shift() {
    let e = KeyInput {
        code: Some(KeyCode::Numpad1),
        pressed: false,
        text: Some("1x".to_string()),
        unmodified_text: None,
        repeat: true,
    };
    let shift = ModifierKeys { shift: true, control: false, alt: false, meta: false };
    let k = build_key_event(&e, shift);
    assert_eq!(k.kind, KeyEventKind::KeyUp);
    assert_eq!(k.modifiers, EVENTFLAG_SHIFT_DOWN | EVENTFLAG_IS_KEY_PAD | EVENTFLAG_IS_REPEAT);
    assert_eq!(k.windows_key_code, 79);
    assert_eq!(k.native_key_code, 79);
    assert_eq!(k.character, '1' as u16);
    assert_eq!(k.unmodified_character, 0);
}

#[test]
fn unidentified_key_without_text() {
    let e = KeyInput {
        code: None,
        pressed: true,
        text: Some(String::new()),
        unmodified_text: None,
        repeat: false,
    };
    let k = build_key_event(&e, no_mods());
    assert_eq!(k.windows_key_code, 0);
    assert_eq!(k.native_key_code, 0);
    assert_eq!(k.character, 0);
    assert_eq!(k.unmodified_character, 0);
    assert_eq!(k.modifiers, 0);
}

#[test]
fn key_text_outside_basic_plane() {
    let e = KeyInput {
        code: Some(KeyCode::KeyQ),
        pressed: true,
        text: Some("😀!".to_string()),
        unmodified_text: Some("q".to_string()),
        repeat: false,
    };
    let k = build_key_event(&e, no_mods());
    assert_eq!(k.character, 0xD83D);
    assert_eq!(k.unmodified_character, 'q' as u16);
    assert_eq!(k.native_key_code, 16);
}
