//! Which call the browser host receives for a window input event.

use vstd::prelude::*;

use crate::keyboard::{
    build_key_event, key_event_for, modifier_flags, native_scan_code, winit_modifiers_to_cef,
    CefKeyEvent, KeyEventKind, KeyInput, ModifierKeys, EVENTFLAG_LEFT_MOUSE_BUTTON, EVENTFLAG_MIDDLE_MOUSE_BUTTON,
    EVENTFLAG_RIGHT_MOUSE_BUTTON,
};

verus! {

/// The source of a pointer button event.
#[derive(Clone, Copy, Debug, PartialEq, Eq, Structural)]
pub enum PointerButton {
    Left,
    Right,
    Middle,
    /// A touch contact, which the browser sees as the left button.
    Touch,
    /// Any other button (back, forward, pen buttons, ...).
    Other,
}

/// A window input event with its pointer positions already in whole pixels.
pub enum WindowInput {
    PointerMoved { x: i32, y: i32 },
    /// The pointer left the window; the position is the last one known, if any.
    PointerLeft { position: Option<(i32, i32)> },
    PointerButton { pressed: bool, x: i32, y: i32, button: PointerButton },
    /// A wheel turn, already scaled to pixels.
    MouseWheel { dx: i32, dy: i32 },
    Keyboard(KeyInput),
    Focused(bool),
    /// Any event the browser is not told about.
    Other,
}

/// The browser's mouse button numbering.
#[derive(Clone, Copy, Debug, PartialEq, Eq, Structural)]
pub enum MouseButtonKind {
    Left,
    Middle,
    Right,
}

/// A mouse event in the form the browser host takes it.
#[derive(Clone, Copy, Debug, PartialEq, Eq, Structural)]
pub struct CefMouseEvent {
    pub x: i32,
    pub y: i32,
    pub modifiers: u32,
}

/// A call on the browser host.
#[derive(Clone, Copy, Debug, PartialEq, Eq, Structural)]
pub enum HostCall {
    MouseMove { event: CefMouseEvent, mouse_leave: i32 },
    MouseClick { event: CefMouseEvent, button: MouseButtonKind, mouse_up: i32, click_count: i32 },
    MouseWheel { event: CefMouseEvent, delta_x: i32, delta_y: i32 },
    Key(CefKeyEvent),
    SetFocus(i32),
}

/// The browser button and the flag bit it holds, for the buttons the browser knows.
pub open spec fn button_mapping(button: PointerButton) -> Option<(MouseButtonKind, u32)> {
    match button {
        PointerButton::Left => Some((MouseButtonKind::Left, EVENTFLAG_LEFT_MOUSE_BUTTON)),
        PointerButton::Touch => Some((MouseButtonKind::Left, EVENTFLAG_LEFT_MOUSE_BUTTON)),
        PointerButton::Right => Some((MouseButtonKind::Right, EVENTFLAG_RIGHT_MOUSE_BUTTON)),
        PointerButton::Middle => Some((MouseButtonKind::Middle, EVENTFLAG_MIDDLE_MOUSE_BUTTON)),
        PointerButton::Other => None,
    }
}

/// The host call for a window event, `None` where the browser is not told.
pub open spec fn host_call_spec(event: &WindowInput, modifiers: ModifierKeys) -> Option<HostCall> {
    match event {
        WindowInput::PointerMoved { x, y } => Some(
            HostCall::MouseMove {
                event: CefMouseEvent { x: *x, y: *y, modifiers: modifier_flags(modifiers) },
                mouse_leave: 0,
            },
        ),
        WindowInput::PointerLeft { position } => {
            let (x, y) = match position {
                Some(p) => *p,
                None => (0i32, 0i32),
            };
            Some(
                HostCall::MouseMove {
                    event: CefMouseEvent { x, y, modifiers: modifier_flags(modifiers) },
                    mouse_leave: 1,
                },
            )
        },
        WindowInput::PointerButton { pressed, x, y, button } => match button_mapping(*button) {
            Some((kind, flag)) => Some(
                HostCall::MouseClick {
                    event: CefMouseEvent { x: *x, y: *y, modifiers: flag | modifier_flags(modifiers) },
                    button: kind,
                    mouse_up: if *pressed { 0 } else { 1 },
                    click_count: 1,
                },
            ),
            None => None,
        },
        WindowInput::MouseWheel { dx, dy } => Some(
            HostCall::MouseWheel {
                event: CefMouseEvent { x: 0, y: 0, modifiers: modifier_flags(modifiers) },
                delta_x: *dx,
                delta_y: *dy,
            },
        ),
        WindowInput::Keyboard(k) => Some(HostCall::Key(key_event_for(k, modifiers))),
        WindowInput::Focused(f) => Some(HostCall::SetFocus(if *f { 1 } else { 0 })),
        WindowInput::Other => None,
    }
}

/// A button event the browser hears of reports its button held, besides the
/// modifier keys, and is a release exactly when the button went up.
pub proof fn lemma_click_reports_button(event: &WindowInput, modifiers: ModifierKeys)
    requires
        host_call_spec(event, modifiers) matches Some(HostCall::MouseClick { .. }),
    ensures
        event matches WindowInput::PointerButton { pressed, button, .. } && ({
            let call = host_call_spec(event, modifiers)->Some_0;
            let flag = button_mapping(*button)->Some_0.1;
            &&& button_mapping(*button) is Some
            &&& call->MouseClick_event.modifiers & flag == flag
            &&& (call->mouse_up == 1 <==> !*pressed)
        }),
{
    match event {
        WindowInput::PointerButton { pressed, x, y, button } => {
            let flag = button_mapping(*button)->Some_0.1;
            let f = modifier_flags(modifiers);
            assert((flag | f) & flag == flag) by (bit_vector);
        },
        _ => {},
    }
}

/// Every keyboard event reaches the browser, pressed or released: as a key-down
/// for a press and a key-up for a release, with the key's scan code.
pub proof fn lemma_keyboard_events_always_sent(k: KeyInput, modifiers: ModifierKeys)
    ensures
        host_call_spec(&WindowInput::Keyboard(k), modifiers) matches Some(HostCall::Key(e)) && {
            &&& (e.kind == KeyEventKind::KeyUp <==> !k.pressed)
            &&& (e.kind == KeyEventKind::KeyDown <==> k.pressed)
            &&& e.windows_key_code == e.native_key_code
            &&& (k.code matches Some(c) ==> e.native_key_code == native_scan_code(c))
            &&& (k.code is None ==> e.native_key_code == 0)
        },
{
}

/// The browser hears of every event except those it has no use for (`Other`)
/// and buttons it does not know; pointer events keep their position, and the
/// wheel and focus events their values.
pub proof fn lemma_which_events_are_sent(event: &WindowInput, modifiers: ModifierKeys)
    ensures
        host_call_spec(event, modifiers) is None <==> (event is Other || event matches WindowInput::PointerButton { button: PointerButton::Other, .. }),
        event matches WindowInput::PointerMoved { x, y } ==> host_call_spec(event, modifiers) == Some(
            HostCall::MouseMove { event: CefMouseEvent { x: *x, y: *y, modifiers: modifier_flags(modifiers) }, mouse_leave: 0 },
        ),
        event matches WindowInput::PointerLeft { .. } ==> host_call_spec(event, modifiers) matches Some(HostCall::MouseMove { mouse_leave: 1, .. }),
        event matches WindowInput::MouseWheel { dx, dy } ==> (host_call_spec(event, modifiers) matches Some(HostCall::MouseWheel { delta_x, delta_y, .. }) && delta_x == *dx && delta_y == *dy),
        event matches WindowInput::Focused(f) ==> host_call_spec(event, modifiers) == Some(HostCall::SetFocus(if *f { 1i32 } else { 0i32 })),
{
}

/// A press or release of a known button reaches the browser once, at the
/// pointer's position, as a release exactly when the button went up; the left
/// button and touches are the browser's left button, right and middle their own.
pub proof fn lemma_button_events_sent(pressed: bool, x: i32, y: i32, button: PointerButton, modifiers: ModifierKeys)
    requires
        button != PointerButton::Other,
    ensures
        host_call_spec(&WindowInput::PointerButton { pressed, x, y, button }, modifiers) matches Some(
            HostCall::MouseClick { event: me, button: b, mouse_up, click_count },
        ) && me.x == x && me.y == y && click_count == 1 && (mouse_up == 0 <==> pressed) && (mouse_up
            == 1 <==> !pressed) && (b == MouseButtonKind::Left <==> (button == PointerButton::Left
            || button == PointerButton::Touch)) && (b == MouseButtonKind::Right <==> button
            == PointerButton::Right) && (b == MouseButtonKind::Middle <==> button
            == PointerButton::Middle),
{
}

/// Decides which call the browser host receives for a window event.
pub fn host_call_for(event: &WindowInput, modifiers: ModifierKeys) -> (r: Option<HostCall>)
    ensures
        r == host_call_spec(event, modifiers),
{
    proof {
        let f = modifier_flags(modifiers);
        assert(0u32 | f == f) by (bit_vector);
    }
    match event {
        WindowInput::PointerMoved { x, y } => {
            let me = CefMouseEvent { x: *x, y: *y, modifiers: winit_modifiers_to_cef(modifiers, 0) };
            Some(HostCall::MouseMove { event: me, mouse_leave: 0 })
        },
        WindowInput::PointerLeft { position } => {
            let (x, y) = match position {
                Some(p) => *p,
                None => (0, 0),
            };
            let me = CefMouseEvent { x, y, modifiers: winit_modifiers_to_cef(modifiers, 0) };
            Some(HostCall::MouseMove { event: me, mouse_leave: 1 })
        },
        WindowInput::PointerButton { pressed, x, y, button } => {
            let (kind, flag) = match button {
                PointerButton::Left | PointerButton::Touch => (
                    MouseButtonKind::Left,
                    EVENTFLAG_LEFT_MOUSE_BUTTON,
                ),
                PointerButton::Right => (MouseButtonKind::Right, EVENTFLAG_RIGHT_MOUSE_BUTTON),
                PointerButton::Middle => (MouseButtonKind::Middle, EVENTFLAG_MIDDLE_MOUSE_BUTTON),
                PointerButton::Other => {
                    return None;
                },
            };
            let me = CefMouseEvent { x: *x, y: *y, modifiers: winit_modifiers_to_cef(modifiers, flag) };
            let mouse_up: i32 = if *pressed { 0 } else { 1 };
            Some(HostCall::MouseClick { event: me, button: kind, mouse_up, click_count: 1 })
        },
        WindowInput::MouseWheel { dx, dy } => {
            let me = CefMouseEvent { x: 0, y: 0, modifiers: winit_modifiers_to_cef(modifiers, 0) };
            Some(HostCall::MouseWheel { event: me, delta_x: *dx, delta_y: *dy })
        },
        WindowInput::Keyboard(k) => Some(HostCall::Key(build_key_event(k, modifiers))),
        WindowInput::Focused(f) => Some(HostCall::SetFocus(if *f { 1 } else { 0 })),
        WindowInput::Other => None,
    }
}

} // verus!
