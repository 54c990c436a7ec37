//! The window cursor shown for the browser's cursor type.

use vstd::prelude::*;

verus! {

/// A cursor shape of the window system, after the CSS cursor names.
#[derive(Clone, Copy, Debug, PartialEq, Eq, Structural)]
pub enum CursorIcon {
    Default,
    ContextMenu,
    Help,
    Pointer,
    Progress,
    Wait,
    Cell,
    Crosshair,
    Text,
    VerticalText,
    Alias,
    Copy,
    Move,
    NoDrop,
    NotAllowed,
    Grab,
    Grabbing,
    EResize,
    NResize,
    NeResize,
    NwResize,
    SResize,
    SeResize,
    SwResize,
    WResize,
    EwResize,
    NsResize,
    NeswResize,
    NwseResize,
    ColResize,
    RowResize,
    AllScroll,
    ZoomIn,
    ZoomOut,
}

/// The window cursor for the browser's raw cursor type number.
pub open spec fn cursor_icon_for(raw: u32) -> CursorIcon {
    match raw {
        0 => CursorIcon::Default,
        1 => CursorIcon::Crosshair,
        2 => CursorIcon::Pointer,
        3 => CursorIcon::Text,
        4 => CursorIcon::Wait,
        5 => CursorIcon::Help,
        6 => CursorIcon::EResize,
        7 => CursorIcon::NResize,
        8 => CursorIcon::NeResize,
        9 => CursorIcon::NwResize,
        10 => CursorIcon::SResize,
        11 => CursorIcon::SeResize,
        12 => CursorIcon::SwResize,
        13 => CursorIcon::WResize,
        14 => CursorIcon::NsResize,
        15 => CursorIcon::EwResize,
        16 => CursorIcon::NeswResize,
        17 => CursorIcon::NwseResize,
        18 => CursorIcon::ColResize,
        19 => CursorIcon::RowResize,
        24 => CursorIcon::Move,
        25 => CursorIcon::VerticalText,
        26 => CursorIcon::Cell,
        27 => CursorIcon::ContextMenu,
        28 => CursorIcon::Alias,
        29 => CursorIcon::Progress,
        30 => CursorIcon::NoDrop,
        31 => CursorIcon::Copy,
        32 => CursorIcon::Default,
        33 => CursorIcon::NotAllowed,
        34 => CursorIcon::ZoomIn,
        35 => CursorIcon::ZoomOut,
        36 => CursorIcon::Grab,
        37 => CursorIcon::Grabbing,
        _ => CursorIcon::Default,
    }
}

/// Picks the window cursor for the browser's raw cursor type number; numbers
/// without a counterpart give the default arrow.
pub fn cef_cursor_to_winit(raw: u32) -> (r: CursorIcon)
    ensures
        r == cursor_icon_for(raw),
{
    match raw {
        0 => CursorIcon::Default,
        1 => CursorIcon::Crosshair,
        2 => CursorIcon::Pointer,
        3 => CursorIcon::Text,
        4 => CursorIcon::Wait,
        5 => CursorIcon::Help,
        6 => CursorIcon::EResize,
        7 => CursorIcon::NResize,
        8 => CursorIcon::NeResize,
        9 => CursorIcon::NwResize,
        10 => CursorIcon::SResize,
        11 => CursorIcon::SeResize,
        12 => CursorIcon::SwResize,
        13 => CursorIcon::WResize,
        14 => CursorIcon::NsResize,
        15 => CursorIcon::EwResize,
        16 => CursorIcon::NeswResize,
        17 => CursorIcon::NwseResize,
        18 => CursorIcon::ColResize,
        19 => CursorIcon::RowResize,
        24 => CursorIcon::Move,
        25 => CursorIcon::VerticalText,
        26 => CursorIcon::Cell,
        27 => CursorIcon::ContextMenu,
        28 => CursorIcon::Alias,
        29 => CursorIcon::Progress,
        30 => CursorIcon::NoDrop,
        31 => CursorIcon::Copy,
        32 => CursorIcon::Default,
        33 => CursorIcon::NotAllowed,
        34 => CursorIcon::ZoomIn,
        35 => CursorIcon::ZoomOut,
        36 => CursorIcon::Grab,
        37 => CursorIcon::Grabbing,
        _ => CursorIcon::Default,
    }
}

/// Every number past the last known cursor type shows the default arrow.
pub proof fn lemma_unknown_cursor_types_are_default(raw: u32)
    requires
        raw > 37 || (20 <= raw <= 23),
    ensures
        cursor_icon_for(raw) == CursorIcon::Default,
{
}

/// The cursor type number whose cursor is shown as `icon`, where there is one
/// (the default arrow stands for type 0).
pub open spec fn cursor_type_showing(icon: CursorIcon) -> Option<u32> {
    match icon {
        CursorIcon::Default => Some(0u32),
        CursorIcon::Crosshair => Some(1u32),
        CursorIcon::Pointer => Some(2u32),
        CursorIcon::Text => Some(3u32),
        CursorIcon::Wait => Some(4u32),
        CursorIcon::Help => Some(5u32),
        CursorIcon::EResize => Some(6u32),
        CursorIcon::NResize => Some(7u32),
        CursorIcon::NeResize => Some(8u32),
        CursorIcon::NwResize => Some(9u32),
        CursorIcon::SResize => Some(10u32),
        CursorIcon::SeResize => Some(11u32),
        CursorIcon::SwResize => Some(12u32),
        CursorIcon::WResize => Some(13u32),
        CursorIcon::NsResize => Some(14u32),
        CursorIcon::EwResize => Some(15u32),
        CursorIcon::NeswResize => Some(16u32),
        CursorIcon::NwseResize => Some(17u32),
        CursorIcon::ColResize => Some(18u32),
        CursorIcon::RowResize => Some(19u32),
        CursorIcon::Move => Some(24u32),
        CursorIcon::VerticalText => Some(25u32),
        CursorIcon::Cell => Some(26u32),
        CursorIcon::ContextMenu => Some(27u32),
        CursorIcon::Alias => Some(28u32),
        CursorIcon::Progress => Some(29u32),
        CursorIcon::NoDrop => Some(30u32),
        CursorIcon::Copy => Some(31u32),
        CursorIcon::NotAllowed => Some(33u32),
        CursorIcon::ZoomIn => Some(34u32),
        CursorIcon::ZoomOut => Some(35u32),
        CursorIcon::Grab => Some(36u32),
        CursorIcon::Grabbing => Some(37u32),
        _ => None,
    }
}

/// Each browser cursor type shows its own shape: 0 the arrow, 1 the crosshair,
/// 2 the hand, 3 the text beam, 6 to 13 the resize arrows east, north,
/// north-east, north-west, south, south-east, south-west and west, 14 north-south,
/// 15 east-west, 16 north-east/south-west, 17 north-west/south-east, 18 column
/// and 19 row resizing, and 24 to 37 move, vertical text, cell, context menu,
/// alias, progress, no-drop, copy, none (the arrow), not-allowed, zoom in,
/// zoom out, grab and grabbing.
pub proof fn lemma_cursor_shapes()
    ensures
        cursor_icon_for(0) == CursorIcon::Default,
        cursor_icon_for(1) == CursorIcon::Crosshair,
        cursor_icon_for(2) == CursorIcon::Pointer,
        cursor_icon_for(3) == CursorIcon::Text,
        cursor_icon_for(4) == CursorIcon::Wait,
        cursor_icon_for(5) == CursorIcon::Help,
        cursor_icon_for(6) == CursorIcon::EResize,
        cursor_icon_for(7) == CursorIcon::NResize,
        cursor_icon_for(8) == CursorIcon::NeResize,
        cursor_icon_for(9) == CursorIcon::NwResize,
        cursor_icon_for(10) == CursorIcon::SResize,
        cursor_icon_for(11) == CursorIcon::SeResize,
        cursor_icon_for(12) == CursorIcon::SwResize,
        cursor_icon_for(13) == CursorIcon::WResize,
        cursor_icon_for(14) == CursorIcon::NsResize,
        cursor_icon_for(15) == CursorIcon::EwResize,
        cursor_icon_for(16) == CursorIcon::NeswResize,
        cursor_icon_for(17) == CursorIcon::NwseResize,
        cursor_icon_for(18) == CursorIcon::ColResize,
        cursor_icon_for(19) == CursorIcon::RowResize,
        cursor_icon_for(24) == CursorIcon::Move,
        cursor_icon_for(25) == CursorIcon::VerticalText,
        cursor_icon_for(26) == CursorIcon::Cell,
        cursor_icon_for(27) == CursorIcon::ContextMenu,
        cursor_icon_for(28) == CursorIcon::Alias,
        cursor_icon_for(29) == CursorIcon::Progress,
        cursor_icon_for(30) == CursorIcon::NoDrop,
        cursor_icon_for(31) == CursorIcon::Copy,
        cursor_icon_for(32) == CursorIcon::Default,
        cursor_icon_for(33) == CursorIcon::NotAllowed,
        cursor_icon_for(34) == CursorIcon::ZoomIn,
        cursor_icon_for(35) == CursorIcon::ZoomOut,
        cursor_icon_for(36) == CursorIcon::Grab,
        cursor_icon_for(37) == CursorIcon::Grabbing,
{
}

/// A known cursor type other than 32 ("none", shown as the arrow) is told
/// apart by its shape.
pub proof fn lemma_cursor_shape_identifies_type(raw: u32)
    requires
        raw <= 19 || (24 <= raw <= 37),
        raw != 32,
    ensures
        cursor_type_showing(cursor_icon_for(raw)) == Some(raw),
{
}

/// Two different known cursor types show different shapes, except 0 and 32,
/// which both show the arrow.
pub proof fn lemma_cursor_shapes_distinct(a: u32, b: u32)
    requires
        a <= 19 || (24 <= a <= 37),
        b <= 19 || (24 <= b <= 37),
        a != b,
        !(a == 0 && b == 32),
        !(a == 32 && b == 0),
    ensures
        cursor_icon_for(a) != cursor_icon_for(b),
{
    if a != 32 && b != 32 {
        lemma_cursor_shape_identifies_type(a);
        lemma_cursor_shape_identifies_type(b);
    } else if a == 32 {
        lemma_cursor_shape_identifies_type(b);
    } else {
        lemma_cursor_shape_identifies_type(a);
    }
}

} // verus!
