//! From what the scene asks to what the host takes.

use vstd::prelude::*;
use crate::native::{
    CursorIcon, ResizeDirection, Theme, WindowButtons, WindowLevel as NativeWindowLevel, CLOSE,
    MAXIMIZE, MINIMIZE,
};
use crate::window::{CompassOctant, EnabledButtons, SystemCursorIcon, WindowLevel, WindowTheme};

verus! {

/// The host's cursor shape for a cursor shape of the scene.
pub open spec fn cursor_icon_of(cursor_icon: SystemCursorIcon) -> CursorIcon {
    match cursor_icon {
        SystemCursorIcon::Default => CursorIcon::Default,
        SystemCursorIcon::ContextMenu => CursorIcon::ContextMenu,
        SystemCursorIcon::Help => CursorIcon::Help,
        SystemCursorIcon::Pointer => CursorIcon::Pointer,
        SystemCursorIcon::Progress => CursorIcon::Progress,
        SystemCursorIcon::Wait => CursorIcon::Wait,
        SystemCursorIcon::Cell => CursorIcon::Cell,
        SystemCursorIcon::Crosshair => CursorIcon::Crosshair,
        SystemCursorIcon::Text => CursorIcon::Text,
        SystemCursorIcon::VerticalText => CursorIcon::VerticalText,
        SystemCursorIcon::Alias => CursorIcon::Alias,
        SystemCursorIcon::Copy => CursorIcon::Copy,
        SystemCursorIcon::Move => CursorIcon::Move,
        SystemCursorIcon::NoDrop => CursorIcon::NoDrop,
        SystemCursorIcon::NotAllowed => CursorIcon::NotAllowed,
        SystemCursorIcon::Grab => CursorIcon::Grab,
        SystemCursorIcon::Grabbing => CursorIcon::Grabbing,
        SystemCursorIcon::EResize => CursorIcon::EResize,
        SystemCursorIcon::NResize => CursorIcon::NResize,
        SystemCursorIcon::NeResize => CursorIcon::NeResize,
        SystemCursorIcon::NwResize => CursorIcon::NwResize,
        SystemCursorIcon::SResize => CursorIcon::SResize,
        SystemCursorIcon::SeResize => CursorIcon::SeResize,
        SystemCursorIcon::SwResize => CursorIcon::SwResize,
        SystemCursorIcon::WResize => CursorIcon::WResize,
        SystemCursorIcon::EwResize => CursorIcon::EwResize,
        SystemCursorIcon::NsResize => CursorIcon::NsResize,
        SystemCursorIcon::NeswResize => CursorIcon::NeswResize,
        SystemCursorIcon::NwseResize => CursorIcon::NwseResize,
        SystemCursorIcon::ColResize => CursorIcon::ColResize,
        SystemCursorIcon::RowResize => CursorIcon::RowResize,
        SystemCursorIcon::AllScroll => CursorIcon::AllScroll,
        SystemCursorIcon::ZoomIn => CursorIcon::ZoomIn,
        SystemCursorIcon::ZoomOut => CursorIcon::ZoomOut,
    }
}

/// The host's stacking level for a stacking level of the scene.
pub open spec fn window_level_of(window_level: WindowLevel) -> NativeWindowLevel {
    match window_level {
        WindowLevel::AlwaysOnBottom => NativeWindowLevel::AlwaysOnBottom,
        WindowLevel::Normal => NativeWindowLevel::Normal,
        WindowLevel::AlwaysOnTop => NativeWindowLevel::AlwaysOnTop,
    }
}

/// The scene's theme for a theme of the host.
pub open spec fn window_theme_of(theme: Theme) -> WindowTheme {
    match theme {
        Theme::Light => WindowTheme::Light,
        Theme::Dark => WindowTheme::Dark,
    }
}

/// The host's theme for a theme of the scene.
pub open spec fn theme_of(theme: WindowTheme) -> Theme {
    match theme {
        WindowTheme::Light => Theme::Light,
        WindowTheme::Dark => Theme::Dark,
    }
}

/// The bits of the buttons that are enabled: each enabled button adds its own
/// bit, and no other bit is set.
pub open spec fn button_bits(enabled_buttons: EnabledButtons) -> u32 {
    ((if enabled_buttons.minimize {
        MINIMIZE
    } else {
        0u32
    }) + (if enabled_buttons.maximize {
        MAXIMIZE
    } else {
        0u32
    }) + (if enabled_buttons.close {
        CLOSE
    } else {
        0u32
    })) as u32
}

/// The host's resize direction for a direction of the compass.
pub open spec fn resize_direction_of(resize_direction: CompassOctant) -> ResizeDirection {
    match resize_direction {
        CompassOctant::West => ResizeDirection::West,
        CompassOctant::North => ResizeDirection::North,
        CompassOctant::East => ResizeDirection::East,
        CompassOctant::South => ResizeDirection::South,
        CompassOctant::NorthWest => ResizeDirection::NorthWest,
        CompassOctant::NorthEast => ResizeDirection::NorthEast,
        CompassOctant::SouthWest => ResizeDirection::SouthWest,
        CompassOctant::SouthEast => ResizeDirection::SouthEast,
    }
}

/// Converts a cursor shape of the scene to the host's.
pub fn convert_system_cursor_icon(cursor_icon: SystemCursorIcon) -> (icon: CursorIcon)
    ensures
        icon == cursor_icon_of(cursor_icon),
{
    match cursor_icon {
        SystemCursorIcon::ContextMenu => CursorIcon::ContextMenu,
        SystemCursorIcon::Help => CursorIcon::Help,
        SystemCursorIcon::Pointer => CursorIcon::Pointer,
        SystemCursorIcon::Progress => CursorIcon::Progress,
        SystemCursorIcon::Wait => CursorIcon::Wait,
        SystemCursorIcon::Cell => CursorIcon::Cell,
        SystemCursorIcon::Crosshair => CursorIcon::Crosshair,
        SystemCursorIcon::Text => CursorIcon::Text,
        SystemCursorIcon::VerticalText => CursorIcon::VerticalText,
        SystemCursorIcon::Alias => CursorIcon::Alias,
        SystemCursorIcon::Copy => CursorIcon::Copy,
        SystemCursorIcon::Move => CursorIcon::Move,
        SystemCursorIcon::NoDrop => CursorIcon::NoDrop,
        SystemCursorIcon::NotAllowed => CursorIcon::NotAllowed,
        SystemCursorIcon::Grab => CursorIcon::Grab,
        SystemCursorIcon::Grabbing => CursorIcon::Grabbing,
        SystemCursorIcon::EResize => CursorIcon::EResize,
        SystemCursorIcon::NResize => CursorIcon::NResize,
        SystemCursorIcon::NeResize => CursorIcon::NeResize,
        SystemCursorIcon::NwResize => CursorIcon::NwResize,
        SystemCursorIcon::SResize => CursorIcon::SResize,
        SystemCursorIcon::SeResize => CursorIcon::SeResize,
        SystemCursorIcon::SwResize => CursorIcon::SwResize,
        SystemCursorIcon::WResize => CursorIcon::WResize,
        SystemCursorIcon::EwResize => CursorIcon::EwResize,
        SystemCursorIcon::NsResize => CursorIcon::NsResize,
        SystemCursorIcon::NeswResize => CursorIcon::NeswResize,
        SystemCursorIcon::NwseResize => CursorIcon::NwseResize,
        SystemCursorIcon::ColResize => CursorIcon::ColResize,
        SystemCursorIcon::RowResize => CursorIcon::RowResize,
        SystemCursorIcon::AllScroll => CursorIcon::AllScroll,
        SystemCursorIcon::ZoomIn => CursorIcon::ZoomIn,
        SystemCursorIcon::ZoomOut => CursorIcon::ZoomOut,
        _ => CursorIcon::Default,
    }
}

/// Converts a stacking level of the scene to the host's.
pub fn convert_window_level(window_level: WindowLevel) -> (level: NativeWindowLevel)
    ensures
        level == window_level_of(window_level),
{
    match window_level {
        WindowLevel::AlwaysOnBottom => NativeWindowLevel::AlwaysOnBottom,
        WindowLevel::Normal => NativeWindowLevel::Normal,
        WindowLevel::AlwaysOnTop => NativeWindowLevel::AlwaysOnTop,
    }
}

/// Converts a theme of the host to the scene's.
pub fn convert_winit_theme(theme: Theme) -> (window_theme: WindowTheme)
    ensures
        window_theme == window_theme_of(theme),
{
    match theme {
        Theme::Light => WindowTheme::Light,
        Theme::Dark => WindowTheme::Dark,
    }
}

/// Converts a theme of the scene to the host's.
pub fn convert_window_theme(theme: WindowTheme) -> (native: Theme)
    ensures
        native == theme_of(theme),
{
    match theme {
        WindowTheme::Light => Theme::Light,
        WindowTheme::Dark => Theme::Dark,
    }
}

/// Converts the enabled buttons of the scene to the host's set of buttons.
pub fn convert_enabled_buttons(enabled_buttons: EnabledButtons) -> (window_buttons: WindowButtons)
    ensures
        window_buttons.bits == button_bits(enabled_buttons),
        window_buttons.has(MINIMIZE) == enabled_buttons.minimize,
        window_buttons.has(MAXIMIZE) == enabled_buttons.maximize,
        window_buttons.has(CLOSE) == enabled_buttons.close,
{
    let mut window_buttons = WindowButtons::empty();
    if enabled_buttons.minimize {
        window_buttons.insert(MINIMIZE);
    }
    if enabled_buttons.maximize {
        window_buttons.insert(MAXIMIZE);
    }
    if enabled_buttons.close {
        window_buttons.insert(CLOSE);
    }
    proof {
        lemma_button_bits(enabled_buttons);
        assert(0u32 | 2u32 == 2u32) by (bit_vector);
        assert(0u32 | 4u32 == 4u32) by (bit_vector);
        assert(0u32 | 1u32 == 1u32) by (bit_vector);
        assert(2u32 | 4u32 == 6u32) by (bit_vector);
        assert(2u32 | 1u32 == 3u32) by (bit_vector);
        assert(4u32 | 1u32 == 5u32) by (bit_vector);
        assert(6u32 | 1u32 == 7u32) by (bit_vector);
    }
    window_buttons
}

/// Converts a direction of the compass to the host's resize direction.
pub fn convert_resize_direction(resize_direction: CompassOctant) -> (direction: ResizeDirection)
    ensures
        direction == resize_direction_of(resize_direction),
{
    match resize_direction {
        CompassOctant::West => ResizeDirection::West,
        CompassOctant::North => ResizeDirection::North,
        CompassOctant::East => ResizeDirection::East,
        CompassOctant::South => ResizeDirection::South,
        CompassOctant::NorthWest => ResizeDirection::NorthWest,
        CompassOctant::NorthEast => ResizeDirection::NorthEast,
        CompassOctant::SouthWest => ResizeDirection::SouthWest,
        CompassOctant::SouthEast => ResizeDirection::SouthEast,
    }
}

/// A set of buttons holds a button exactly when the button is enabled.
pub proof fn lemma_button_bits(enabled_buttons: EnabledButtons)
    ensures
        button_bits(enabled_buttons) <= 7,
        (WindowButtons { bits: button_bits(enabled_buttons) }).has(MINIMIZE)
            == enabled_buttons.minimize,
        (WindowButtons { bits: button_bits(enabled_buttons) }).has(MAXIMIZE)
            == enabled_buttons.maximize,
        (WindowButtons { bits: button_bits(enabled_buttons) }).has(CLOSE) == enabled_buttons.close,
{
    let bits = button_bits(enabled_buttons);
    assert(bits <= 7 ==> ((bits & 2 == 2) <==> (bits == 2 || bits == 3 || bits == 6 || bits == 7)))
        by (bit_vector);
    assert(bits <= 7 ==> ((bits & 4 == 4) <==> (bits == 4 || bits == 5 || bits == 6 || bits == 7)))
        by (bit_vector);
    assert(bits <= 7 ==> ((bits & 1 == 1) <==> (bits == 1 || bits == 3 || bits == 5 || bits == 7)))
        by (bit_vector);
}

/// The two theme conversions undo each other.
pub proof fn lemma_theme_round_trip(theme: WindowTheme, native: Theme)
    ensures
        window_theme_of(theme_of(theme)) == theme,
        theme_of(window_theme_of(native)) == native,
{
}

/// Different cursor shapes of the scene are different cursor shapes of the
/// host.
pub proof fn lemma_cursor_icons_stay_apart(a: SystemCursorIcon, b: SystemCursorIcon)
    ensures
        cursor_icon_of(a) == cursor_icon_of(b) <==> a == b,
{
}

/// Different stacking levels stay different, and so do different directions.
pub proof fn lemma_levels_and_directions_stay_apart(
    a: WindowLevel,
    b: WindowLevel,
    c: CompassOctant,
    d: CompassOctant,
)
    ensures
        window_level_of(a) == window_level_of(b) <==> a == b,
        resize_direction_of(c) == resize_direction_of(d) <==> c == d,
{
}

} // verus!
