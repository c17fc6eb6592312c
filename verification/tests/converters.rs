use bevy_wallpaper::converters::{
    convert_enabled_buttons, convert_resize_direction, convert_system_cursor_icon,
    convert_window_level, convert_window_theme, convert_winit_theme,
};
use bevy_wallpaper::native::{
    CursorIcon, ResizeDirection, Theme, WindowButtons, WindowLevel as NativeWindowLevel, CLOSE,
    MAXIMIZE, MINIMIZE,
};
use bevy_wallpaper::window::{
    CompassOctant, EnabledButtons, SystemCursorIcon, WindowLevel, WindowTheme,
};

fn buttons(minimize: bool, maximize: bool, close: bool) -> EnabledButtons {
    EnabledButtons { minimize, maximize, close }
}

#[test]
fn every_cursor_icon_keeps_its_shape() {
    let pairs = [
        (SystemCursorIcon::Default, CursorIcon::Default),
        (SystemCursorIcon::ContextMenu, CursorIcon::ContextMenu),
        (SystemCursorIcon::Help, CursorIcon::Help),
        (SystemCursorIcon::Pointer, CursorIcon::Pointer),
        (SystemCursorIcon::Progress, CursorIcon::Progress),
        (SystemCursorIcon::Wait, CursorIcon::Wait),
        (SystemCursorIcon::Cell, CursorIcon::Cell),
        (SystemCursorIcon::Crosshair, CursorIcon::Crosshair),
        (SystemCursorIcon::Text, CursorIcon::Text),
        (SystemCursorIcon::VerticalText, CursorIcon::VerticalText),
        (SystemCursorIcon::Alias, CursorIcon::Alias),
        (SystemCursorIcon::Copy, CursorIcon::Copy),
        (SystemCursorIcon::Move, CursorIcon::Move),
        (SystemCursorIcon::NoDrop, CursorIcon::NoDrop),
        (SystemCursorIcon::NotAllowed, CursorIcon::NotAllowed),
        (SystemCursorIcon::Grab, CursorIcon::Grab),
        (SystemCursorIcon::Grabbing, CursorIcon::Grabbing),
        (SystemCursorIcon::EResize, CursorIcon::EResize),
        (SystemCursorIcon::NResize, CursorIcon::NResize),
        (SystemCursorIcon::NeResize, CursorIcon::NeResize),
        (SystemCursorIcon::NwResize, CursorIcon::NwResize),
        (SystemCursorIcon::SResize, CursorIcon::SResize),
        (SystemCursorIcon::SeResize, CursorIcon::SeResize),
        (SystemCursorIcon::SwResize, CursorIcon::SwResize),
        (SystemCursorIcon::WResize, CursorIcon::WResize),
        (SystemCursorIcon::EwResize, CursorIcon::EwResize),
        (SystemCursorIcon::NsResize, CursorIcon::NsResize),
        (SystemCursorIcon::NeswResize, CursorIcon::NeswResize),
        (SystemCursorIcon::NwseResize, CursorIcon::NwseResize),
        (SystemCursorIcon::ColResize, CursorIcon::ColResize),
        (SystemCursorIcon::RowResize, CursorIcon::RowResize),
        (SystemCursorIcon::AllScroll, CursorIcon::AllScroll),
        (SystemCursorIcon::ZoomIn, CursorIcon::ZoomIn),
        (SystemCursorIcon::ZoomOut, CursorIcon::ZoomOut),
    ];
    assert_eq!(pairs.len(), 34);
    for (scene, host) in pairs {
        assert_eq!(convert_system_cursor_icon(scene), host);
    }
}

#[test]
fn cursor_icons_stay_apart() {
    let scene = [
        SystemCursorIcon::Default,
        SystemCursorIcon::ContextMenu,
        SystemCursorIcon::Help,
        SystemCursorIcon::Pointer,
        SystemCursorIcon::Progress,
        SystemCursorIcon::Wait,
        SystemCursorIcon::Cell,
        SystemCursorIcon::Crosshair,
        SystemCursorIcon::Text,
        SystemCursorIcon::VerticalText,
        SystemCursorIcon::Alias,
        SystemCursorIcon::Copy,
        SystemCursorIcon::Move,
        SystemCursorIcon::NoDrop,
        SystemCursorIcon::NotAllowed,
        SystemCursorIcon::Grab,
        SystemCursorIcon::Grabbing,
        SystemCursorIcon::EResize,
        SystemCursorIcon::NResize,
        SystemCursorIcon::NeResize,
        SystemCursorIcon::NwResize,
        SystemCursorIcon::SResize,
        SystemCursorIcon::SeResize,
        SystemCursorIcon::SwResize,
        SystemCursorIcon::WResize,
        SystemCursorIcon::EwResize,
        SystemCursorIcon::NsResize,
        SystemCursorIcon::NeswResize,
        SystemCursorIcon::NwseResize,
        SystemCursorIcon::ColResize,
        SystemCursorIcon::RowResize,
        SystemCursorIcon::AllScroll,
        SystemCursorIcon::ZoomIn,
        SystemCursorIcon::ZoomOut,
    ];
    for (i, a) in scene.iter().enumerate() {
        for (j, b) in scene.iter().enumerate() {
            assert_eq!(
                convert_system_cursor_icon(*a) == convert_system_cursor_icon(*b),
                i == j
            );
        }
    }
}

#[test]
fn cursor_icons_are_named_as_the_host_names_them() {
    let pairs = [
        (CursorIcon::Default, winit::window::CursorIcon::Default),
        (CursorIcon::ContextMenu, winit::window::CursorIcon::ContextMenu),
        (CursorIcon::Help, winit::window::CursorIcon::Help),
        (CursorIcon::Pointer, winit::window::CursorIcon::Pointer),
        (CursorIcon::Progress, winit::window::CursorIcon::Progress),
        (CursorIcon::Wait, winit::window::CursorIcon::Wait),
        (CursorIcon::Cell, winit::window::CursorIcon::Cell),
        (CursorIcon::Crosshair, winit::window::CursorIcon::Crosshair),
        (CursorIcon::Text, winit::window::CursorIcon::Text),
        (CursorIcon::VerticalText, winit::window::CursorIcon::VerticalText),
        (CursorIcon::Alias, winit::window::CursorIcon::Alias),
        (CursorIcon::Copy, winit::window::CursorIcon::Copy),
        (CursorIcon::Move, winit::window::CursorIcon::Move),
        (CursorIcon::NoDrop, winit::window::CursorIcon::NoDrop),
        (CursorIcon::NotAllowed, winit::window::CursorIcon::NotAllowed),
        (CursorIcon::Grab, winit::window::CursorIcon::Grab),
        (CursorIcon::Grabbing, winit::window::CursorIcon::Grabbing),
        (CursorIcon::EResize, winit::window::CursorIcon::EResize),
        (CursorIcon::NResize, winit::window::CursorIcon::NResize),
        (CursorIcon::NeResize, winit::window::CursorIcon::NeResize),
        (CursorIcon::NwResize, winit::window::CursorIcon::NwResize),
        (CursorIcon::SResize, winit::window::CursorIcon::SResize),
        (CursorIcon::SeResize, winit::window::CursorIcon::SeResize),
        (CursorIcon::SwResize, winit::window::CursorIcon::SwResize),
        (CursorIcon::WResize, winit::window::CursorIcon::WResize),
        (CursorIcon::EwResize, winit::window::CursorIcon::EwResize),
        (CursorIcon::NsResize, winit::window::CursorIcon::NsResize),
        (CursorIcon::NeswResize, winit::window::CursorIcon::NeswResize),
        (CursorIcon::NwseResize, winit::window::CursorIcon::NwseResize),
        (CursorIcon::ColResize, winit::window::CursorIcon::ColResize),
        (CursorIcon::RowResize, winit::window::CursorIcon::RowResize),
        (CursorIcon::AllScroll, winit::window::CursorIcon::AllScroll),
        (CursorIcon::ZoomIn, winit::window::CursorIcon::ZoomIn),
        (CursorIcon::ZoomOut, winit::window::CursorIcon::ZoomOut),
    ];
    for (ours, theirs) in pairs {
        assert_eq!(format!("{ours:?}"), format!("{theirs:?}"));
    }
}

#[test]
fn scene_cursor_icons_are_named_as_the_engine_names_them() {
    let pairs = [
        (SystemCursorIcon::Default, bevy_window::SystemCursorIcon::Default),
        (SystemCursorIcon::ContextMenu, bevy_window::SystemCursorIcon::ContextMenu),
        (SystemCursorIcon::Help, bevy_window::SystemCursorIcon::Help),
        (SystemCursorIcon::Pointer, bevy_window::SystemCursorIcon::Pointer),
        (SystemCursorIcon::Progress, bevy_window::SystemCursorIcon::Progress),
        (SystemCursorIcon::Wait, bevy_window::SystemCursorIcon::Wait),
        (SystemCursorIcon::Cell, bevy_window::SystemCursorIcon::Cell),
        (SystemCursorIcon::Crosshair, bevy_window::SystemCursorIcon::Crosshair),
        (SystemCursorIcon::Text, bevy_window::SystemCursorIcon::Text),
        (SystemCursorIcon::VerticalText, bevy_window::SystemCursorIcon::VerticalText),
        (SystemCursorIcon::Alias, bevy_window::SystemCursorIcon::Alias),
        (SystemCursorIcon::Copy, bevy_window::SystemCursorIcon::Copy),
        (SystemCursorIcon::Move, bevy_window::SystemCursorIcon::Move),
        (SystemCursorIcon::NoDrop, bevy_window::SystemCursorIcon::NoDrop),
        (SystemCursorIcon::NotAllowed, bevy_window::SystemCursorIcon::NotAllowed),
        (SystemCursorIcon::Grab, bevy_window::SystemCursorIcon::Grab),
        (SystemCursorIcon::Grabbing, bevy_window::SystemCursorIcon::Grabbing),
        (SystemCursorIcon::EResize, bevy_window::SystemCursorIcon::EResize),
        (SystemCursorIcon::NResize, bevy_window::SystemCursorIcon::NResize),
        (SystemCursorIcon::NeResize, bevy_window::SystemCursorIcon::NeResize),
        (SystemCursorIcon::NwResize, bevy_window::SystemCursorIcon::NwResize),
        (SystemCursorIcon::SResize, bevy_window::SystemCursorIcon::SResize),
        (SystemCursorIcon::SeResize, bevy_window::SystemCursorIcon::SeResize),
        (SystemCursorIcon::SwResize, bevy_window::SystemCursorIcon::SwResize),
        (SystemCursorIcon::WResize, bevy_window::SystemCursorIcon::WResize),
        (SystemCursorIcon::EwResize, bevy_window::SystemCursorIcon::EwResize),
        (SystemCursorIcon::NsResize, bevy_window::SystemCursorIcon::NsResize),
        (SystemCursorIcon::NeswResize, bevy_window::SystemCursorIcon::NeswResize),
        (SystemCursorIcon::NwseResize, bevy_window::SystemCursorIcon::NwseResize),
        (SystemCursorIcon::ColResize, bevy_window::SystemCursorIcon::ColResize),
        (SystemCursorIcon::RowResize, bevy_window::SystemCursorIcon::RowResize),
        (SystemCursorIcon::AllScroll, bevy_window::SystemCursorIcon::AllScroll),
        (SystemCursorIcon::ZoomIn, bevy_window::SystemCursorIcon::ZoomIn),
        (SystemCursorIcon::ZoomOut, bevy_window::SystemCursorIcon::ZoomOut),
    ];
    for (ours, theirs) in pairs {
        assert_eq!(format!("{ours:?}"), format!("{theirs:?}"));
    }
}

#[test]
fn window_levels_convert_one_to_one() {
    assert_eq!(convert_window_level(WindowLevel::AlwaysOnBottom), NativeWindowLevel::AlwaysOnBottom);
    assert_eq!(convert_window_level(WindowLevel::Normal), NativeWindowLevel::Normal);
    assert_eq!(convert_window_level(WindowLevel::AlwaysOnTop), NativeWindowLevel::AlwaysOnTop);
}

#[test]
fn window_levels_are_named_as_host_and_engine_name_them() {
    let levels = [
        (WindowLevel::AlwaysOnBottom, bevy_window::WindowLevel::AlwaysOnBottom, winit::window::WindowLevel::AlwaysOnBottom),
        (WindowLevel::Normal, bevy_window::WindowLevel::Normal, winit::window::WindowLevel::Normal),
        (WindowLevel::AlwaysOnTop, bevy_window::WindowLevel::AlwaysOnTop, winit::window::WindowLevel::AlwaysOnTop),
    ];
    for (ours, engine, host) in levels {
        assert_eq!(format!("{ours:?}"), format!("{engine:?}"));
        assert_eq!(format!("{:?}", convert_window_level(ours)), format!("{host:?}"));
    }
}

#[test]
fn themes_convert_both_ways() {
    assert_eq!(convert_window_theme(WindowTheme::Light), Theme::Light);
    assert_eq!(convert_window_theme(WindowTheme::Dark), Theme::Dark);
    assert_eq!(convert_winit_theme(Theme::Light), WindowTheme::Light);
    assert_eq!(convert_winit_theme(Theme::Dark), WindowTheme::Dark);
}

#[test]
fn theme_conversions_undo_each_other() {
    for theme in [WindowTheme::Light, WindowTheme::Dark] {
        assert_eq!(convert_winit_theme(convert_window_theme(theme)), theme);
    }
    for theme in [Theme::Light, Theme::Dark] {
        assert_eq!(convert_window_theme(convert_winit_theme(theme)), theme);
    }
}

#[test]
fn no_buttons_is_the_empty_set() {
    assert_eq!(convert_enabled_buttons(buttons(false, false, false)), WindowButtons::empty());
    assert_eq!(convert_enabled_buttons(buttons(false, false, false)).bits, 0);
}

#[test]
fn each_button_sets_its_own_bit() {
    assert_eq!(convert_enabled_buttons(buttons(true, false, false)).bits, 2);
    assert_eq!(convert_enabled_buttons(buttons(false, true, false)).bits, 4);
    assert_eq!(convert_enabled_buttons(buttons(false, false, true)).bits, 1);
    assert_eq!(convert_enabled_buttons(buttons(true, true, false)).bits, 6);
    assert_eq!(convert_enabled_buttons(buttons(true, false, true)).bits, 3);
    assert_eq!(convert_enabled_buttons(buttons(false, true, true)).bits, 5);
    assert_eq!(convert_enabled_buttons(buttons(true, true, true)).bits, 7);
}

#[test]
fn converted_buttons_contain_exactly_the_enabled_ones() {
    for mask in 0..8u32 {
        let enabled = buttons(mask & 1 != 0, mask & 2 != 0, mask & 4 != 0);
        let converted = convert_enabled_buttons(enabled);
        assert_eq!(converted.contains(MINIMIZE), enabled.minimize);
        assert_eq!(converted.contains(MAXIMIZE), enabled.maximize);
        assert_eq!(converted.contains(CLOSE), enabled.close);
    }
}

#[test]
fn button_bits_are_the_bits_of_the_host() {
    assert_eq!(CLOSE, winit::window::WindowButtons::CLOSE.bits());
    assert_eq!(MINIMIZE, winit::window::WindowButtons::MINIMIZE.bits());
    assert_eq!(MAXIMIZE, winit::window::WindowButtons::MAXIMIZE.bits());
    assert_eq!(WindowButtons::empty().bits, winit::window::WindowButtons::empty().bits());
    assert_eq!(
        convert_enabled_buttons(buttons(true, true, true)).bits,
        winit::window::WindowButtons::all().bits()
    );
}

#[test]
fn button_set_insert_and_contains() {
    let mut set = WindowButtons::empty();
    assert!(!set.contains(CLOSE));
    set.insert(CLOSE);
    set.insert(CLOSE);
    assert!(set.contains(CLOSE));
    assert!(!set.contains(MINIMIZE));
    assert!(!set.contains(CLOSE | MINIMIZE));
    set.insert(MINIMIZE);
    assert!(set.contains(CLOSE | MINIMIZE));
    assert_eq!(set.bits, 3);
}

#[test]
fn resize_directions_convert_one_to_one() {
    let pairs = [
        (CompassOctant::North, ResizeDirection::North),
        (CompassOctant::NorthEast, ResizeDirection::NorthEast),
        (CompassOctant::East, ResizeDirection::East),
        (CompassOctant::SouthEast, ResizeDirection::SouthEast),
        (CompassOctant::South, ResizeDirection::South),
        (CompassOctant::SouthWest, ResizeDirection::SouthWest),
        (CompassOctant::West, ResizeDirection::West),
        (CompassOctant::NorthWest, ResizeDirection::NorthWest),
    ];
    for (octant, direction) in pairs {
        assert_eq!(convert_resize_direction(octant), direction);
    }
}

#[test]
fn resize_directions_are_named_as_host_and_engine_name_them() {
    let host = [
        (ResizeDirection::North, winit::window::ResizeDirection::North),
        (ResizeDirection::NorthEast, winit::window::ResizeDirection::NorthEast),
        (ResizeDirection::East, winit::window::ResizeDirection::East),
        (ResizeDirection::SouthEast, winit::window::ResizeDirection::SouthEast),
        (ResizeDirection::South, winit::window::ResizeDirection::South),
        (ResizeDirection::SouthWest, winit::window::ResizeDirection::SouthWest),
        (ResizeDirection::West, winit::window::ResizeDirection::West),
        (ResizeDirection::NorthWest, winit::window::ResizeDirection::NorthWest),
    ];
    for (ours, theirs) in host {
        assert_eq!(format!("{ours:?}"), format!("{theirs:?}"));
    }
    let engine = [
        (CompassOctant::North, bevy_math::CompassOctant::North),
        (CompassOctant::NorthEast, bevy_math::CompassOctant::NorthEast),
        (CompassOctant::East, bevy_math::CompassOctant::East),
        (CompassOctant::SouthEast, bevy_math::CompassOctant::SouthEast),
        (CompassOctant::South, bevy_math::CompassOctant::South),
        (CompassOctant::SouthWest, bevy_math::CompassOctant::SouthWest),
        (CompassOctant::West, bevy_math::CompassOctant::West),
        (CompassOctant::NorthWest, bevy_math::CompassOctant::NorthWest),
    ];
    for (ours, theirs) in engine {
        assert_eq!(format!("{ours:?}"), format!("{theirs:?}"));
    }
}
