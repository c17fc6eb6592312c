use bevy_wallpaper::display_info::DisplayInfo;
use bevy_wallpaper::error::ErrorKind;
use bevy_wallpaper::monitor::{Monitor, PhysicalPosition, PhysicalSize};
use bevy_wallpaper::window::{
    CursorGrabMode, CursorOptions, EnabledButtons, Window, WindowLevel, WindowMode,
    WindowPosition, WindowResizeConstraints, WindowResolution,
};

fn window() -> Window {
    Window {
        cursor_options: CursorOptions { visible: true, grab_mode: CursorGrabMode::Free, hit_test: true },
        mode: WindowMode::Windowed,
        position: WindowPosition::Automatic,
        resolution: WindowResolution {
            physical_width: 2560,
            physical_height: 1440,
            width_bits: 1280.0f32.to_bits(),
            height_bits: 720.0f32.to_bits(),
            scale_factor_override_bits: Some(2.0f32.to_bits()),
        },
        title: "App".to_string(),
        name: None,
        resize_constraints: WindowResizeConstraints {
            min_width_bits: 180.0f32.to_bits(),
            min_height_bits: 120.0f32.to_bits(),
            max_width_bits: f32::INFINITY.to_bits(),
            max_height_bits: f32::INFINITY.to_bits(),
        },
        resizable: true,
        enabled_buttons: EnabledButtons { minimize: true, maximize: true, close: true },
        decorations: true,
        transparent: false,
        window_level: WindowLevel::Normal,
        window_theme: None,
        visible: true,
    }
}

#[test]
fn display_info_of_a_window_on_a_monitor() {
    let monitor = Monitor {
        native_id: 3,
        name: Some("DP-1".to_string()),
        physical_position: PhysicalPosition { x: 0, y: 0 },
        physical_size: PhysicalSize { width: 2560, height: 1440 },
        scale_factor_bits: 2.0f64.to_bits(),
        refresh_rate_millihertz: Some(59_951),
    };
    let info = DisplayInfo::new(&window(), Some(&monitor));
    assert_eq!(info.window_physical_resolution, PhysicalSize { width: 2560, height: 1440 });
    assert_eq!(f32::from_bits(info.window_logical_width_bits), 1280.0);
    assert_eq!(f32::from_bits(info.window_logical_height_bits), 720.0);
    assert_eq!(info.monitor_name, Some("DP-1".to_string()));
    assert_eq!(info.scale_factor_bits.map(f64::from_bits), Some(2.0));
    assert_eq!(info.refresh_rate_millihertz, Some(59_951));
    assert_eq!(info.refresh_rate_parts(), (59, 951));
}

#[test]
fn display_info_without_a_monitor() {
    let info = DisplayInfo::new(&window(), None);
    assert_eq!(info.monitor_name, None);
    assert_eq!(info.scale_factor_bits, None);
    assert_eq!(info.refresh_rate_millihertz, None);
    assert_eq!(info.refresh_rate_parts(), (0, 0));
}

#[test]
fn refresh_rate_is_split_into_hertz_and_millihertz() {
    let mut info = DisplayInfo::new(&window(), None);
    for (millihertz, parts) in [
        (0u32, (0u32, 0u32)),
        (999, (0, 999)),
        (1000, (1, 0)),
        (60_000, (60, 0)),
        (143_856, (143, 856)),
        (u32::MAX, (4_294_967, 295)),
    ] {
        info.refresh_rate_millihertz = Some(millihertz);
        assert_eq!(info.refresh_rate_parts(), parts);
    }
}

#[test]
fn only_configuration_and_creation_errors_are_fatal() {
    assert!(ErrorKind::Configuration.is_fatal());
    assert!(ErrorKind::NativeCreation.is_fatal());
    assert!(!ErrorKind::MonitorResolutionMiss.is_fatal());
    assert!(!ErrorKind::CursorOperation.is_fatal());
    assert!(!ErrorKind::CompositorPublish.is_fatal());
}
