//! From the window that the scene wants to the attributes of its native
//! window.

use vstd::prelude::*;
use crate::converters::{
    button_bits, convert_enabled_buttons, convert_window_level, convert_window_theme, theme_of,
    window_level_of,
};
use crate::entity::Entity;
use crate::monitor::{
    referent, select_monitor, select_monitor_spec, Monitor, MonitorSelection, PhysicalPosition,
    PhysicalSize, WinitMonitors,
};
use crate::native::{
    Fullscreen, Size, Theme, WindowAttributes, WindowButtons, WindowLevel as NativeWindowLevel,
    WindowType,
};
use crate::position::{
    centered_on, centered_position, centering_monitor, centering_monitor_spec,
    window_position_spec,
};
use crate::window::{
    Window, WindowMode, WindowPosition, WindowResizeConstraints, WindowResolution,
};

verus! {

/// Whether a bit pattern of a single-precision number stands for a finite
/// number: its exponent is not the largest one, which infinities and
/// not-a-numbers have.
pub open spec fn is_finite_bits(bits: u32) -> bool {
    (bits / 0x80_0000) % 0x100 != 0xFF
}

/// Whether this build can give a window the mode. The two exclusive
/// fullscreen modes are not built in.
pub open spec fn mode_is_supported(mode: WindowMode) -> bool {
    match mode {
        WindowMode::Windowed => true,
        WindowMode::BorderlessFullscreen(_) => true,
        WindowMode::SizedFullscreen(_) => false,
        WindowMode::Fullscreen(_) => false,
    }
}

/// Whether a window of the mode is created as an ordinary window, with a
/// size and a position. A mode that is not built in falls back to this.
pub open spec fn is_created_windowed(mode: WindowMode) -> bool {
    !(mode is BorderlessFullscreen)
}

/// The selection by which a window finds its monitor when it is created: that
/// of the mode of a borderless fullscreen window, else that of a centered
/// position. A window with neither needs no monitor.
pub open spec fn selection_of(window: Window) -> Option<MonitorSelection> {
    match window.mode {
        WindowMode::BorderlessFullscreen(monitor_selection) => Some(monitor_selection),
        _ => match window.position {
            WindowPosition::Centered(monitor_selection) => Some(monitor_selection),
            _ => None,
        },
    }
}

/// The selection of a window that found no monitor, if there is one. Such a
/// window is left to the host's window manager, and the host reports the
/// miss.
pub open spec fn missed_selection_spec(
    window: Window,
    monitors: Seq<(Monitor, Entity)>,
    primary_monitor: Option<Monitor>,
) -> Option<MonitorSelection> {
    if resolve_monitor_spec(window, monitors, primary_monitor) is None {
        selection_of(window)
    } else {
        None
    }
}

/// The monitor that a window is resolved against when it is created: the one
/// that the mode of a borderless fullscreen window selects, else the one that
/// the window's position is centered on. At creation no current monitor is
/// known. `None` leaves the choice to the host's window manager.
pub open spec fn resolve_monitor_spec(
    window: Window,
    monitors: Seq<(Monitor, Entity)>,
    primary_monitor: Option<Monitor>,
) -> Option<Monitor> {
    match window.mode {
        WindowMode::BorderlessFullscreen(monitor_selection) => select_monitor_spec(
            monitors,
            primary_monitor,
            None,
            monitor_selection,
        ),
        _ => centering_monitor_spec(window.position, monitors, primary_monitor, None),
    }
}

/// The position of the native window on the monitor it was resolved
/// against: none for an automatic position or without a monitor to center
/// on, the middle of the monitor for a centered position, and the point
/// itself for an absolute position.
pub open spec fn position_on(
    position: WindowPosition,
    window_size: PhysicalSize,
    resolved_monitor: Option<Monitor>,
) -> Option<PhysicalPosition> {
    match position {
        WindowPosition::Automatic => None,
        WindowPosition::Centered(_) => match resolved_monitor {
            Some(monitor) => Some(
                centered_on(monitor.physical_position, monitor.physical_size, window_size),
            ),
            None => None,
        },
        WindowPosition::At(point) => Some(point),
    }
}

/// The fullscreen mode of the native window. An embedded window covers the
/// monitor it is on; a borderless fullscreen window covers the monitor it
/// was resolved against, or the one it is on where none was found.
pub open spec fn fullscreen_spec(
    mode: WindowMode,
    resolved_monitor: Option<Monitor>,
    embed_parent: Option<u32>,
) -> Option<Fullscreen> {
    if embed_parent is Some {
        Some(Fullscreen::Borderless(None))
    } else if mode is BorderlessFullscreen {
        Some(
            Fullscreen::Borderless(
                match resolved_monitor {
                    Some(monitor) => Some(monitor.native_id),
                    None => None,
                },
            ),
        )
    } else {
        None
    }
}

/// The size that the native window asks for: the logical size of the
/// resolution, scaled by the override where there is one.
pub open spec fn inner_size_spec(resolution: WindowResolution) -> Size {
    match resolution.scale_factor_override_bits {
        Some(scale_factor_bits) => Size::Scaled {
            width_bits: resolution.width_bits,
            height_bits: resolution.height_bits,
            scale_factor_bits,
        },
        None => Size::Logical {
            width_bits: resolution.width_bits,
            height_bits: resolution.height_bits,
        },
    }
}

/// The smallest size of the native window.
pub open spec fn min_inner_size_spec(constraints: WindowResizeConstraints) -> Size {
    Size::Logical {
        width_bits: constraints.min_width_bits,
        height_bits: constraints.min_height_bits,
    }
}

/// The largest size of the native window: none unless both bounds are
/// finite.
pub open spec fn max_inner_size_spec(constraints: WindowResizeConstraints) -> Option<Size> {
    if is_finite_bits(constraints.max_width_bits) && is_finite_bits(constraints.max_height_bits) {
        Some(
            Size::Logical {
                width_bits: constraints.max_width_bits,
                height_bits: constraints.max_height_bits,
            },
        )
    } else {
        None
    }
}

/// The attributes of the native window for `window`.
///
/// An ordinary window gets its size and its position; a borderless
/// fullscreen window gets its monitor; a mode that is not built in is
/// treated as an ordinary window. The window is created hidden: whether it
/// is shown is settled once it exists.
///
/// With `embed_parent` the window becomes a layer of the desktop below the
/// given native window: the window manager is told to leave it alone, it is
/// maximized and covers its monitor, has neither frame nor buttons, stands at
/// the bottom of the stacking order, and takes neither focus nor resizing.
pub open spec fn translate_spec(
    window: Window,
    window_size: PhysicalSize,
    resolved_monitor: Option<Monitor>,
    embed_parent: Option<u32>,
) -> WindowAttributes {
    let embedded = embed_parent is Some;
    WindowAttributes {
        inner_size: if is_created_windowed(window.mode) {
            Some(inner_size_spec(window.resolution))
        } else {
            None
        },
        min_inner_size: Some(min_inner_size_spec(window.resize_constraints)),
        max_inner_size: max_inner_size_spec(window.resize_constraints),
        position: if is_created_windowed(window.mode) {
            position_on(window.position, window_size, resolved_monitor)
        } else {
            None
        },
        resizable: !embedded && window.resizable,
        enabled_buttons: if embedded {
            WindowButtons { bits: 0 }
        } else {
            WindowButtons { bits: button_bits(window.enabled_buttons) }
        },
        title: window.title,
        maximized: embedded,
        visible: false,
        transparent: window.transparent,
        decorations: !embedded && window.decorations,
        preferred_theme: match window.window_theme {
            Some(theme) => Some(theme_of(theme)),
            None => None,
        },
        window_level: if embedded {
            NativeWindowLevel::AlwaysOnBottom
        } else {
            window_level_of(window.window_level)
        },
        active: !embedded,
        fullscreen: fullscreen_spec(window.mode, resolved_monitor, embed_parent),
        name: window.name,
        override_redirect: embedded,
        window_type: if embedded {
            WindowType::Notification
        } else {
            WindowType::Normal
        },
        embed_parent_window: embed_parent,
    }
}

/// Whether a bit pattern of a single-precision number stands for a finite
/// number.
pub fn bits_are_finite(bits: u32) -> (finite: bool)
    ensures
        finite == is_finite_bits(bits),
{
    (bits / 0x80_0000) % 0x100 != 0xFF
}

/// Whether this build can give a window the mode. A window whose mode it
/// cannot give is created as an ordinary window, and the host reports the
/// fact.
pub fn supports_mode(mode: &WindowMode) -> (supported: bool)
    ensures
        supported == mode_is_supported(*mode),
{
    match mode {
        WindowMode::Windowed => true,
        WindowMode::BorderlessFullscreen(_) => true,
        WindowMode::SizedFullscreen(_) => false,
        WindowMode::Fullscreen(_) => false,
    }
}

/// The selection by which `window` finds its monitor when it is created, if
/// it needs a monitor.
pub fn monitor_selection(window: &Window) -> (selection: Option<MonitorSelection>)
    ensures
        selection == selection_of(*window),
{
    match window.mode {
        WindowMode::BorderlessFullscreen(monitor_selection) => Some(monitor_selection),
        _ => match window.position {
            WindowPosition::Centered(monitor_selection) => Some(monitor_selection),
            _ => None,
        },
    }
}

/// Resolves the monitor that `window` is created against: the one that the
/// mode of a borderless fullscreen window selects, else the one that the
/// window's position is centered on. The host scales the window's logical
/// size by this monitor's scale factor to learn the window's physical size
/// there.
pub fn resolve_monitor<'a>(
    window: &Window,
    monitors: &'a WinitMonitors,
    primary_monitor: Option<&'a Monitor>,
) -> (resolved: Option<&'a Monitor>)
    ensures
        referent(resolved) == resolve_monitor_spec(*window, monitors@, referent(primary_monitor)),
{
    match &window.mode {
        WindowMode::BorderlessFullscreen(monitor_selection) => select_monitor(
            monitors,
            primary_monitor,
            None,
            monitor_selection,
        ),
        _ => centering_monitor(&window.position, monitors, primary_monitor, None),
    }
}

/// Translates the window that the scene wants into the attributes of its
/// native window. `resolved_monitor` is the monitor that the window was
/// resolved against, and `window_size` the size of the window in physical
/// pixels on that monitor; the size is read only for a centered position.
/// `embed_parent` is the native window below which the window is embedded as
/// a layer of the desktop.
pub fn translate(
    window: &Window,
    window_size: PhysicalSize,
    resolved_monitor: Option<&Monitor>,
    embed_parent: Option<u32>,
) -> (attributes: WindowAttributes)
    ensures
        attributes == translate_spec(
            *window,
            window_size,
            referent(resolved_monitor),
            embed_parent,
        ),
{
    let embedded = embed_parent.is_some();
    let windowed = match window.mode {
        WindowMode::BorderlessFullscreen(_) => false,
        _ => true,
    };
    let fullscreen = if embedded {
        Some(Fullscreen::Borderless(None))
    } else {
        match window.mode {
            WindowMode::BorderlessFullscreen(_) => Some(
                Fullscreen::Borderless(
                    match resolved_monitor {
                        Some(monitor) => Some(monitor.native_id),
                        None => None,
                    },
                ),
            ),
            _ => None,
        }
    };
    let position = if windowed {
        match window.position {
            WindowPosition::Automatic => None,
            WindowPosition::Centered(_) => match resolved_monitor {
                Some(monitor) => Some(centered_position(monitor, window_size)),
                None => None,
            },
            WindowPosition::At(point) => Some(point),
        }
    } else {
        None
    };
    let inner_size = if windowed {
        Some(
            match window.resolution.scale_factor_override_bits {
                Some(scale_factor_bits) => Size::Scaled {
                    width_bits: window.resolution.width_bits,
                    height_bits: window.resolution.height_bits,
                    scale_factor_bits,
                },
                None => Size::Logical {
                    width_bits: window.resolution.width_bits,
                    height_bits: window.resolution.height_bits,
                },
            },
        )
    } else {
        None
    };
    let constraints = window.resize_constraints;
    let max_inner_size = if bits_are_finite(constraints.max_width_bits) && bits_are_finite(
        constraints.max_height_bits,
    ) {
        Some(
            Size::Logical {
                width_bits: constraints.max_width_bits,
                height_bits: constraints.max_height_bits,
            },
        )
    } else {
        None
    };
    let preferred_theme: Option<Theme> = match window.window_theme {
        Some(theme) => Some(convert_window_theme(theme)),
        None => None,
    };
    let name: Option<String> = match &window.name {
        Some(name) => Some(name.clone()),
        None => None,
    };
    WindowAttributes {
        inner_size,
        min_inner_size: Some(
            Size::Logical {
                width_bits: constraints.min_width_bits,
                height_bits: constraints.min_height_bits,
            },
        ),
        max_inner_size,
        position,
        resizable: !embedded && window.resizable,
        enabled_buttons: if embedded {
            WindowButtons::empty()
        } else {
            convert_enabled_buttons(window.enabled_buttons)
        },
        title: window.title.clone(),
        maximized: embedded,
        visible: false,
        transparent: window.transparent,
        decorations: !embedded && window.decorations,
        preferred_theme,
        window_level: if embedded {
            NativeWindowLevel::AlwaysOnBottom
        } else {
            convert_window_level(window.window_level)
        },
        active: !embedded,
        fullscreen,
        name,
        override_redirect: embedded,
        window_type: if embedded {
            WindowType::Notification
        } else {
            WindowType::Normal
        },
        embed_parent_window: embed_parent,
    }
}

/// Translating the same window against the same monitor gives the same
/// attributes, however often it is done.
pub proof fn lemma_translate_is_a_function(
    first: Window,
    second: Window,
    window_size: PhysicalSize,
    first_monitor: Option<Monitor>,
    second_monitor: Option<Monitor>,
    embed_parent: Option<u32>,
)
    requires
        first == second,
        first_monitor == second_monitor,
    ensures
        translate_spec(first, window_size, first_monitor, embed_parent) == translate_spec(
            second,
            window_size,
            second_monitor,
            embed_parent,
        ),
{
}

/// A window that is created as an ordinary window lies where its position
/// puts it among the monitors of the host.
pub proof fn lemma_translate_resolves_the_position(
    window: Window,
    window_size: PhysicalSize,
    monitors: Seq<(Monitor, Entity)>,
    primary_monitor: Option<Monitor>,
    embed_parent: Option<u32>,
)
    requires
        is_created_windowed(window.mode),
    ensures
        translate_spec(
            window,
            window_size,
            resolve_monitor_spec(window, monitors, primary_monitor),
            embed_parent,
        ).position == window_position_spec(
            window.position,
            window_size,
            monitors,
            primary_monitor,
            None,
        ),
{
}

/// An embedded window is a layer of the desktop whatever the scene asked
/// for: not managed, maximized, without frame and buttons, at the bottom,
/// and below the parent that was given.
pub proof fn lemma_embedded_window_is_a_desktop_layer(
    window: Window,
    window_size: PhysicalSize,
    resolved_monitor: Option<Monitor>,
    parent: u32,
)
    ensures
        ({
            let attributes = translate_spec(
                window,
                window_size,
                resolved_monitor,
                Some(parent),
            );
            &&& attributes.override_redirect
            &&& attributes.maximized
            &&& !attributes.decorations
            &&& attributes.enabled_buttons.bits == 0
            &&& attributes.window_level == NativeWindowLevel::AlwaysOnBottom
            &&& attributes.embed_parent_window == Some(parent)
            &&& !attributes.resizable
            &&& !attributes.active
            &&& !attributes.visible
        }),
{
}

/// A window that is not embedded keeps what the scene asked for and is left
/// to the window manager.
pub proof fn lemma_plain_window_keeps_its_wishes(
    window: Window,
    window_size: PhysicalSize,
    resolved_monitor: Option<Monitor>,
)
    ensures
        ({
            let attributes = translate_spec(window, window_size, resolved_monitor, None);
            &&& !attributes.override_redirect
            &&& !attributes.maximized
            &&& attributes.decorations == window.decorations
            &&& attributes.resizable == window.resizable
            &&& attributes.window_level == window_level_of(window.window_level)
            &&& attributes.embed_parent_window is None
            &&& attributes.title == window.title
        }),
{
}

/// The monitor that a window is resolved against is the one that its
/// selection selects while no current monitor is known; a window without a
/// selection is resolved against none.
pub proof fn lemma_resolution_follows_the_selection(
    window: Window,
    monitors: Seq<(Monitor, Entity)>,
    primary_monitor: Option<Monitor>,
)
    ensures
        resolve_monitor_spec(window, monitors, primary_monitor) == (match selection_of(window) {
            Some(monitor_selection) => select_monitor_spec(
                monitors,
                primary_monitor,
                None,
                monitor_selection,
            ),
            None => None,
        }),
        selection_of(window) == Some(MonitorSelection::Current) ==> missed_selection_spec(
            window,
            monitors,
            primary_monitor,
        ) == Some(MonitorSelection::Current),
        selection_of(window) is None ==> missed_selection_spec(window, monitors, primary_monitor)
            is None,
{
}

/// A mode that is not built in gives the attributes of an ordinary window.
pub proof fn lemma_unsupported_mode_degrades_to_windowed(
    window: Window,
    window_size: PhysicalSize,
    monitors: Seq<(Monitor, Entity)>,
    primary_monitor: Option<Monitor>,
    embed_parent: Option<u32>,
)
    requires
        !mode_is_supported(window.mode),
    ensures
        resolve_monitor_spec(window, monitors, primary_monitor) == resolve_monitor_spec(
            Window { mode: WindowMode::Windowed, ..window },
            monitors,
            primary_monitor,
        ),
        translate_spec(
            window,
            window_size,
            resolve_monitor_spec(window, monitors, primary_monitor),
            embed_parent,
        ) == translate_spec(
            Window { mode: WindowMode::Windowed, ..window },
            window_size,
            resolve_monitor_spec(window, monitors, primary_monitor),
            embed_parent,
        ),
{
}

} // verus!
