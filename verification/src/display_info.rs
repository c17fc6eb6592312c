//! What is reported of a window and its monitor when the window is made.

use vstd::prelude::*;
use crate::monitor::{referent, Monitor, PhysicalSize};
use crate::window::Window;

verus! {

/// The facts of a new window that go into the log. Numbers with a fraction
/// are held as bit patterns and printed by the host.
#[derive(Clone, Debug)]
pub struct DisplayInfo {
    /// The window's size in physical pixels.
    pub window_physical_resolution: PhysicalSize,
    /// The window's width in logical pixels, as a bit pattern.
    pub window_logical_width_bits: u32,
    /// The window's height in logical pixels, as a bit pattern.
    pub window_logical_height_bits: u32,
    /// The name of the window's monitor, where it is known.
    pub monitor_name: Option<String>,
    /// The scale factor of the window's monitor, as a bit pattern.
    pub scale_factor_bits: Option<u64>,
    /// The refresh rate of the window's monitor in millihertz.
    pub refresh_rate_millihertz: Option<u32>,
}

/// What is reported of `window` on `monitor`.
pub open spec fn display_info_spec(window: Window, monitor: Option<Monitor>) -> DisplayInfo {
    DisplayInfo {
        window_physical_resolution: PhysicalSize {
            width: window.resolution.physical_width,
            height: window.resolution.physical_height,
        },
        window_logical_width_bits: window.resolution.width_bits,
        window_logical_height_bits: window.resolution.height_bits,
        monitor_name: match monitor {
            Some(monitor) => monitor.name,
            None => None,
        },
        scale_factor_bits: match monitor {
            Some(monitor) => Some(monitor.scale_factor_bits),
            None => None,
        },
        refresh_rate_millihertz: match monitor {
            Some(monitor) => monitor.refresh_rate_millihertz,
            None => None,
        },
    }
}

impl DisplayInfo {
    /// Collects what is reported of `window` on the monitor that was
    /// selected for it, if one was.
    pub fn new(window: &Window, monitor: Option<&Monitor>) -> (info: DisplayInfo)
        ensures
            info == display_info_spec(*window, referent(monitor)),
    {
        let monitor_name: Option<String> = match monitor {
            Some(monitor) => match &monitor.name {
                Some(name) => Some(name.clone()),
                None => None,
            },
            None => None,
        };
        DisplayInfo {
            window_physical_resolution: PhysicalSize {
                width: window.resolution.physical_width,
                height: window.resolution.physical_height,
            },
            window_logical_width_bits: window.resolution.width_bits,
            window_logical_height_bits: window.resolution.height_bits,
            monitor_name,
            scale_factor_bits: match monitor {
                Some(monitor) => Some(monitor.scale_factor_bits),
                None => None,
            },
            refresh_rate_millihertz: match monitor {
                Some(monitor) => monitor.refresh_rate_millihertz,
                None => None,
            },
        }
    }

    /// The refresh rate as whole hertz and the millihertz beyond them; both
    /// are zero where no rate is known.
    pub fn refresh_rate_parts(&self) -> (parts: (u32, u32))
        ensures
            self.refresh_rate_millihertz matches Some(millihertz) ==> parts == (
                millihertz / 1000,
                millihertz % 1000,
            ),
            self.refresh_rate_millihertz is None ==> parts == (0u32, 0u32),
            parts.0 * 1000 + parts.1 == (match self.refresh_rate_millihertz {
                Some(millihertz) => millihertz as int,
                None => 0,
            }),
            parts.1 < 1000,
    {
        let millihertz: u32 = match self.refresh_rate_millihertz {
            Some(millihertz) => millihertz,
            None => 0,
        };
        (millihertz / 1000, millihertz % 1000)
    }
}

} // verus!
