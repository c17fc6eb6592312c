//! Where a window is placed.

use vstd::prelude::*;
use crate::entity::Entity;
use crate::monitor::{
    referent, select_monitor, select_monitor_spec, Monitor, PhysicalPosition, PhysicalSize,
    WinitMonitors,
};
use crate::window::WindowPosition;

verus! {

/// A number brought into the range of a coordinate.
pub open spec fn clamp_coordinate(value: int) -> int {
    if value < i32::MIN {
        i32::MIN as int
    } else if value > i32::MAX {
        i32::MAX as int
    } else {
        value
    }
}

/// The coordinate at which an extent of `window_extent` pixels lies in the
/// middle of a monitor that starts at `monitor_origin` and is
/// `monitor_extent` pixels long: the origin plus half of the difference of
/// the two extents, rounded down.
pub open spec fn centered_coordinate(
    monitor_extent: u32,
    window_extent: u32,
    monitor_origin: i32,
) -> int {
    clamp_coordinate((monitor_extent - window_extent) / 2 + monitor_origin)
}

/// The position at which a window of `window_size` physical pixels lies in
/// the middle of a monitor. Each axis is computed on its own.
pub open spec fn centered_on(
    monitor_position: PhysicalPosition,
    monitor_size: PhysicalSize,
    window_size: PhysicalSize,
) -> PhysicalPosition {
    PhysicalPosition {
        x: centered_coordinate(monitor_size.width, window_size.width, monitor_position.x) as i32,
        y: centered_coordinate(monitor_size.height, window_size.height, monitor_position.y) as i32,
    }
}

/// The monitor that a position is centered on, if it is centered on one.
pub open spec fn centering_monitor_spec(
    position: WindowPosition,
    monitors: Seq<(Monitor, Entity)>,
    primary_monitor: Option<Monitor>,
    current_monitor: Option<Monitor>,
) -> Option<Monitor> {
    match position {
        WindowPosition::Centered(monitor_selection) => select_monitor_spec(
            monitors,
            primary_monitor,
            current_monitor,
            monitor_selection,
        ),
        _ => None,
    }
}

/// The physical position that a window position stands for. `None` leaves
/// the choice to the host's window manager: the position is automatic, or
/// the monitor to center on could not be found.
pub open spec fn window_position_spec(
    position: WindowPosition,
    window_size: PhysicalSize,
    monitors: Seq<(Monitor, Entity)>,
    primary_monitor: Option<Monitor>,
    current_monitor: Option<Monitor>,
) -> Option<PhysicalPosition> {
    match position {
        WindowPosition::Automatic => None,
        WindowPosition::Centered(monitor_selection) => match select_monitor_spec(
            monitors,
            primary_monitor,
            current_monitor,
            monitor_selection,
        ) {
            Some(monitor) => Some(
                centered_on(monitor.physical_position, monitor.physical_size, window_size),
            ),
            None => None,
        },
        WindowPosition::At(point) => Some(point),
    }
}

/// One coordinate of a centered window.
fn center_axis(monitor_extent: u32, window_extent: u32, monitor_origin: i32) -> (coordinate: i32)
    ensures
        coordinate == centered_coordinate(monitor_extent, window_extent, monitor_origin),
{
    let difference: i64 = monitor_extent as i64 - window_extent as i64;
    let half: i64 = if difference >= 0 {
        difference / 2
    } else {
        -((1 - difference) / 2)
    };
    let sum: i64 = half + monitor_origin as i64;
    if sum > i32::MAX as i64 {
        i32::MAX
    } else if sum < i32::MIN as i64 {
        i32::MIN
    } else {
        sum as i32
    }
}

/// The position at which a window of `window_size` physical pixels lies in
/// the middle of `monitor`.
pub fn centered_position(monitor: &Monitor, window_size: PhysicalSize) -> (position:
    PhysicalPosition)
    ensures
        position == centered_on(monitor.physical_position, monitor.physical_size, window_size),
{
    PhysicalPosition {
        x: center_axis(monitor.physical_size.width, window_size.width, monitor.physical_position.x),
        y: center_axis(
            monitor.physical_size.height,
            window_size.height,
            monitor.physical_position.y,
        ),
    }
}

/// The monitor that `position` is centered on, if it is centered on one. The
/// host scales the window's logical size by this monitor's scale factor to
/// learn the window's physical size there.
pub fn centering_monitor<'a>(
    position: &WindowPosition,
    monitors: &'a WinitMonitors,
    primary_monitor: Option<&'a Monitor>,
    current_monitor: Option<&'a Monitor>,
) -> (monitor: Option<&'a Monitor>)
    ensures
        referent(monitor) == centering_monitor_spec(
            *position,
            monitors@,
            referent(primary_monitor),
            referent(current_monitor),
        ),
{
    match position {
        WindowPosition::Centered(monitor_selection) => select_monitor(
            monitors,
            primary_monitor,
            current_monitor,
            monitor_selection,
        ),
        _ => None,
    }
}

/// Computes the physical position for a window position. `window_size` is
/// the size of the window in physical pixels on the monitor that the
/// position selects.
pub fn winit_window_position(
    position: &WindowPosition,
    window_size: PhysicalSize,
    monitors: &WinitMonitors,
    primary_monitor: Option<&Monitor>,
    current_monitor: Option<&Monitor>,
) -> (resolved: Option<PhysicalPosition>)
    ensures
        resolved == window_position_spec(
            *position,
            window_size,
            monitors@,
            referent(primary_monitor),
            referent(current_monitor),
        ),
{
    match position {
        WindowPosition::Automatic => None,
        WindowPosition::Centered(monitor_selection) => {
            match select_monitor(monitors, primary_monitor, current_monitor, monitor_selection) {
                Some(monitor) => Some(centered_position(monitor, window_size)),
                None => None,
            }
        },
        WindowPosition::At(point) => Some(*point),
    }
}

/// On a monitor at the origin a centered window lies at half of the
/// difference of the two sizes, exactly.
pub proof fn lemma_centered_at_origin(monitor_size: PhysicalSize, window_size: PhysicalSize)
    ensures
        centered_on(PhysicalPosition { x: 0, y: 0 }, monitor_size, window_size).x == (
        monitor_size.width - window_size.width) / 2,
        centered_on(PhysicalPosition { x: 0, y: 0 }, monitor_size, window_size).y == (
        monitor_size.height - window_size.height) / 2,
{
}

/// A window as large as its monitor lies at the monitor's own position.
pub proof fn lemma_centered_full_size(monitor_position: PhysicalPosition, size: PhysicalSize)
    ensures
        centered_on(monitor_position, size, size) == monitor_position,
{
}

/// A centered window leaves as much of the monitor free on one side as on
/// the other, up to one pixel, wherever nothing is cut off at the end of the
/// coordinate range.
pub proof fn lemma_centered_margins(
    monitor_extent: u32,
    window_extent: u32,
    monitor_origin: i32,
)
    requires
        i32::MIN <= (monitor_extent - window_extent) / 2 + monitor_origin <= i32::MAX,
    ensures
        ({
            let left = centered_coordinate(monitor_extent, window_extent, monitor_origin)
                - monitor_origin;
            let right = (monitor_origin + monitor_extent) - (centered_coordinate(
                monitor_extent,
                window_extent,
                monitor_origin,
            ) + window_extent);
            left <= right <= left + 1
        }),
{
}

} // verus!
