//! What the scene asks of a window.

use vstd::prelude::*;
use crate::monitor::{MonitorSelection, PhysicalPosition};

verus! {

/// How a window takes up the screen.
#[derive(Clone, Copy, Debug, PartialEq, Eq, Structural)]
pub enum WindowMode {
    /// An ordinary window with a size and a position.
    Windowed,
    /// A window without a border that covers the selected monitor.
    BorderlessFullscreen(MonitorSelection),
    /// Exclusive fullscreen at the window's own resolution. Not built in.
    SizedFullscreen(MonitorSelection),
    /// Exclusive fullscreen at the monitor's resolution. Not built in.
    Fullscreen(MonitorSelection),
}

/// Where a window is placed.
#[derive(Clone, Copy, Debug, PartialEq, Eq, Structural)]
pub enum WindowPosition {
    /// The host's window manager decides.
    Automatic,
    /// In the middle of the selected monitor.
    Centered(MonitorSelection),
    /// At this point, in physical pixels.
    At(PhysicalPosition),
}

/// The size that a window asks for.
///
/// The logical size and the scale factors are numbers with a fraction. They
/// are held as the bit patterns of single-precision numbers and handed on as
/// they are; only the host computes with them.
#[derive(Clone, Copy, Debug, PartialEq, Eq, Structural)]
pub struct WindowResolution {
    /// Width of the client area in physical pixels.
    pub physical_width: u32,
    /// Height of the client area in physical pixels.
    pub physical_height: u32,
    /// Width of the client area in logical pixels, as a bit pattern.
    pub width_bits: u32,
    /// Height of the client area in logical pixels, as a bit pattern.
    pub height_bits: u32,
    /// A scale factor that overrides the host's, as a bit pattern.
    pub scale_factor_override_bits: Option<u32>,
}

/// The bounds within which a window may be resized, in logical pixels, each
/// as the bit pattern of a single-precision number. The bounds are already
/// consistent: no minimum is below one and no maximum is below its minimum.
#[derive(Clone, Copy, Debug, PartialEq, Eq, Structural)]
pub struct WindowResizeConstraints {
    pub min_width_bits: u32,
    pub min_height_bits: u32,
    pub max_width_bits: u32,
    pub max_height_bits: u32,
}

/// How the cursor is held to a window.
#[derive(Clone, Copy, Debug, PartialEq, Eq, Structural)]
pub enum CursorGrabMode {
    /// The cursor moves freely.
    Free,
    /// The cursor stays within the window.
    Confined,
    /// The cursor stays where it is.
    Locked,
}

/// What a window asks of the cursor. The three are independent of each
/// other.
#[derive(Clone, Copy, Debug, PartialEq, Eq, Structural)]
pub struct CursorOptions {
    /// Whether the cursor is shown.
    pub visible: bool,
    /// How the cursor is held to the window.
    pub grab_mode: CursorGrabMode,
    /// Whether the window receives the cursor's events.
    pub hit_test: bool,
}

/// Where a window stands in the stacking order.
#[derive(Clone, Copy, Debug, PartialEq, Eq, Structural)]
pub enum WindowLevel {
    AlwaysOnBottom,
    Normal,
    AlwaysOnTop,
}

/// The colour theme of a window's frame.
#[derive(Clone, Copy, Debug, PartialEq, Eq, Structural)]
pub enum WindowTheme {
    Light,
    Dark,
}

/// Which buttons of the title bar are enabled.
#[derive(Clone, Copy, Debug, PartialEq, Eq, Structural)]
pub struct EnabledButtons {
    pub minimize: bool,
    pub maximize: bool,
    pub close: bool,
}

/// One of the eight directions of a compass.
#[derive(Clone, Copy, Debug, PartialEq, Eq, Structural)]
pub enum CompassOctant {
    North,
    NorthEast,
    East,
    SouthEast,
    South,
    SouthWest,
    West,
    NorthWest,
}

/// The cursor shapes that the scene can ask for.
#[derive(Clone, Copy, Debug, PartialEq, Eq, Structural)]
pub enum SystemCursorIcon {
    Default,
    ContextMenu,
    Help,
    Pointer,
    Progress,
    Wait,
    Cell,
    Crosshair,
    Text,
    VerticalText,
    Alias,
    Copy,
    Move,
    NoDrop,
    NotAllowed,
    Grab,
    Grabbing,
    EResize,
    NResize,
    NeResize,
    NwResize,
    SResize,
    SeResize,
    SwResize,
    WResize,
    EwResize,
    NsResize,
    NeswResize,
    NwseResize,
    ColResize,
    RowResize,
    AllScroll,
    ZoomIn,
    ZoomOut,
}

/// The window that the scene wants to exist.
#[derive(Clone, Debug)]
pub struct Window {
    /// What the window asks of the cursor.
    pub cursor_options: CursorOptions,
    /// How the window takes up the screen.
    pub mode: WindowMode,
    /// Where the window is placed.
    pub position: WindowPosition,
    /// The size that the window asks for.
    pub resolution: WindowResolution,
    /// The text of the title bar.
    pub title: String,
    /// The application name that the host files the window under.
    pub name: Option<String>,
    /// The bounds within which the window may be resized.
    pub resize_constraints: WindowResizeConstraints,
    /// Whether the user may resize the window.
    pub resizable: bool,
    /// Which buttons of the title bar are enabled.
    pub enabled_buttons: EnabledButtons,
    /// Whether the window has a frame.
    pub decorations: bool,
    /// Whether the window's background lets what is behind it show.
    pub transparent: bool,
    /// Where the window stands in the stacking order.
    pub window_level: WindowLevel,
    /// The colour theme of the frame, where the window asks for one.
    pub window_theme: Option<WindowTheme>,
    /// Whether the window is shown.
    pub visible: bool,
}

} // verus!
