//! What the host is asked for: the attributes of a native window.

use vstd::prelude::*;
use crate::monitor::{PhysicalPosition, PhysicalSize};

verus! {

/// A size as the host takes it.
///
/// Logical sizes and scale factors are bit patterns of single-precision
/// numbers; the host alone turns them into pixels.
#[derive(Clone, Copy, Debug, PartialEq, Eq, Structural)]
pub enum Size {
    /// A size in physical pixels.
    Physical(PhysicalSize),
    /// A size in logical pixels.
    Logical { width_bits: u32, height_bits: u32 },
    /// A size in logical pixels, to be multiplied by the scale factor given
    /// with it.
    Scaled { width_bits: u32, height_bits: u32, scale_factor_bits: u32 },
}

/// A fullscreen mode of a native window.
#[derive(Clone, Copy, Debug, PartialEq, Eq, Structural)]
pub enum Fullscreen {
    /// Without a border, on the monitor with this native id, or on the
    /// monitor that the window is on where none is given.
    Borderless(Option<u32>),
}

/// Where a native window stands in the stacking order.
#[derive(Clone, Copy, Debug, PartialEq, Eq, Structural)]
pub enum WindowLevel {
    AlwaysOnBottom,
    Normal,
    AlwaysOnTop,
}

/// The colour theme of a native window's frame.
#[derive(Clone, Copy, Debug, PartialEq, Eq, Structural)]
pub enum Theme {
    Light,
    Dark,
}

/// How the host holds the cursor to a native window.
#[derive(Clone, Copy, Debug, PartialEq, Eq, Structural)]
pub enum CursorGrabMode {
    /// The cursor is not held.
    Free,
    Confined,
    Locked,
}

/// The edge or corner by which a native window is resized.
#[derive(Clone, Copy, Debug, PartialEq, Eq, Structural)]
pub enum ResizeDirection {
    East,
    North,
    NorthEast,
    NorthWest,
    South,
    SouthEast,
    SouthWest,
    West,
}

/// The kind of window that the window manager is told of.
#[derive(Clone, Copy, Debug, PartialEq, Eq, Structural)]
pub enum WindowType {
    Desktop,
    Dock,
    Toolbar,
    Menu,
    Utility,
    Splash,
    Dialog,
    DropdownMenu,
    PopupMenu,
    Tooltip,
    Notification,
    Combo,
    Dnd,
    Normal,
}

/// The cursor shapes of the host.
#[derive(Clone, Copy, Debug, PartialEq, Eq, Structural)]
pub enum CursorIcon {
    Default,
    ContextMenu,
    Help,
    Pointer,
    Progress,
    Wait,
    Cell,
    Crosshair,
    Text,
    VerticalText,
    Alias,
    Copy,
    Move,
    NoDrop,
    NotAllowed,
    Grab,
    Grabbing,
    EResize,
    NResize,
    NeResize,
    NwResize,
    SResize,
    SeResize,
    SwResize,
    WResize,
    EwResize,
    NsResize,
    NeswResize,
    NwseResize,
    ColResize,
    RowResize,
    AllScroll,
    ZoomIn,
    ZoomOut,
}

/// The bit of the close button in a [`WindowButtons`].
pub const CLOSE: u32 = 1;

/// The bit of the minimize button in a [`WindowButtons`].
pub const MINIMIZE: u32 = 2;

/// The bit of the maximize button in a [`WindowButtons`].
pub const MAXIMIZE: u32 = 4;

/// A set of title-bar buttons, one bit for each.
#[derive(Clone, Copy, Debug, PartialEq, Eq, Structural)]
pub struct WindowButtons {
    pub bits: u32,
}

impl WindowButtons {
    /// Whether the set holds every button whose bit is set in `flag`.
    pub open spec fn has(self, flag: u32) -> bool {
        self.bits & flag == flag
    }

    /// The set without any button.
    pub fn empty() -> (buttons: WindowButtons)
        ensures
            buttons.bits == 0,
    {
        WindowButtons { bits: 0 }
    }

    /// Adds the buttons whose bits are set in `flag`.
    pub fn insert(&mut self, flag: u32)
        ensures
            final(self).bits == old(self).bits | flag,
    {
        self.bits = self.bits | flag;
    }

    /// Whether the set holds every button whose bit is set in `flag`.
    pub fn contains(&self, flag: u32) -> (held: bool)
        ensures
            held == self.has(flag),
    {
        self.bits & flag == flag
    }
}

/// The attributes that a native window is created with.
#[derive(Clone, Debug)]
pub struct WindowAttributes {
    /// The size of the client area, where one is asked for.
    pub inner_size: Option<Size>,
    /// The smallest size of the client area.
    pub min_inner_size: Option<Size>,
    /// The largest size of the client area, where there is a bound.
    pub max_inner_size: Option<Size>,
    /// The position, where the window manager is not left to choose.
    pub position: Option<PhysicalPosition>,
    /// Whether the user may resize the window.
    pub resizable: bool,
    /// Which buttons of the title bar are enabled.
    pub enabled_buttons: WindowButtons,
    /// The text of the title bar.
    pub title: String,
    /// Whether the window is maximized.
    pub maximized: bool,
    /// Whether the window is shown as soon as it exists.
    pub visible: bool,
    /// Whether the window's background lets what is behind it show.
    pub transparent: bool,
    /// Whether the window has a frame.
    pub decorations: bool,
    /// The colour theme of the frame, where one is asked for.
    pub preferred_theme: Option<Theme>,
    /// Where the window stands in the stacking order.
    pub window_level: WindowLevel,
    /// Whether the window takes the input focus when it appears.
    pub active: bool,
    /// The fullscreen mode, if the window is fullscreen.
    pub fullscreen: Option<Fullscreen>,
    /// The application name that the host files the window under.
    pub name: Option<String>,
    /// Whether the window manager is told to leave the window alone.
    pub override_redirect: bool,
    /// The kind of window that the window manager is told of.
    pub window_type: WindowType,
    /// The native window that this one is embedded in, if any.
    pub embed_parent_window: Option<u32>,
}

} // verus!
