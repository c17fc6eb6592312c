//! Window identity, monitor resolution and frame hand-off for a desktop
//! wallpaper renderer.
//!
//! The crate holds the decisions of a wallpaper process: which monitor a
//! window is placed on, which attributes its native window is created with,
//! which native window belongs to which scene entity, and in which order a
//! frame is handed to the display server. The host performs the requests that
//! these functions hand out and reports back how they fared.

pub mod attributes;
pub mod compositor;
pub mod converters;
pub mod display_info;
pub mod entity;
pub mod error;
pub mod factory;
pub mod frame;
pub mod grab;
pub mod index;
pub mod monitor;
pub mod native;
pub mod position;
pub mod window;
pub mod winit_windows;
