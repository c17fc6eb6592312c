//! What can go wrong, and how bad it is.

use vstd::prelude::*;

verus! {

/// The kinds of errors of a wallpaper process.
#[derive(Clone, Copy, Debug, PartialEq, Eq, Structural)]
pub enum ErrorKind {
    /// A window asks for something that cannot be translated.
    Configuration,
    /// The display server refused to create a window.
    NativeCreation,
    /// A monitor selection found no monitor.
    MonitorResolutionMiss,
    /// A request about the cursor was refused.
    CursorOperation,
    /// A request of a frame was refused.
    CompositorPublish,
}

/// Whether an error of the kind ends the process. The others are reported,
/// and the window or the frame they befell does without.
pub open spec fn is_fatal_spec(kind: ErrorKind) -> bool {
    kind == ErrorKind::Configuration || kind == ErrorKind::NativeCreation
}

impl ErrorKind {
    /// Whether an error of the kind ends the process.
    pub fn is_fatal(self) -> (fatal: bool)
        ensures
            fatal == is_fatal_spec(self),
    {
        match self {
            ErrorKind::Configuration => true,
            ErrorKind::NativeCreation => true,
            ErrorKind::MonitorResolutionMiss => false,
            ErrorKind::CursorOperation => false,
            ErrorKind::CompositorPublish => false,
        }
    }
}

} // verus!
