//! Holding the cursor to a window.

use vstd::prelude::*;
use crate::native::CursorGrabMode as NativeCursorGrabMode;
use crate::window::CursorGrabMode;

verus! {

/// The mode that the host is asked for once `failures` requests for
/// `grab_mode` have failed, or `None` once nothing is left to try.
///
/// A confined cursor falls back to a locked one and a locked cursor to a
/// confined one; releasing the cursor has no fallback.
pub open spec fn grab_attempt(grab_mode: CursorGrabMode, failures: nat) -> Option<
    NativeCursorGrabMode,
> {
    match grab_mode {
        CursorGrabMode::Free => if failures == 0 {
            Some(NativeCursorGrabMode::Free)
        } else {
            None
        },
        CursorGrabMode::Confined => if failures == 0 {
            Some(NativeCursorGrabMode::Confined)
        } else if failures == 1 {
            Some(NativeCursorGrabMode::Locked)
        } else {
            None
        },
        CursorGrabMode::Locked => if failures == 0 {
            Some(NativeCursorGrabMode::Locked)
        } else if failures == 1 {
            Some(NativeCursorGrabMode::Confined)
        } else {
            None
        },
    }
}

/// Tells the host which mode to ask for next when the cursor is to be held
/// in `grab_mode` and `failures` requests have failed so far. `None` means
/// that every mode was refused: the host reports the failure and goes on.
pub fn attempt_grab(grab_mode: CursorGrabMode, failures: u8) -> (next: Option<
    NativeCursorGrabMode,
>)
    ensures
        next == grab_attempt(grab_mode, failures as nat),
{
    match grab_mode {
        CursorGrabMode::Free => if failures == 0 {
            Some(NativeCursorGrabMode::Free)
        } else {
            None
        },
        CursorGrabMode::Confined => if failures == 0 {
            Some(NativeCursorGrabMode::Confined)
        } else if failures == 1 {
            Some(NativeCursorGrabMode::Locked)
        } else {
            None
        },
        CursorGrabMode::Locked => if failures == 0 {
            Some(NativeCursorGrabMode::Locked)
        } else if failures == 1 {
            Some(NativeCursorGrabMode::Confined)
        } else {
            None
        },
    }
}

/// What a failed request is called in a report: releasing the cursor is an
/// "ungrab", everything else a "grab".
pub fn grab_error_description(grab_mode: CursorGrabMode) -> (description: &'static str)
    ensures
        grab_mode == CursorGrabMode::Free ==> description@ == "ungrab"@,
        grab_mode != CursorGrabMode::Free ==> description@ == "grab"@,
{
    match grab_mode {
        CursorGrabMode::Confined | CursorGrabMode::Locked => "grab",
        CursorGrabMode::Free => "ungrab",
    }
}

/// The first request is for the mode that was asked for, the second for the
/// other way of holding the cursor, and there is no third.
pub proof fn lemma_grab_falls_back_once(grab_mode: CursorGrabMode, failures: nat)
    ensures
        grab_attempt(grab_mode, 0) is Some,
        grab_attempt(CursorGrabMode::Confined, 0) == Some(NativeCursorGrabMode::Confined),
        grab_attempt(CursorGrabMode::Confined, 1) == Some(NativeCursorGrabMode::Locked),
        grab_attempt(CursorGrabMode::Locked, 0) == Some(NativeCursorGrabMode::Locked),
        grab_attempt(CursorGrabMode::Locked, 1) == Some(NativeCursorGrabMode::Confined),
        grab_attempt(CursorGrabMode::Free, 1) is None,
        failures >= 2 ==> grab_attempt(grab_mode, failures) is None,
        grab_attempt(grab_mode, failures + 1) is Some ==> grab_attempt(grab_mode, failures) is Some,
{
}

} // verus!
