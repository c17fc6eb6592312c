//! The creation of one native window, request by request.
//!
//! The factory decides; the host acts. The host asks the factory what to do
//! next, does it, and tells the factory whether it worked.

use vstd::prelude::*;
use crate::attributes::{
    missed_selection_spec, mode_is_supported, monitor_selection, resolve_monitor,
    resolve_monitor_spec, supports_mode, translate, translate_spec,
};
use crate::error::ErrorKind;
use crate::grab::{attempt_grab, grab_attempt};
use crate::monitor::{referent, Monitor, MonitorSelection, PhysicalSize, WinitMonitors};
use crate::native::{CursorGrabMode as NativeCursorGrabMode, WindowAttributes};
use crate::window::{CursorGrabMode, CursorOptions, Window};

verus! {

/// How far the creation of a window has come.
#[derive(Clone, Copy, Debug, PartialEq, Eq, Structural)]
pub enum Stage {
    /// The native window is being created.
    Creating,
    /// The window is being shown or hidden.
    Showing,
    /// The cursor is being grabbed; so many requests have failed so far.
    Grabbing(u8),
    /// The cursor is being shown or hidden.
    ShowingCursor,
    /// The window is being made transparent to the cursor.
    HitTesting,
    /// Everything is applied: the window is ready for the registry.
    Registering,
    /// The host could not create the native window.
    Failed,
}

/// What the factory asks of the host.
#[derive(Clone, Copy, Debug, PartialEq, Eq, Structural)]
pub enum Request {
    /// Create the native window from the factory's attributes.
    CreateWindow,
    /// Show or hide the window.
    SetVisible(bool),
    /// Hold the cursor in this mode.
    SetCursorGrab(NativeCursorGrabMode),
    /// Show or hide the cursor.
    SetCursorVisible(bool),
    /// Let the window receive the cursor's events, or not.
    SetCursorHittest(bool),
    /// Hand the window to the registry.
    Register,
    /// Give up: without its window the process cannot go on.
    Abort,
}

/// The creation of one window: its attributes, what is to be applied once it
/// exists, and how far the host has come.
pub struct WindowFactory {
    attributes: WindowAttributes,
    stage: Stage,
    visible: bool,
    cursor_options: CursorOptions,
    mode_degraded: bool,
    missed_selection: Option<MonitorSelection>,
    grab_refused: bool,
    hit_test_refused: bool,
}

/// The stage that follows the showing of the window: the cursor is grabbed
/// unless it is to move freely.
pub open spec fn stage_after_showing(cursor_options: CursorOptions) -> Stage {
    if cursor_options.grab_mode == CursorGrabMode::Free {
        Stage::ShowingCursor
    } else {
        Stage::Grabbing(0)
    }
}

/// The stage that follows the showing of the cursor: a window that is to
/// receive the cursor's events needs nothing more.
pub open spec fn stage_after_cursor(cursor_options: CursorOptions) -> Stage {
    if cursor_options.hit_test {
        Stage::Registering
    } else {
        Stage::HitTesting
    }
}

/// The stage that follows `stage` once the host has reported whether its
/// request succeeded.
///
/// Only the creation itself can fail the whole: a cursor that cannot be
/// grabbed is grabbed the other way, and what fails then is passed over.
pub open spec fn next_stage(stage: Stage, cursor_options: CursorOptions, succeeded: bool) -> Stage {
    match stage {
        Stage::Creating => if succeeded {
            Stage::Showing
        } else {
            Stage::Failed
        },
        Stage::Showing => stage_after_showing(cursor_options),
        Stage::Grabbing(failures) => if !succeeded && failures < u8::MAX && grab_attempt(
            cursor_options.grab_mode,
            (failures + 1) as nat,
        ) is Some {
            Stage::Grabbing((failures + 1) as u8)
        } else {
            Stage::ShowingCursor
        },
        Stage::ShowingCursor => stage_after_cursor(cursor_options),
        Stage::HitTesting => Stage::Registering,
        Stage::Registering => Stage::Registering,
        Stage::Failed => Stage::Failed,
    }
}

/// What the host is asked for in `stage`.
pub open spec fn request_in(stage: Stage, visible: bool, cursor_options: CursorOptions) -> Request {
    match stage {
        Stage::Creating => Request::CreateWindow,
        Stage::Showing => Request::SetVisible(visible),
        Stage::Grabbing(failures) => match grab_attempt(
            cursor_options.grab_mode,
            failures as nat,
        ) {
            Some(mode) => Request::SetCursorGrab(mode),
            None => Request::SetCursorVisible(cursor_options.visible),
        },
        Stage::ShowingCursor => Request::SetCursorVisible(cursor_options.visible),
        Stage::HitTesting => Request::SetCursorHittest(cursor_options.hit_test),
        Stage::Registering => Request::Register,
        Stage::Failed => Request::Abort,
    }
}

/// The place of a stage in the order in which a window is set up.
pub open spec fn stage_rank(stage: Stage) -> nat {
    match stage {
        Stage::Creating => 0,
        Stage::Showing => 1,
        Stage::Grabbing(_) => 2,
        Stage::ShowingCursor => 3,
        Stage::HitTesting => 4,
        Stage::Registering => 5,
        Stage::Failed => 5,
    }
}

/// An upper bound on the number of reports that the factory still needs.
pub open spec fn reports_left(stage: Stage) -> nat {
    match stage {
        Stage::Creating => 6,
        Stage::Showing => 5,
        Stage::Grabbing(failures) => if failures == 0 {
            4
        } else {
            3
        },
        Stage::ShowingCursor => 2,
        Stage::HitTesting => 1,
        Stage::Registering => 0,
        Stage::Failed => 0,
    }
}

impl WindowFactory {
    #[verifier::type_invariant]
    spec fn grabbing_has_a_mode(self) -> bool {
        self.stage matches Stage::Grabbing(failures) ==> {
            &&& failures <= 1
            &&& grab_attempt(self.cursor_options.grab_mode, failures as nat) is Some
        }
    }

    /// The attributes that the native window is created with.
    pub closed spec fn spec_attributes(self) -> WindowAttributes {
        self.attributes
    }

    /// How far the creation has come.
    pub closed spec fn spec_stage(self) -> Stage {
        self.stage
    }

    /// Whether the window is to be shown.
    pub closed spec fn spec_visible(self) -> bool {
        self.visible
    }

    /// What the window asks of the cursor.
    pub closed spec fn spec_cursor_options(self) -> CursorOptions {
        self.cursor_options
    }

    /// Whether the window asked for a mode that is not built in and is
    /// created as an ordinary window instead.
    pub closed spec fn spec_mode_degraded(self) -> bool {
        self.mode_degraded
    }

    /// The selection of the window that found no monitor, if there is one.
    pub closed spec fn spec_missed_selection(self) -> Option<MonitorSelection> {
        self.missed_selection
    }

    /// Whether every way of grabbing the cursor was refused.
    pub closed spec fn spec_grab_refused(self) -> bool {
        self.grab_refused
    }

    /// Whether the host refused to make the window transparent to the cursor.
    pub closed spec fn spec_hit_test_refused(self) -> bool {
        self.hit_test_refused
    }

    /// What the host is asked for now.
    pub open spec fn spec_request(self) -> Request {
        request_in(self.spec_stage(), self.spec_visible(), self.spec_cursor_options())
    }

    /// Starts the creation of the native window for `window`: resolves its
    /// monitor and translates its attributes. The first request is to create
    /// the window. `window_size` is the size of the window in physical pixels
    /// on the monitor that [`resolve_monitor`] gives for it.
    pub fn begin(
        window: &Window,
        window_size: PhysicalSize,
        monitors: &WinitMonitors,
        primary_monitor: Option<&Monitor>,
        embed_parent: Option<u32>,
    ) -> (factory: WindowFactory)
        ensures
            factory.spec_attributes() == translate_spec(
                *window,
                window_size,
                resolve_monitor_spec(*window, monitors@, referent(primary_monitor)),
                embed_parent,
            ),
            factory.spec_stage() == Stage::Creating,
            factory.spec_visible() == window.visible,
            factory.spec_cursor_options() == window.cursor_options,
            factory.spec_mode_degraded() == !mode_is_supported(window.mode),
            factory.spec_missed_selection() == missed_selection_spec(
                *window,
                monitors@,
                referent(primary_monitor),
            ),
            !factory.spec_grab_refused(),
            !factory.spec_hit_test_refused(),
    {
        let resolved_monitor = resolve_monitor(window, monitors, primary_monitor);
        let missed_selection = if resolved_monitor.is_none() {
            monitor_selection(window)
        } else {
            None
        };
        WindowFactory {
            attributes: translate(window, window_size, resolved_monitor, embed_parent),
            stage: Stage::Creating,
            visible: window.visible,
            cursor_options: window.cursor_options,
            mode_degraded: !supports_mode(&window.mode),
            missed_selection,
            grab_refused: false,
            hit_test_refused: false,
        }
    }

    /// The attributes that the native window is created with.
    pub fn attributes(&self) -> (attributes: &WindowAttributes)
        ensures
            *attributes == self.spec_attributes(),
    {
        &self.attributes
    }

    /// How far the creation has come.
    pub fn stage(&self) -> (stage: Stage)
        ensures
            stage == self.spec_stage(),
    {
        self.stage
    }

    /// Whether the window asked for a mode that is not built in. It is
    /// created as an ordinary window, and the host reports the fact.
    pub fn mode_degraded(&self) -> (degraded: bool)
        ensures
            degraded == self.spec_mode_degraded(),
    {
        self.mode_degraded
    }

    /// The selection of the window that found no monitor, if there is one.
    /// The window is left to the host's window manager, and the host reports
    /// the miss.
    pub fn missed_selection(&self) -> (missed: Option<MonitorSelection>)
        ensures
            missed == self.spec_missed_selection(),
    {
        self.missed_selection
    }

    /// Whether every way of grabbing the cursor was refused. The window is
    /// usable all the same; the host reports the fact.
    pub fn grab_refused(&self) -> (refused: bool)
        ensures
            refused == self.spec_grab_refused(),
    {
        self.grab_refused
    }

    /// Whether the host refused to make the window transparent to the
    /// cursor. The window is usable all the same; the host reports the fact.
    pub fn hit_test_refused(&self) -> (refused: bool)
        ensures
            refused == self.spec_hit_test_refused(),
    {
        self.hit_test_refused
    }

    /// Whether an error of the kind has befallen the creation so far.
    pub open spec fn spec_has_error(self, kind: ErrorKind) -> bool {
        match kind {
            ErrorKind::Configuration => false,
            ErrorKind::NativeCreation => self.spec_stage() == Stage::Failed,
            ErrorKind::MonitorResolutionMiss => self.spec_missed_selection() is Some,
            ErrorKind::CursorOperation => self.spec_grab_refused() || self.spec_hit_test_refused(),
            ErrorKind::CompositorPublish => false,
        }
    }

    /// Whether an error of the kind has befallen the creation so far.
    ///
    /// Every window that the scene can ask for can be translated, so there
    /// is never an error of configuration; the only error that ends the
    /// process is a native window that the host could not create.
    pub fn has_error(&self, kind: ErrorKind) -> (has: bool)
        ensures
            has == self.spec_has_error(kind),
    {
        match kind {
            ErrorKind::Configuration => false,
            ErrorKind::NativeCreation => match self.stage {
                Stage::Failed => true,
                _ => false,
            },
            ErrorKind::MonitorResolutionMiss => self.missed_selection.is_some(),
            ErrorKind::CursorOperation => self.grab_refused || self.hit_test_refused,
            ErrorKind::CompositorPublish => false,
        }
    }

    /// Whether nothing is left to ask: the window is ready for the registry,
    /// or its creation has failed.
    pub fn is_finished(&self) -> (finished: bool)
        ensures
            finished == (self.spec_stage() == Stage::Registering || self.spec_stage()
                == Stage::Failed),
    {
        match self.stage {
            Stage::Registering => true,
            Stage::Failed => true,
            _ => false,
        }
    }

    /// What the host is to do now.
    pub fn request(&self) -> (request: Request)
        ensures
            request == self.spec_request(),
    {
        proof {
            use_type_invariant(self);
        }
        match self.stage {
            Stage::Creating => Request::CreateWindow,
            Stage::Showing => Request::SetVisible(self.visible),
            Stage::Grabbing(failures) => match attempt_grab(self.cursor_options.grab_mode, failures) {
                Some(mode) => Request::SetCursorGrab(mode),
                None => Request::SetCursorVisible(self.cursor_options.visible),
            },
            Stage::ShowingCursor => Request::SetCursorVisible(self.cursor_options.visible),
            Stage::HitTesting => Request::SetCursorHittest(self.cursor_options.hit_test),
            Stage::Registering => Request::Register,
            Stage::Failed => Request::Abort,
        }
    }

    /// Takes the host's report on the request it was given and moves on.
    ///
    /// The attributes and what the window asks for stay as they are. A
    /// refusal of the last way of grabbing the cursor, or of the hit test,
    /// is noted and passed over.
    pub fn advance(&mut self, succeeded: bool)
        ensures
            final(self).spec_stage() == next_stage(
                old(self).spec_stage(),
                old(self).spec_cursor_options(),
                succeeded,
            ),
            final(self).spec_attributes() == old(self).spec_attributes(),
            final(self).spec_visible() == old(self).spec_visible(),
            final(self).spec_cursor_options() == old(self).spec_cursor_options(),
            final(self).spec_mode_degraded() == old(self).spec_mode_degraded(),
            final(self).spec_missed_selection() == old(self).spec_missed_selection(),
            final(self).spec_grab_refused() == (old(self).spec_grab_refused() || (old(
                self,
            ).spec_stage() is Grabbing && !succeeded && final(self).spec_stage()
                == Stage::ShowingCursor)),
            final(self).spec_hit_test_refused() == (old(self).spec_hit_test_refused() || (old(
                self,
            ).spec_stage() == Stage::HitTesting && !succeeded)),
    {
        proof {
            use_type_invariant(&*self);
        }
        match self.stage {
            Stage::Creating => {
                if succeeded {
                    self.stage = Stage::Showing;
                } else {
                    self.stage = Stage::Failed;
                }
            },
            Stage::Showing => {
                match self.cursor_options.grab_mode {
                    CursorGrabMode::Free => {
                        self.stage = Stage::ShowingCursor;
                    },
                    _ => {
                        self.stage = Stage::Grabbing(0);
                    },
                }
            },
            Stage::Grabbing(failures) => {
                if succeeded {
                    self.stage = Stage::ShowingCursor;
                } else if attempt_grab(self.cursor_options.grab_mode, failures + 1).is_some() {
                    self.stage = Stage::Grabbing(failures + 1);
                } else {
                    self.grab_refused = true;
                    self.stage = Stage::ShowingCursor;
                }
            },
            Stage::ShowingCursor => {
                if self.cursor_options.hit_test {
                    self.stage = Stage::Registering;
                } else {
                    self.stage = Stage::HitTesting;
                }
            },
            Stage::HitTesting => {
                if !succeeded {
                    self.hit_test_refused = true;
                }
                self.stage = Stage::Registering;
            },
            Stage::Registering => {},
            Stage::Failed => {},
        }
    }
}

/// The stage of a creation after the host has reported on its first `n`
/// requests.
pub open spec fn stage_after(cursor_options: CursorOptions, reports: Seq<bool>, n: nat) -> Stage
    decreases n,
{
    if n == 0 {
        Stage::Creating
    } else {
        next_stage(
            stage_after(cursor_options, reports, (n - 1) as nat),
            cursor_options,
            reports[n - 1],
        )
    }
}

/// The number of requests to grab the cursor in a creation whose host
/// reports as `reports` says: none for a cursor that moves freely, one where
/// the first request is granted, else two.
pub open spec fn grab_requests(cursor_options: CursorOptions, reports: Seq<bool>) -> nat {
    if cursor_options.grab_mode == CursorGrabMode::Free {
        0
    } else if reports[2] {
        1
    } else {
        2
    }
}

/// The whole run of a creation whose window the host could create: the
/// window is shown, the cursor is grabbed, once or twice, unless it moves
/// freely, the cursor is shown, the hit test is set unless the window wants
/// the cursor's events, and the window is ready for the registry, after six
/// reports at the latest.
pub proof fn lemma_creation_run(cursor_options: CursorOptions, reports: Seq<bool>)
    requires
        reports.len() >= 6,
        reports[0],
    ensures
        ({
            let grabs = grab_requests(cursor_options, reports);
            &&& stage_after(cursor_options, reports, 1) == Stage::Showing
            &&& grabs >= 1 ==> stage_after(cursor_options, reports, 2) == Stage::Grabbing(0)
            &&& grabs == 2 ==> stage_after(cursor_options, reports, 3) == Stage::Grabbing(1)
            &&& stage_after(cursor_options, reports, 2 + grabs) == Stage::ShowingCursor
            &&& !cursor_options.hit_test ==> stage_after(cursor_options, reports, 3 + grabs)
                == Stage::HitTesting
            &&& cursor_options.hit_test ==> stage_after(cursor_options, reports, 3 + grabs)
                == Stage::Registering
            &&& stage_after(cursor_options, reports, 4 + grabs) == Stage::Registering
            &&& stage_after(cursor_options, reports, 6) == Stage::Registering
        }),
{
    reveal_with_fuel(stage_after, 7);
}

/// A creation whose window the host could not create has failed after the
/// first report, and stays failed.
pub proof fn lemma_failed_creation_run(cursor_options: CursorOptions, reports: Seq<bool>, n: nat)
    requires
        reports.len() >= 1,
        !reports[0],
        n >= 1,
    ensures
        stage_after(cursor_options, reports, n) == Stage::Failed,
    decreases n,
{
    reveal_with_fuel(stage_after, 2);
    if n > 1 {
        lemma_failed_creation_run(cursor_options, reports, (n - 1) as nat);
    }
}

/// Every report brings the factory closer to its end: it needs at most six.
pub proof fn lemma_creation_ends(stage: Stage, cursor_options: CursorOptions, succeeded: bool)
    requires
        stage != Stage::Registering,
        stage != Stage::Failed,
        stage matches Stage::Grabbing(failures) ==> failures <= 1,
    ensures
        reports_left(next_stage(stage, cursor_options, succeeded)) < reports_left(stage),
        reports_left(stage) <= 6,
        next_stage(stage, cursor_options, succeeded) matches Stage::Grabbing(failures)
            ==> failures <= 1 && grab_attempt(cursor_options.grab_mode, failures as nat) is Some,
{
}

/// What a window asks for is applied in a fixed order: the window is shown,
/// the cursor grabbed, the cursor shown, the hit test set. No report takes
/// the factory back.
pub proof fn lemma_creation_keeps_order(
    stage: Stage,
    cursor_options: CursorOptions,
    succeeded: bool,
)
    ensures
        stage_rank(stage) <= stage_rank(next_stage(stage, cursor_options, succeeded)),
        stage_rank(stage) == stage_rank(next_stage(stage, cursor_options, succeeded)) ==> (stage
            is Grabbing || stage == Stage::Registering || stage == Stage::Failed),
{
}

/// Only a failed creation fails the whole: no report on the cursor or on the
/// visibility does.
pub proof fn lemma_only_creation_is_fatal(
    stage: Stage,
    cursor_options: CursorOptions,
    succeeded: bool,
)
    ensures
        next_stage(stage, cursor_options, succeeded) == Stage::Failed <==> (stage == Stage::Failed
            || (stage == Stage::Creating && !succeeded)),
{
}

/// The cursor is never grabbed for a window that lets it move freely, and
/// never made to pass through a window that wants its events.
pub proof fn lemma_nothing_is_asked_in_vain(
    stage: Stage,
    cursor_options: CursorOptions,
    succeeded: bool,
)
    requires
        !(stage is Grabbing),
        stage != Stage::HitTesting,
    ensures
        cursor_options.grab_mode == CursorGrabMode::Free ==> !(next_stage(
            stage,
            cursor_options,
            succeeded,
        ) is Grabbing),
        cursor_options.hit_test ==> next_stage(stage, cursor_options, succeeded)
            != Stage::HitTesting,
{
}

/// Whether the cursor is shown does not depend on how the grab fared: after
/// the grab, the cursor is shown or hidden as the window asked.
pub proof fn lemma_cursor_visibility_is_independent(
    failures: u8,
    visible: bool,
    cursor_options: CursorOptions,
    succeeded: bool,
)
    requires
        next_stage(Stage::Grabbing(failures), cursor_options, succeeded) == Stage::ShowingCursor,
    ensures
        request_in(
            next_stage(Stage::Grabbing(failures), cursor_options, succeeded),
            visible,
            cursor_options,
        ) == Request::SetCursorVisible(cursor_options.visible),
{
}

} // verus!
