//! Handing a frame to the display server as the background of the root
//! window.
//!
//! One frame is published by a fixed run of requests. The compositor decides
//! which request comes next; the host sends it and reports whether it worked.
//! Whatever the reports are, every pixmap and graphics context of the frame
//! is freed before the compositor is idle again.

use vstd::prelude::*;
use crate::error::{is_fatal_spec, ErrorKind};
use crate::frame::Frame;

verus! {

/// The requests by which one frame is published, in their order.
#[derive(Clone, Copy, Debug, PartialEq, Eq, Structural)]
pub enum Step {
    /// Allocate a pixmap of the frame's size and the root window's depth.
    CreatePixmap,
    /// Upload the frame's pixels into the pixmap.
    PutImage,
    /// Allocate a graphics context against the root window, without
    /// graphics-exposure events.
    CreateGc,
    /// Flush what is queued, so that what follows comes after it.
    Flush,
    /// Make the pixmap the background of the root window.
    SetBackground,
    /// Clear the root window's area, so that the background is drawn.
    ClearArea,
    /// Free the pixmap.
    FreePixmap,
    /// Free the graphics context.
    FreeGc,
    /// Wait until the display server has answered, so that the frees are
    /// acknowledged before the next frame begins.
    Sync,
}

/// Whether a frame is in flight.
#[derive(Clone, Copy, Debug, PartialEq, Eq, Structural)]
pub enum Phase {
    /// No frame is in flight.
    Idle,
    /// A frame is in flight and the host is busy with this request.
    Publishing(Step),
}

/// Why a frame was not published. The frame is dropped, not retried; the
/// next frame is published as usual.
#[derive(Clone, Copy, Debug, PartialEq, Eq, Structural)]
pub enum CompositorError {
    /// Another frame is in flight: at most one is.
    Busy,
    /// The frame's buffer does not match its width and height, or the frame
    /// is empty or wider or higher than a pixmap can be.
    InvalidFrame,
    /// No frame is in flight, so there is nothing to report on.
    NotPublishing,
    /// The display server refused this request.
    Failed(Step),
}

impl CompositorError {
    /// The kind of the error. Whatever befalls a frame is an error of
    /// publishing, which never ends the process.
    pub fn kind(self) -> (kind: ErrorKind)
        ensures
            kind == ErrorKind::CompositorPublish,
            !is_fatal_spec(kind),
    {
        ErrorKind::CompositorPublish
    }
}

/// A request to the display server: a step of a frame, with what it speaks
/// of.
#[derive(Clone, Copy, Debug, PartialEq, Eq, Structural)]
pub enum Request {
    /// Allocate the pixmap `pixmap`, of this size and of the root window's
    /// depth.
    CreatePixmap { pixmap: u32, width: u16, height: u16 },
    /// Upload the frame's image, which is of this size, into the pixmap.
    PutImage { pixmap: u32, width: u16, height: u16 },
    /// Allocate the graphics context `gc` against the root window, without
    /// graphics-exposure events.
    CreateGc { gc: u32 },
    /// Flush what is queued.
    Flush,
    /// Make the pixmap the background of the root window.
    SetBackground { pixmap: u32 },
    /// Clear this area of the root window, from its top left corner.
    ClearArea { width: u16, height: u16 },
    /// Free the pixmap.
    FreePixmap { pixmap: u32 },
    /// Free the graphics context.
    FreeGc { gc: u32 },
    /// Wait until the display server has answered.
    Sync,
}

/// What the host is to do after a report.
#[derive(Clone, Copy, Debug, PartialEq, Eq)]
pub enum Progress {
    /// Send this request next.
    Next(Request),
    /// The frame is done with: it was published, or it was dropped for the
    /// reason given.
    Finished(Result<(), CompositorError>),
}

/// What the compositor knows while it publishes frames.
#[derive(Clone, Copy, Debug, PartialEq, Eq, Structural)]
pub struct Ledger {
    /// Whether a frame is in flight, and how far it has come.
    pub phase: Phase,
    /// Whether the frame's pixmap exists on the display server.
    pub pixmap_live: bool,
    /// Whether the frame's graphics context exists on the display server.
    pub gc_live: bool,
    /// The first request of the frame that the display server refused.
    pub failure: Option<Step>,
}

impl Ledger {
    /// The ledger of a compositor that has not published anything.
    pub open spec fn idle() -> Ledger {
        Ledger { phase: Phase::Idle, pixmap_live: false, gc_live: false, failure: None }
    }

    /// The number of pixmaps and graphics contexts that exist on the display
    /// server on behalf of the compositor.
    pub open spec fn live_resources(self) -> nat {
        (if self.pixmap_live {
            1nat
        } else {
            0nat
        }) + (if self.gc_live {
            1nat
        } else {
            0nat
        })
    }

    /// Whether no frame is in flight.
    pub open spec fn is_idle(self) -> bool {
        self.phase == Phase::Idle
    }

    /// A compositor that is idle holds nothing on the display server, and a
    /// resource exists only from its allocation to its release.
    pub open spec fn wf(self) -> bool {
        match self.phase {
            Phase::Idle => !self.pixmap_live && !self.gc_live,
            Phase::Publishing(step) => match step {
                Step::CreatePixmap => !self.pixmap_live && !self.gc_live && self.failure is None,
                Step::PutImage => self.pixmap_live && !self.gc_live && self.failure is None,
                Step::CreateGc => self.pixmap_live && !self.gc_live && self.failure is None,
                Step::Flush => self.pixmap_live && self.gc_live && self.failure is None,
                Step::SetBackground => self.pixmap_live && self.gc_live && self.failure is None,
                Step::ClearArea => self.pixmap_live && self.gc_live && self.failure is None,
                Step::FreePixmap => self.pixmap_live,
                Step::FreeGc => !self.pixmap_live && self.gc_live,
                Step::Sync => !self.pixmap_live && !self.gc_live,
            },
        }
    }

    /// The ledger once a frame has begun: the first request is under way.
    pub open spec fn begun(self) -> Ledger {
        Ledger {
            phase: Phase::Publishing(Step::CreatePixmap),
            pixmap_live: false,
            gc_live: false,
            failure: None,
        }
    }

    /// Where the release of the frame's resources starts: at the pixmap if
    /// it exists, else at the graphics context if it exists; with nothing to
    /// release the frame is done with.
    pub open spec fn cleanup(self) -> Phase {
        if self.pixmap_live {
            Phase::Publishing(Step::FreePixmap)
        } else if self.gc_live {
            Phase::Publishing(Step::FreeGc)
        } else {
            Phase::Idle
        }
    }

    /// The first refusal of the frame, once `step` has been reported on.
    pub open spec fn noted(self, step: Step, succeeded: bool) -> Option<Step> {
        if self.failure is None && !succeeded {
            Some(step)
        } else {
            self.failure
        }
    }

    /// The ledger after the host has reported on the request under way.
    ///
    /// A request that worked is followed by the next one. The first refusal
    /// ends the frame: what is left of the run is skipped, and what was
    /// allocated is freed. A release is followed by the next release and the
    /// final round trip whether or not it was refused.
    pub open spec fn after(self, succeeded: bool) -> Ledger {
        match self.phase {
            Phase::Idle => self,
            Phase::Publishing(step) => {
                let failure = self.noted(step, succeeded);
                match step {
                    Step::CreatePixmap => if succeeded {
                        Ledger {
                            phase: Phase::Publishing(Step::PutImage),
                            pixmap_live: true,
                            ..self
                        }
                    } else {
                        Ledger { phase: self.cleanup(), failure, ..self }
                    },
                    Step::PutImage => if succeeded {
                        Ledger { phase: Phase::Publishing(Step::CreateGc), ..self }
                    } else {
                        Ledger { phase: self.cleanup(), failure, ..self }
                    },
                    Step::CreateGc => if succeeded {
                        Ledger { phase: Phase::Publishing(Step::Flush), gc_live: true, ..self }
                    } else {
                        Ledger { phase: self.cleanup(), failure, ..self }
                    },
                    Step::Flush => if succeeded {
                        Ledger { phase: Phase::Publishing(Step::SetBackground), ..self }
                    } else {
                        Ledger { phase: self.cleanup(), failure, ..self }
                    },
                    Step::SetBackground => if succeeded {
                        Ledger { phase: Phase::Publishing(Step::ClearArea), ..self }
                    } else {
                        Ledger { phase: self.cleanup(), failure, ..self }
                    },
                    Step::ClearArea => Ledger { phase: self.cleanup(), failure, ..self },
                    Step::FreePixmap => Ledger {
                        phase: if self.gc_live {
                            Phase::Publishing(Step::FreeGc)
                        } else {
                            Phase::Publishing(Step::Sync)
                        },
                        pixmap_live: false,
                        failure,
                        ..self
                    },
                    Step::FreeGc => Ledger {
                        phase: Phase::Publishing(Step::Sync),
                        gc_live: false,
                        failure,
                        ..self
                    },
                    Step::Sync => Ledger { phase: Phase::Idle, failure, ..self },
                }
            },
        }
    }

    /// How the last frame ended, once the compositor is idle again.
    pub open spec fn verdict(self) -> Result<(), CompositorError> {
        match self.failure {
            Some(step) => Err(CompositorError::Failed(step)),
            None => Ok(()),
        }
    }

    /// The ledger after the host has reported on one request after the other,
    /// as `reports` says.
    pub open spec fn after_all(self, reports: Seq<bool>) -> Ledger
        decreases reports.len(),
    {
        if reports.len() == 0 {
            self
        } else {
            self.after(reports[0]).after_all(reports.skip(1))
        }
    }

    /// The ledger after the host has reported on the first `n` requests of a
    /// run.
    pub open spec fn after_first(self, reports: Seq<bool>, n: nat) -> Ledger
        decreases n,
    {
        if n == 0 {
            self
        } else {
            self.after_first(reports, (n - 1) as nat).after(reports[n - 1])
        }
    }

    /// The ledger after a whole frame was published from an idle
    /// compositor, the host reporting as `reports` says.
    pub open spec fn after_publish(self, reports: Seq<bool>) -> Ledger {
        self.begun().after_all(reports)
    }

    /// The ledger after one frame after the other was published, each with
    /// its own reports.
    pub open spec fn after_frames(self, frames: Seq<Seq<bool>>) -> Ledger
        decreases frames.len(),
    {
        if frames.len() == 0 {
            self
        } else {
            self.after_publish(frames[0]).after_frames(frames.skip(1))
        }
    }

    /// An upper bound on the number of reports that the frame still needs.
    pub open spec fn reports_left(self) -> nat {
        match self.phase {
            Phase::Idle => 0,
            Phase::Publishing(step) => match step {
                Step::CreatePixmap => 9,
                Step::PutImage => 8,
                Step::CreateGc => 7,
                Step::Flush => 6,
                Step::SetBackground => 5,
                Step::ClearArea => 4,
                Step::FreePixmap => 3,
                Step::FreeGc => 2,
                Step::Sync => 1,
            },
        }
    }
}

/// The number of reports after which every frame is done with.
pub const REPORTS_PER_FRAME: usize = 9;

/// What the requests of one frame speak of: the ids that the host has
/// reserved for the frame's pixmap and graphics context, and the frame's
/// size.
#[derive(Clone, Copy, Debug, PartialEq, Eq, Structural)]
pub struct Target {
    /// The id reserved for the frame's pixmap.
    pub pixmap: u32,
    /// The id reserved for the frame's graphics context.
    pub gc: u32,
    /// The frame's width in pixels.
    pub width: u16,
    /// The frame's height in pixels.
    pub height: u16,
}

/// The request that stands for a step of a frame with the given target.
pub open spec fn request_for(step: Step, target: Target) -> Request {
    match step {
        Step::CreatePixmap => Request::CreatePixmap {
            pixmap: target.pixmap,
            width: target.width,
            height: target.height,
        },
        Step::PutImage => Request::PutImage {
            pixmap: target.pixmap,
            width: target.width,
            height: target.height,
        },
        Step::CreateGc => Request::CreateGc { gc: target.gc },
        Step::Flush => Request::Flush,
        Step::SetBackground => Request::SetBackground { pixmap: target.pixmap },
        Step::ClearArea => Request::ClearArea { width: target.width, height: target.height },
        Step::FreePixmap => Request::FreePixmap { pixmap: target.pixmap },
        Step::FreeGc => Request::FreeGc { gc: target.gc },
        Step::Sync => Request::Sync,
    }
}

/// What the host is told once a report has led to the ledger `ledger`.
pub open spec fn progress_for(ledger: Ledger, target: Target) -> Progress {
    match ledger.phase {
        Phase::Idle => Progress::Finished(ledger.verdict()),
        Phase::Publishing(step) => Progress::Next(request_for(step, target)),
    }
}

/// The compositor that publishes frames as the background of the root
/// window, one at a time.
pub struct FrameCompositor {
    ledger: Ledger,
    target: Target,
}

impl View for FrameCompositor {
    type V = Ledger;

    closed spec fn view(&self) -> Ledger {
        self.ledger
    }
}

impl Default for FrameCompositor {
    /// A compositor that is idle and holds nothing on the display server.
    fn default() -> (compositor: Self)
        ensures
            compositor@ == Ledger::idle(),
    {
        FrameCompositor::new()
    }
}

impl FrameCompositor {
    #[verifier::type_invariant]
    spec fn ledger_is_wf(self) -> bool {
        self.ledger.wf()
    }

    /// What the requests of the frame in flight speak of.
    pub closed spec fn spec_target(self) -> Target {
        self.target
    }

    /// A compositor that is idle and holds nothing on the display server.
    pub fn new() -> (compositor: FrameCompositor)
        ensures
            compositor@ == Ledger::idle(),
    {
        FrameCompositor {
            ledger: Ledger { phase: Phase::Idle, pixmap_live: false, gc_live: false, failure: None },
            target: Target { pixmap: 0, gc: 0, width: 0, height: 0 },
        }
    }

    /// Whether no frame is in flight.
    pub fn is_idle(&self) -> (idle: bool)
        ensures
            idle == self@.is_idle(),
    {
        match self.ledger.phase {
            Phase::Idle => true,
            Phase::Publishing(_) => false,
        }
    }

    /// The number of pixmaps and graphics contexts that exist on the display
    /// server on behalf of the compositor. It is zero whenever the
    /// compositor is idle.
    pub fn live_resources(&self) -> (count: usize)
        ensures
            count == self@.live_resources(),
            self@.is_idle() ==> count == 0,
    {
        proof {
            use_type_invariant(self);
        }
        let pixmaps: usize = if self.ledger.pixmap_live {
            1
        } else {
            0
        };
        let contexts: usize = if self.ledger.gc_live {
            1
        } else {
            0
        };
        pixmaps + contexts
    }

    /// What the requests of the frame in flight speak of.
    pub fn target(&self) -> (target: Target)
        ensures
            target == self.spec_target(),
    {
        self.target
    }

    /// Begins to publish `frame`. `pixmap` and `gc` are the ids that the
    /// host has reserved for the frame's pixmap and graphics context.
    ///
    /// A frame is refused while another one is in flight, and when its
    /// buffer does not match its size; the compositor is then left as it
    /// was. Otherwise the first request of the frame is handed out. The
    /// frame itself is not kept.
    pub fn begin(&mut self, frame: &Frame, pixmap: u32, gc: u32) -> (first: Result<
        Request,
        CompositorError,
    >)
        ensures
            !old(self)@.is_idle() ==> first == Err::<Request, CompositorError>(
                CompositorError::Busy,
            ),
            old(self)@.is_idle() && !frame.is_valid() ==> first == Err::<Request, CompositorError>(
                CompositorError::InvalidFrame,
            ),
            first is Err ==> final(self)@ == old(self)@ && final(self).spec_target() == old(
                self,
            ).spec_target(),
            old(self)@.is_idle() && frame.is_valid() ==> {
                &&& final(self)@ == old(self)@.begun()
                &&& final(self).spec_target() == (Target {
                    pixmap,
                    gc,
                    width: frame.width as u16,
                    height: frame.height as u16,
                })
                &&& first == Ok::<Request, CompositorError>(
                    request_for(Step::CreatePixmap, final(self).spec_target()),
                )
            },
    {
        proof {
            use_type_invariant(&*self);
        }
        if !self.is_idle() {
            return Err(CompositorError::Busy);
        }
        if !frame.check() {
            return Err(CompositorError::InvalidFrame);
        }
        let target = Target { pixmap, gc, width: frame.width as u16, height: frame.height as u16 };
        self.target = target;
        self.ledger = Ledger {
            phase: Phase::Publishing(Step::CreatePixmap),
            pixmap_live: false,
            gc_live: false,
            failure: None,
        };
        Ok(Request::CreatePixmap { pixmap, width: target.width, height: target.height })
    }

    /// Takes the host's report on the request under way and says what comes
    /// next: another request, or the end of the frame with its outcome.
    ///
    /// Without a frame in flight there is nothing to report on, and the
    /// compositor stays idle.
    pub fn advance(&mut self, succeeded: bool) -> (progress: Progress)
        ensures
            final(self)@ == old(self)@.after(succeeded),
            final(self).spec_target() == old(self).spec_target(),
            old(self)@.is_idle() ==> progress == Progress::Finished(
                Err(CompositorError::NotPublishing),
            ),
            !old(self)@.is_idle() ==> progress == progress_for(
                final(self)@,
                final(self).spec_target(),
            ),
    {
        proof {
            use_type_invariant(&*self);
            self.ledger.lemma_after_keeps_wf(succeeded);
        }
        let step = match self.ledger.phase {
            Phase::Idle => {
                return Progress::Finished(Err(CompositorError::NotPublishing));
            },
            Phase::Publishing(step) => step,
        };
        let failure = if self.ledger.failure.is_none() && !succeeded {
            Some(step)
        } else {
            self.ledger.failure
        };
        let cleanup = if self.ledger.pixmap_live {
            Phase::Publishing(Step::FreePixmap)
        } else if self.ledger.gc_live {
            Phase::Publishing(Step::FreeGc)
        } else {
            Phase::Idle
        };
        let mut next = self.ledger;
        match step {
            Step::CreatePixmap => {
                if succeeded {
                    next.phase = Phase::Publishing(Step::PutImage);
                    next.pixmap_live = true;
                } else {
                    next.phase = cleanup;
                    next.failure = failure;
                }
            },
            Step::PutImage => {
                if succeeded {
                    next.phase = Phase::Publishing(Step::CreateGc);
                } else {
                    next.phase = cleanup;
                    next.failure = failure;
                }
            },
            Step::CreateGc => {
                if succeeded {
                    next.phase = Phase::Publishing(Step::Flush);
                    next.gc_live = true;
                } else {
                    next.phase = cleanup;
                    next.failure = failure;
                }
            },
            Step::Flush => {
                if succeeded {
                    next.phase = Phase::Publishing(Step::SetBackground);
                } else {
                    next.phase = cleanup;
                    next.failure = failure;
                }
            },
            Step::SetBackground => {
                if succeeded {
                    next.phase = Phase::Publishing(Step::ClearArea);
                } else {
                    next.phase = cleanup;
                    next.failure = failure;
                }
            },
            Step::ClearArea => {
                next.phase = cleanup;
                next.failure = failure;
            },
            Step::FreePixmap => {
                next.phase = if self.ledger.gc_live {
                    Phase::Publishing(Step::FreeGc)
                } else {
                    Phase::Publishing(Step::Sync)
                };
                next.pixmap_live = false;
                next.failure = failure;
            },
            Step::FreeGc => {
                next.phase = Phase::Publishing(Step::Sync);
                next.gc_live = false;
                next.failure = failure;
            },
            Step::Sync => {
                next.phase = Phase::Idle;
                next.failure = failure;
            },
        }
        self.ledger = next;
        match next.phase {
            Phase::Idle => Progress::Finished(
                match next.failure {
                    Some(step) => Err(CompositorError::Failed(step)),
                    None => Ok(()),
                },
            ),
            Phase::Publishing(step) => Progress::Next(self.request(step)),
        }
    }

    /// The request that stands for `step` of the frame in flight.
    fn request(&self, step: Step) -> (request: Request)
        ensures
            request == request_for(step, self.spec_target()),
    {
        let target = self.target;
        match step {
            Step::CreatePixmap => Request::CreatePixmap {
                pixmap: target.pixmap,
                width: target.width,
                height: target.height,
            },
            Step::PutImage => Request::PutImage {
                pixmap: target.pixmap,
                width: target.width,
                height: target.height,
            },
            Step::CreateGc => Request::CreateGc { gc: target.gc },
            Step::Flush => Request::Flush,
            Step::SetBackground => Request::SetBackground { pixmap: target.pixmap },
            Step::ClearArea => Request::ClearArea { width: target.width, height: target.height },
            Step::FreePixmap => Request::FreePixmap { pixmap: target.pixmap },
            Step::FreeGc => Request::FreeGc { gc: target.gc },
            Step::Sync => Request::Sync,
        }
    }
}

/// Whether every report says that the request worked.
pub open spec fn all_succeed(reports: Seq<bool>) -> bool {
    forall|i: int| 0 <= i < reports.len() ==> reports[i]
}

impl Ledger {
    /// A report keeps the ledger well formed and brings the frame closer to
    /// its end.
    pub proof fn lemma_after_keeps_wf(self, succeeded: bool)
        requires
            self.wf(),
        ensures
            self.after(succeeded).wf(),
            !self.is_idle() ==> self.after(succeeded).reports_left() < self.reports_left(),
            self.is_idle() ==> self.after(succeeded) == self,
            self.reports_left() <= REPORTS_PER_FRAME,
    {
    }

    /// Once the host has reported often enough, the frame is done with: the
    /// compositor is idle and nothing of the frame exists on the display
    /// server any more, whatever the reports were.
    pub proof fn lemma_frame_ends(self, reports: Seq<bool>)
        requires
            self.wf(),
            reports.len() >= self.reports_left(),
        ensures
            self.after_all(reports).is_idle(),
            self.after_all(reports).wf(),
            self.after_all(reports).live_resources() == 0,
        decreases reports.len(),
    {
        self.lemma_after_keeps_wf(true);
        if reports.len() > 0 {
            self.lemma_after_keeps_wf(reports[0]);
            self.after(reports[0]).lemma_frame_ends(reports.skip(1));
        }
    }

    /// After a frame was published nothing of it is left on the display
    /// server, whether it was published or dropped.
    pub proof fn lemma_publish_releases_everything(self, reports: Seq<bool>)
        requires
            reports.len() >= REPORTS_PER_FRAME,
        ensures
            self.after_publish(reports).is_idle(),
            self.after_publish(reports).wf(),
            self.after_publish(reports).live_resources() == 0,
    {
        self.begun().lemma_frame_ends(reports);
    }

    /// However many frames are published one after the other, and whatever
    /// the host reports on them, no pixmap and no graphics context of the
    /// compositor is left on the display server at the end.
    pub proof fn lemma_no_resource_outlives_its_frame(self, frames: Seq<Seq<bool>>)
        requires
            self.wf(),
            self.is_idle(),
            forall|i: int| 0 <= i < frames.len() ==> (#[trigger] frames[i]).len()
                >= REPORTS_PER_FRAME,
        ensures
            self.after_frames(frames).is_idle(),
            self.after_frames(frames).wf(),
            self.after_frames(frames).live_resources() == 0,
        decreases frames.len(),
    {
        if frames.len() > 0 {
            self.lemma_publish_releases_everything(frames[0]);
            let rest = frames.skip(1);
            assert forall|i: int| 0 <= i < rest.len() implies (#[trigger] rest[i]).len()
                >= REPORTS_PER_FRAME by {
                assert(rest[i] == frames[i + 1]);
            }
            self.after_publish(frames[0]).lemma_no_resource_outlives_its_frame(rest);
        }
    }

    /// A frame all of whose requests work is published.
    pub proof fn lemma_good_frame_is_published(self, reports: Seq<bool>)
        requires
            reports.len() >= REPORTS_PER_FRAME,
            all_succeed(reports),
        ensures
            self.after_publish(reports).is_idle(),
            self.after_publish(reports).verdict() == Ok::<(), CompositorError>(()),
            self.after_publish(reports).live_resources() == 0,
    {
        let begun = self.begun();
        reveal_with_fuel(Ledger::after_first, 10);
        let done = begun.after_first(reports, 9);
        assert(done.is_idle() && done.failure is None);
        Self::lemma_after_all_splits(begun, reports, 9);
        done.lemma_idle_stays(reports.skip(9));
    }

    /// While all requests work, the frame goes through its nine steps in
    /// their order: the pixmap is allocated, filled, the graphics context
    /// allocated, the queue flushed, the background set, the area cleared,
    /// pixmap and graphics context freed, and the round trip made.
    pub proof fn lemma_good_frame_takes_every_step(self, reports: Seq<bool>)
        requires
            reports.len() >= REPORTS_PER_FRAME,
            all_succeed(reports),
        ensures
            self.begun().after_first(reports, 0).phase == Phase::Publishing(Step::CreatePixmap),
            self.begun().after_first(reports, 1).phase == Phase::Publishing(Step::PutImage),
            self.begun().after_first(reports, 2).phase == Phase::Publishing(Step::CreateGc),
            self.begun().after_first(reports, 3).phase == Phase::Publishing(Step::Flush),
            self.begun().after_first(reports, 4).phase == Phase::Publishing(Step::SetBackground),
            self.begun().after_first(reports, 5).phase == Phase::Publishing(Step::ClearArea),
            self.begun().after_first(reports, 6).phase == Phase::Publishing(Step::FreePixmap),
            self.begun().after_first(reports, 7).phase == Phase::Publishing(Step::FreeGc),
            self.begun().after_first(reports, 8).phase == Phase::Publishing(Step::Sync),
            self.begun().after_first(reports, 9).phase == Phase::Idle,
    {
        reveal_with_fuel(Ledger::after_first, 10);
    }

    /// Once a request of a frame was refused, nothing is asked of the
    /// display server for that frame but to release what was allocated and
    /// to make the round trip.
    pub proof fn lemma_refusal_skips_the_rest(self, succeeded: bool)
        requires
            self.wf(),
            !self.is_idle(),
            !succeeded || self.failure is Some,
        ensures
            self.after(succeeded).failure is Some,
            self.after(succeeded).phase == Phase::Idle || self.after(succeeded).phase
                == Phase::Publishing(Step::FreePixmap) || self.after(succeeded).phase
                == Phase::Publishing(Step::FreeGc) || self.after(succeeded).phase
                == Phase::Publishing(Step::Sync),
            self.after(succeeded).live_resources() <= self.live_resources(),
    {
    }

    /// The outcome of a frame is the first refusal of the frame: a later
    /// refusal does not take its place.
    pub proof fn lemma_first_refusal_is_kept(self, succeeded: bool)
        requires
            self.failure is Some,
        ensures
            self.after(succeeded).failure == self.failure,
    {
    }

    /// A frame whose upload is refused is dropped with that refusal as its
    /// outcome, and its pixmap is freed.
    pub proof fn lemma_failed_upload_is_reported(self, reports: Seq<bool>)
        requires
            reports.len() >= REPORTS_PER_FRAME,
            reports[0],
            !reports[1],
        ensures
            self.after_publish(reports).is_idle(),
            self.after_publish(reports).verdict() == Err::<(), CompositorError>(
                CompositorError::Failed(Step::PutImage),
            ),
            self.after_publish(reports).live_resources() == 0,
    {
        let begun = self.begun();
        reveal_with_fuel(Ledger::after_first, 5);
        let done = begun.after_first(reports, 4);
        assert(done.is_idle() && done.failure == Some(Step::PutImage));
        Self::lemma_after_all_splits(begun, reports, 4);
        done.lemma_idle_stays(reports.skip(4));
    }

    /// A frame that was dropped does not stand in the way of the next one:
    /// the next frame is published if all of its requests work, and nothing
    /// is left on the display server.
    pub proof fn lemma_failure_is_isolated(self, failed: Seq<bool>, next: Seq<bool>)
        requires
            self.wf(),
            self.is_idle(),
            failed.len() >= REPORTS_PER_FRAME,
            next.len() >= REPORTS_PER_FRAME,
            all_succeed(next),
        ensures
            self.after_publish(failed).is_idle(),
            self.after_publish(failed).live_resources() == 0,
            self.after_publish(failed).after_publish(next).is_idle(),
            self.after_publish(failed).after_publish(next).verdict() == Ok::<(), CompositorError>(
                (),
            ),
            self.after_publish(failed).after_publish(next).live_resources() == 0,
    {
        self.lemma_publish_releases_everything(failed);
        self.after_publish(failed).lemma_good_frame_is_published(next);
    }

    /// Reports on an idle compositor change nothing.
    pub proof fn lemma_idle_stays(self, reports: Seq<bool>)
        requires
            self.is_idle(),
        ensures
            self.after_all(reports) == self,
        decreases reports.len(),
    {
        if reports.len() > 0 {
            self.lemma_idle_stays(reports.skip(1));
        }
    }

    /// Reporting on a run of requests is reporting on its first `n` and then
    /// on the rest.
    pub proof fn lemma_after_all_splits(ledger: Ledger, reports: Seq<bool>, n: nat)
        requires
            n <= reports.len(),
        ensures
            ledger.after_all(reports) == ledger.after_first(reports, n).after_all(
                reports.skip(n as int),
            ),
        decreases n,
    {
        if n == 0 {
            assert(reports.skip(0) =~= reports);
        } else {
            Self::lemma_after_all_splits(ledger, reports, (n - 1) as nat);
            let rest = reports.skip(n - 1);
            assert(rest[0] == reports[n - 1]);
            assert(rest.skip(1) =~= reports.skip(n as int));
        }
    }
}

} // verus!
