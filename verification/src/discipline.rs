//! What every run of a capture session obeys: which native objects are held
//! when an operation is asked for, how a pull ends, and that it ends.

use vstd::prelude::*;
use crate::protocol::{Action, Event, FrameInfo, Ledger, Next, Phase, Stage};
use crate::session::{lemma_len_fits, Control};
use crate::status::{classify, CaptureError, DXGI_ERROR_WAIT_TIMEOUT};

verus! {

impl Ledger {
    /// How many of the handles that live only while a frame is read are
    /// held.
    pub open spec fn transients(self) -> nat {
        (if self.resource {
            1nat
        } else {
            0nat
        }) + (if self.texture {
            1nat
        } else {
            0nat
        }) + (if self.staging {
            1nat
        } else {
            0nat
        })
    }
}

impl Control {
    /// Whether `event` is the kind of answer that the session is waiting
    /// for.
    pub open spec fn answers(self, event: Event) -> bool {
        match self.phase {
            Phase::Fresh | Phase::Idle | Phase::Exposed | Phase::Closed => false,
            Phase::CreatingDevice
            | Phase::Duplicating
            | Phase::QueryingTexture
            | Phase::CreatingStaging
            | Phase::QueryingSurface => event is Status,
            Phase::Describing => event is Description,
            Phase::Acquiring => event is Acquired,
            Phase::FetchingShape => event is Shape,
            Phase::MappingDesktop | Phase::MappingSurface => event is Mapped,
            _ => event is Done,
        }
    }

    /// The session waits for nothing: it is fresh, at rest or closed.
    pub open spec fn settled(self) -> bool {
        self.phase == Phase::Fresh || self.phase == Phase::Idle || self.phase == Phase::Exposed
            || self.phase == Phase::Closed
    }

    /// An upper bound on the operations that the session still asks for
    /// before it waits for nothing.
    pub open spec fn distance(self) -> nat {
        match self.phase {
            Phase::Fresh | Phase::Idle | Phase::Exposed | Phase::Closed => 0,
            Phase::AbortingContext(_) | Phase::ClosingContext | Phase::MappingSurface => 1,
            Phase::AbortingDevice(_) | Phase::ClosingDevice => 2,
            Phase::ClosingDuplication => 3,
            Phase::ClosingSurface => 4,
            Phase::ClosingUnmap => 5,
            Phase::Cleaning(next) => self.held.transients() + if next == Next::MapSurface {
                1nat
            } else {
                0nat
            },
            Phase::Copying => 5,
            Phase::QueryingSurface => 6,
            Phase::SettingPriority => 7,
            Phase::CreatingStaging => 8,
            Phase::QueryingTexture | Phase::MappingDesktop => 9,
            Phase::FetchingShape => 10,
            Phase::Acquiring => 11,
            Phase::ReleasingFrame | Phase::Describing => 12,
            Phase::ReleasingSurface | Phase::UnmappingDesktop | Phase::Duplicating => 13,
            Phase::UnmappingSurface | Phase::CreatingDevice => 14,
        }
    }

    /// What the session holds fits the operation it asks for: it holds what
    /// it asks to give up or unmap, and nothing of a frame when it asks for
    /// the next one.
    pub open spec fn fits(self, action: Action) -> bool {
        let h = self.held;
        match action {
            Action::AcquireFrame { timeout } => {
                &&& self.phase == Phase::Acquiring
                &&& timeout == self.timeout
                &&& h.open()
                &&& h.frame_free()
            },
            Action::ReleaseResource => h.resource,
            Action::ReleaseTexture => h.texture && !h.resource,
            Action::ReleaseStaging => h.staging && !h.texture && !h.resource,
            Action::UnmapSurface => h.surface,
            Action::ReleaseSurface => h.surface && !h.surface_mapped,
            Action::ReleaseDuplication => h.duplication && !h.surface,
            Action::ReleaseDevice => h.device && !h.duplication,
            Action::ReleaseContext => h.context && !h.device,
            Action::Ready => self.phase == Phase::Idle || self.phase == Phase::Exposed,
            Action::Expose { len, draw_cursor } => {
                &&& self.phase == Phase::Exposed
                &&& len == self.len
                &&& len == self.height * self.pitch
            },
            Action::Fail(_) => self.phase == Phase::Idle || self.phase == Phase::Closed,
            Action::Closed => self.phase == Phase::Closed,
            _ => true,
        }
    }

    /// Nothing that is fixed for a session, or for a pull, differs in
    /// `next`: the size of the output, where its pointer reports are placed
    /// and whether the cursor is tracked never change; the data path and the
    /// caller's wait change only with the answer to the description.
    pub open spec fn keeps_setup(self, next: Control) -> bool {
        &&& next.capture_mouse == self.capture_mouse
        &&& next.width == self.width
        &&& next.height == self.height
        &&& next.place == self.place
        &&& (self.phase != Phase::Describing ==> next.timeout == self.timeout && next.fastlane
            == self.fastlane)
    }

    /// What holds of every answered step from `self` to `next` with
    /// `action`: the invariant is kept, the session comes closer to waiting
    /// for nothing, what is fixed stays, what is held fits the
    /// operation, the cursor is to be drawn exactly where it is tracked and
    /// shown, and the session settles exactly when it says so.
    pub open spec fn orderly(self, next: Control, action: Action, visible: bool) -> bool {
        &&& next.inv()
        &&& next.distance() < self.distance()
        &&& self.keeps_setup(next)
        &&& next.fits(action)
        &&& (action is Expose ==> action->Expose_draw_cursor == (self.capture_mouse && visible))
        &&& (next.settled() <==> action is Ready || action is Expose || action is Fail
            || action is Closed)
    }

    proof fn lemma_finish_orderly(self, origin: Control, error: Option<CaptureError>, visible: bool)
        requires
            origin.distance() > 0,
            origin.keeps_setup(self),
            self.width > 0,
            self.height > 0,
            self.at_rest(),
            error is None ==> {
                &&& self.held.in_flight
                &&& self.len_fits()
                &&& if self.fastlane {
                    self.held.desktop_mapped
                } else {
                    self.held.surface_mapped
                }
            },
        ensures
            origin.orderly(self.finish(error, visible).0, self.finish(error, visible).1, visible),
    {
    }

    proof fn lemma_cleanup_orderly(self, origin: Control, next: Next, visible: bool)
        requires
            origin.distance() > self.held.transients() + if next == Next::MapSurface {
                1nat
            } else {
                0nat
            },
            origin.keeps_setup(self),
            (Control {
                phase: Phase::Cleaning(next),
                held: Ledger { resource: true, ..self.held },
                ..self
            }).inv(),
        ensures
            origin.orderly(self.cleanup(next, visible).0, self.cleanup(next, visible).1, visible),
    {
        let h = self.held;
        if !h.resource && !h.texture && !h.staging {
            match next {
                Next::Fail(e) => self.lemma_finish_orderly(origin, Some(e), visible),
                Next::Expose => self.lemma_finish_orderly(origin, None, visible),
                Next::MapSurface => {},
            }
        }
    }

    proof fn lemma_done_orderly(self, visible: bool)
        requires
            self.inv(),
            self.answers(Event::Done),
        ensures
            self.orderly(self.on_done(visible).0, self.on_done(visible).1, visible),
    {
        match self.phase {
            Phase::Copying => {
                self.lemma_cleanup_orderly(self, Next::MapSurface, visible);
            },
            Phase::Cleaning(next) => {
                self.holding(Control::without_first_transient(self.held)).lemma_cleanup_orderly(
                    self,
                    next,
                    visible,
                );
            },
            _ => {},
        }
    }

    proof fn lemma_status_orderly(self, status: i32, visible: bool)
        requires
            self.inv(),
            self.answers(Event::Status(status)),
        ensures
            self.orderly(
                self.on_status(status, visible).0,
                self.on_status(status, visible).1,
                visible,
            ),
    {
        match self.phase {
            Phase::QueryingTexture | Phase::CreatingStaging | Phase::QueryingSurface => {
                if let Some(e) = classify(status) {
                    self.lemma_cleanup_orderly(self, Next::Fail(e), visible);
                }
            },
            _ => {},
        }
    }

    proof fn lemma_acquired_orderly(self, status: i32, info: FrameInfo, visible: bool)
        requires
            self.inv(),
            self.phase == Phase::Acquiring,
        ensures
            self.orderly(
                self.on_acquired(status, info, visible).0,
                self.on_acquired(status, info, visible).1,
                visible,
            ),
    {
        if let Some(e) = classify(status) {
            self.lemma_finish_orderly(self, Some(e), visible);
        }
    }

    proof fn lemma_shape_orderly(self, status: i32, visible: bool)
        requires
            self.inv(),
            self.phase == Phase::FetchingShape,
        ensures
            self.orderly(
                self.on_shape(status, visible).0,
                self.on_shape(status, visible).1,
                visible,
            ),
    {
        if let Some(e) = classify(status) {
            self.lemma_cleanup_orderly(self, Next::Fail(e), visible);
        }
    }

    proof fn lemma_mapped_orderly(self, status: i32, pitch: i32, visible: bool)
        requires
            self.inv(),
            self.phase == Phase::MappingDesktop || self.phase == Phase::MappingSurface,
        ensures
            self.orderly(
                self.on_mapped(status, pitch, visible).0,
                self.on_mapped(status, pitch, visible).1,
                visible,
            ),
    {
        let h = self.held;
        lemma_len_fits(self.height, pitch as u32);
        match self.phase {
            Phase::MappingDesktop => match Control::mapping_failure(status, pitch) {
                Some(e) => self.lemma_cleanup_orderly(self, Next::Fail(e), visible),
                None => self.with_pitch(pitch as u32).holding(
                    Ledger { desktop_mapped: true, ..h },
                ).lemma_cleanup_orderly(self, Next::Expose, visible),
            },
            Phase::MappingSurface => match Control::mapping_failure(status, pitch) {
                Some(e) => self.lemma_finish_orderly(self, Some(e), visible),
                None => self.with_pitch(pitch as u32).holding(
                    Ledger { surface_mapped: true, ..h },
                ).lemma_finish_orderly(self, None, visible),
            },
            _ => {},
        }
    }

    /// Every answered step is orderly.
    pub proof fn lemma_step_orderly(self, event: Event, visible: bool)
        requires
            self.inv(),
            self.answers(event),
        ensures
            self.orderly(self.step(event, visible).0, self.step(event, visible).1, visible),
    {
        match event {
            Event::Done => self.lemma_done_orderly(visible),
            Event::Status(status) => self.lemma_status_orderly(status, visible),
            Event::Description { desktop_image_in_system_memory } => {},
            Event::Acquired { status, info } => self.lemma_acquired_orderly(status, info, visible),
            Event::Shape { status, bytes, layout } => self.lemma_shape_orderly(status, visible),
            Event::Mapped { status, pitch } => self.lemma_mapped_orderly(status, pitch, visible),
        }
    }

    proof fn lemma_done_misused(self, visible: bool)
        requires
            !self.answers(Event::Done),
        ensures
            self.on_done(visible) == self.misuse(),
    {
    }

    proof fn lemma_status_misused(self, status: i32, visible: bool)
        requires
            !self.answers(Event::Status(status)),
        ensures
            self.on_status(status, visible) == self.misuse(),
    {
    }

    /// An event is turned away, and changes nothing, whenever it is not the
    /// kind of answer that the session is waiting for.
    pub proof fn lemma_misuse_changes_nothing(self, event: Event, visible: bool)
        requires
            !self.answers(event),
        ensures
            self.step(event, visible) == (self, Action::Fail(CaptureError::InvalidRequest)),
    {
        match event {
            Event::Done => self.lemma_done_misused(visible),
            Event::Status(status) => self.lemma_status_misused(status, visible),
            Event::Description { desktop_image_in_system_memory } => {
                assert(self.phase != Phase::Describing);
            },
            Event::Acquired { status, info } => {
                assert(self.phase != Phase::Acquiring);
            },
            Event::Shape { status, bytes, layout } => {
                assert(self.phase != Phase::FetchingShape);
            },
            Event::Mapped { status, pitch } => {
                assert(self.phase != Phase::MappingDesktop && self.phase != Phase::MappingSurface);
            },
        }
    }

    /// The first operation of an opening, a pull or a closing fits what the
    /// session holds, and leaves at most 14 operations to follow.
    pub proof fn lemma_calls_orderly(self, timeout: u32)
        requires
            self.inv(),
        ensures
            self.opened().0.inv(),
            self.pulled(timeout).0.inv(),
            self.closing().0.inv(),
            self.phase == Phase::Fresh ==> self.opened().0.fits(self.opened().1)
                && self.opened().0.distance() <= 14,
            self.phase == Phase::Idle || self.phase == Phase::Exposed ==> self.pulled(
                timeout,
            ).0.fits(self.pulled(timeout).1) && self.pulled(timeout).0.distance() <= 14,
            self.settled() && self.phase != Phase::Closed ==> self.closing().0.fits(
                self.closing().1,
            ) && self.closing().0.distance() <= 5,
    {
    }

    /// At most one frame is in flight, and the mapped surface is let go
    /// before the next frame: whenever the session asks for a frame, it
    /// holds no frame, no handle of one, and nothing mapped.
    pub proof fn lemma_one_frame_in_flight(self, event: Event, visible: bool)
        requires
            self.inv(),
            self.answers(event),
        ensures
            self.step(event, visible).1 is AcquireFrame ==> self.step(
                event,
                visible,
            ).0.held.frame_free(),
    {
        self.lemma_step_orderly(event, visible);
    }

    /// Nothing leaks: a session that waits for nothing holds no handle that
    /// lives only while a frame is read, and a fresh or closed one holds
    /// nothing at all.
    pub proof fn lemma_settled_holds_no_transient(self)
        requires
            self.inv(),
            self.settled(),
        ensures
            self.held.no_transients(),
            self.phase == Phase::Fresh || self.phase == Phase::Closed ==> self.held
                == Ledger::spec_empty(),
    {
    }

    /// The wait that the platform is asked for is the caller's: a pull
    /// remembers the caller's wait, no step of it changes that, and the
    /// request for the next frame carries it.
    pub proof fn lemma_wait_is_the_callers(self, event: Event, visible: bool, timeout: u32)
        requires
            self.inv(),
        ensures
            self.phase == Phase::Idle || self.phase == Phase::Exposed ==> self.pulled(
                timeout,
            ).0.timeout == timeout,
            self.answers(event) && self.phase != Phase::Describing ==> self.step(
                event,
                visible,
            ).0.timeout == self.timeout,
            self.answers(event) && self.step(event, visible).1 is AcquireFrame ==> self.step(
                event,
                visible,
            ).1->AcquireFrame_timeout == self.step(event, visible).0.timeout,
    {
        if self.answers(event) {
            self.lemma_step_orderly(event, visible);
        }
    }

    /// A failed wait ends the pull at once with the kind that its status
    /// code stands for, and nothing new is held.
    pub proof fn lemma_failed_wait_is_classified(
        self,
        status: i32,
        info: FrameInfo,
        visible: bool,
    )
        requires
            self.phase == Phase::Acquiring,
            !self.priming,
            classify(status) is Some,
        ensures
            self.step(Event::Acquired { status, info }, visible) == (
                Control { phase: Phase::Idle, ..self },
                Action::Fail(classify(status)->Some_0),
            ),
    {
    }

    /// A wait that elapses without a new frame ends the pull with
    /// `TimedOut`.
    pub proof fn lemma_elapsed_wait_times_out(self, info: FrameInfo, visible: bool)
        requires
            self.phase == Phase::Acquiring,
            !self.priming,
        ensures
            self.step(Event::Acquired { status: DXGI_ERROR_WAIT_TIMEOUT, info }, visible).1
                == Action::Fail(CaptureError::TimedOut),
    {
    }

    /// What is exposed is the whole image: as many bytes as the output has
    /// rows times the reported pitch, and so at least one byte unless the
    /// reported pitch is zero.
    pub proof fn lemma_exposed_image(self, event: Event, visible: bool)
        requires
            self.inv(),
            self.answers(event),
            self.step(event, visible).1 is Expose,
        ensures
            self.step(event, visible).1->Expose_len == self.height * self.step(
                event,
                visible,
            ).0.pitch,
            self.step(event, visible).0.pitch > 0 ==> self.step(event, visible).1->Expose_len > 0,
            self.step(event, visible).0.held.in_flight,
    {
        self.lemma_step_orderly(event, visible);
        lemma_len_fits(self.height, self.step(event, visible).0.pitch);
    }

    /// No step changes the size of the output, where its pointer reports
    /// are placed, or whether the cursor is tracked; and the data path is
    /// chosen once, by the answer to the description.
    pub proof fn lemma_setup_is_kept(self, event: Event, visible: bool)
        requires
            self.inv(),
        ensures
            self.keeps_setup(self.step(event, visible).0),
    {
        if self.answers(event) {
            self.lemma_step_orderly(event, visible);
        } else {
            self.lemma_misuse_changes_nothing(event, visible);
        }
    }

    /// From the successful wait on, the session is in stage `Acquired` and
    /// holds the frame.
    pub proof fn lemma_stage_after_wait(self, status: i32, info: FrameInfo, visible: bool)
        requires
            self.inv(),
            self.phase == Phase::Acquiring,
            classify(status) is None,
        ensures
            self.spec_stage() == Stage::Idle,
            self.step(Event::Acquired { status, info }, visible).0.spec_stage() == Stage::Acquired,
            self.step(Event::Acquired { status, info }, visible).0.held.in_flight,
    {
    }
}

} // verus!
