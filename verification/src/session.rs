//! The course of a capture session as a transition system: from a state and
//! the outcome of the last native operation to the next state and the next
//! operation.

use vstd::prelude::*;
use crate::compose::FrameLayout;
use crate::cursor::{CursorView, Placement};
use crate::protocol::{
    Action, Event, FrameInfo, Ledger, Next, Phase, Stage, CPU_ACCESS_READ, MAP_READ,
    RESOURCE_PRIORITY_MAXIMUM, USAGE_STAGING,
};
use crate::status::{classify, CaptureError, S_OK};

verus! {

/// Everything a session remembers besides the cursor.
#[derive(Clone, Copy, Debug, PartialEq, Eq, Structural)]
pub struct Control {
    /// Whether the cursor is tracked and drawn.
    pub capture_mouse: bool,
    /// Whether the desktop image is mapped directly, without a copy.
    pub fastlane: bool,
    /// Whether the pull under way is the one that ends the opening.
    pub priming: bool,
    /// Width of the output in pixels.
    pub width: u32,
    /// Height of the output in pixels.
    pub height: u32,
    /// Where the output's pointer reports are placed.
    pub place: Placement,
    /// What the session is waiting for.
    pub phase: Phase,
    /// What the session holds.
    pub held: Ledger,
    /// The wait that the caller allowed for the pull under way.
    pub timeout: u32,
    /// Bytes from one row of the mapped image to the next.
    pub pitch: u32,
    /// Length of the mapped image in bytes.
    pub len: u64,
}

/// The mathematical content of a capture session.
pub ghost struct Session {
    /// Everything but the cursor.
    pub control: Control,
    /// The cursor as last believed.
    pub cursor: CursorView,
}

impl Control {
    /// At rest between two pulls: the session is open, no transient handle
    /// of a frame is left, and what is mapped fits the data path.
    pub open spec fn at_rest(self) -> bool {
        let h = self.held;
        &&& h.open()
        &&& h.no_transients()
        &&& (h.surface_mapped ==> h.surface)
        &&& (h.surface ==> !self.fastlane)
        &&& (h.desktop_mapped ==> self.fastlane)
    }

    /// A frame is held with exactly the transient handles given, and nothing
    /// of it is mapped.
    pub open spec fn reading(self, texture: bool, staging: bool, surface: bool) -> bool {
        let h = self.held;
        &&& h.open()
        &&& h.in_flight
        &&& h.resource
        &&& h.texture == texture
        &&& h.staging == staging
        &&& h.surface == surface
        &&& !h.surface_mapped
        &&& !h.desktop_mapped
    }

    /// The mapped image is as long as the output is high, row by row.
    pub open spec fn len_fits(self) -> bool {
        self.len == self.height * self.pitch
    }

    /// What holds of a session in each phase: which native objects it holds
    /// while it waits.
    pub open spec fn inv(self) -> bool {
        let h = self.held;
        &&& self.width > 0
        &&& self.height > 0
        &&& match self.phase {
            Phase::Fresh | Phase::CreatingDevice | Phase::Closed => h == Ledger::spec_empty(),
            Phase::Duplicating | Phase::AbortingDevice(_) | Phase::ClosingDevice => h == (Ledger {
                device: true,
                context: true,
                ..Ledger::spec_empty()
            }),
            Phase::AbortingContext(_) | Phase::ClosingContext => h == (Ledger {
                context: true,
                ..Ledger::spec_empty()
            }),
            Phase::Describing => h == (Ledger {
                device: true,
                context: true,
                duplication: true,
                ..Ledger::spec_empty()
            }),
            Phase::Idle => self.at_rest() && !self.priming,
            Phase::Exposed => {
                &&& self.at_rest()
                &&& !self.priming
                &&& h.in_flight
                &&& self.len_fits()
                &&& if self.fastlane {
                    h.desktop_mapped
                } else {
                    h.surface_mapped
                }
            },
            Phase::UnmappingDesktop => self.at_rest() && !self.priming && self.fastlane,
            Phase::UnmappingSurface => self.at_rest() && !self.priming && h.surface,
            Phase::ReleasingSurface => {
                self.at_rest() && !self.priming && h.surface && !h.surface_mapped
            },
            Phase::ReleasingFrame => {
                &&& self.at_rest()
                &&& !self.priming
                &&& !h.surface
                &&& !h.desktop_mapped
            },
            Phase::Acquiring => {
                &&& h.open()
                &&& h.frame_free()
                &&& (self.priming ==> self.timeout == 0)
            },
            Phase::FetchingShape => self.reading(false, false, false),
            Phase::MappingDesktop => self.reading(false, false, false) && self.fastlane,
            Phase::QueryingTexture => self.reading(false, false, false) && !self.fastlane,
            Phase::CreatingStaging => self.reading(true, false, false) && !self.fastlane,
            Phase::SettingPriority | Phase::QueryingSurface => {
                self.reading(true, true, false) && !self.fastlane
            },
            Phase::Copying => self.reading(true, true, true) && !self.fastlane,
            Phase::Cleaning(next) => {
                &&& h.open()
                &&& h.in_flight
                &&& !h.no_transients()
                &&& !h.surface_mapped
                &&& match next {
                    Next::Fail(_) => !h.surface && !h.desktop_mapped,
                    Next::Expose => {
                        &&& self.fastlane
                        &&& h.desktop_mapped
                        &&& !h.surface
                        &&& self.len_fits()
                    },
                    Next::MapSurface => !self.fastlane && h.surface && !h.desktop_mapped,
                }
            },
            Phase::MappingSurface => {
                &&& h.open()
                &&& h.in_flight
                &&& h.no_transients()
                &&& h.surface
                &&& !h.surface_mapped
                &&& !h.desktop_mapped
                &&& !self.fastlane
            },
            Phase::ClosingUnmap => self.at_rest() && h.surface,
            Phase::ClosingSurface => self.at_rest() && h.surface && !h.surface_mapped,
            Phase::ClosingDuplication => self.at_rest() && !h.surface,
        }
    }

    /// Size and row stride of the image that was last mapped.
    pub open spec fn spec_layout(self) -> FrameLayout {
        FrameLayout { width: self.width, height: self.height, pitch: self.pitch }
    }

    /// Where the session stands between two pulls.
    pub open spec fn spec_stage(self) -> Stage {
        match self.phase {
            Phase::Exposed => Stage::Exposed,
            Phase::FetchingShape
            | Phase::MappingDesktop
            | Phase::QueryingTexture
            | Phase::CreatingStaging
            | Phase::SettingPriority
            | Phase::QueryingSurface
            | Phase::Copying
            | Phase::Cleaning(_)
            | Phase::MappingSurface => Stage::Acquired,
            _ => Stage::Idle,
        }
    }

    /// The session as first built for an output of the given size and place.
    pub open spec fn spec_fresh(capture_mouse: bool, width: u32, height: u32, place: Placement)
        -> Control {
        Control {
            capture_mouse,
            fastlane: false,
            priming: false,
            width,
            height,
            place,
            phase: Phase::Fresh,
            held: Ledger::spec_empty(),
            timeout: 0,
            pitch: 0,
            len: 0,
        }
    }
}

impl Control {
    /// The same state, waiting for something else.
    pub open spec fn at(self, phase: Phase) -> Control {
        Control { phase, ..self }
    }

    /// The same state, holding something else.
    pub open spec fn holding(self, held: Ledger) -> Control {
        Control { held, ..self }
    }

    /// The answer to a call that does not fit the phase: nothing changes.
    pub open spec fn misuse(self) -> (Control, Action) {
        (self, Action::Fail(CaptureError::InvalidRequest))
    }

    /// The end of a pull, with the cursor shown or not. The pull that ends
    /// the opening reports `Ready` whatever came of it.
    pub open spec fn finish(self, error: Option<CaptureError>, visible: bool) -> (Control, Action) {
        let phase = if error is None {
            Phase::Exposed
        } else {
            Phase::Idle
        };
        let rested = Control { phase, priming: false, ..self };
        if self.priming {
            (rested, Action::Ready)
        } else {
            match error {
                Some(e) => (rested, Action::Fail(e)),
                None => (
                    rested,
                    Action::Expose { len: self.len, draw_cursor: self.capture_mouse && visible },
                ),
            }
        }
    }

    /// Gives up the transient handles of the frame one by one, the resource
    /// first, and goes on with `next` when none is left.
    pub open spec fn cleanup(self, next: Next, visible: bool) -> (Control, Action) {
        let h = self.held;
        if h.resource {
            (self.at(Phase::Cleaning(next)), Action::ReleaseResource)
        } else if h.texture {
            (self.at(Phase::Cleaning(next)), Action::ReleaseTexture)
        } else if h.staging {
            (self.at(Phase::Cleaning(next)), Action::ReleaseStaging)
        } else {
            match next {
                Next::Fail(e) => self.finish(Some(e), visible),
                Next::Expose => self.finish(None, visible),
                Next::MapSurface => (
                    self.at(Phase::MappingSurface),
                    Action::MapSurface { flags: MAP_READ },
                ),
            }
        }
    }

    /// The ledger once the handle that `cleanup` asked to give up is gone.
    pub open spec fn without_first_transient(h: Ledger) -> Ledger {
        if h.resource {
            Ledger { resource: false, ..h }
        } else if h.texture {
            Ledger { texture: false, ..h }
        } else {
            Ledger { staging: false, ..h }
        }
    }

    /// Starts making the pixels of the acquired frame readable.
    pub open spec fn map_pixels(self) -> (Control, Action) {
        if self.fastlane {
            (self.at(Phase::MappingDesktop), Action::MapDesktopSurface)
        } else {
            (self.at(Phase::QueryingTexture), Action::QueryTexture)
        }
    }

    /// Whether a frame with this status and content brings a pointer report
    /// that the session looks at.
    pub open spec fn tracks(self, status: i32, info: FrameInfo) -> bool {
        classify(status) is None && self.capture_mouse && info.pointer.time_stamp != 0
    }

    /// The wait for a frame has ended: a failure ends the pull; a frame with
    /// a new pointer shape has the shape fetched; any other frame has its
    /// pixels made readable.
    pub open spec fn acquired(self, status: i32, info: FrameInfo, visible: bool) -> (
        Control,
        Action,
    ) {
        match classify(status) {
            Some(e) => self.finish(Some(e), visible),
            None => {
                let got = self.holding(Ledger { in_flight: true, resource: true, ..self.held });
                if self.tracks(status, info) && info.shape_buffer_size != 0 {
                    (
                        got.at(Phase::FetchingShape),
                        Action::FetchPointerShape { size: info.shape_buffer_size },
                    )
                } else {
                    got.map_pixels()
                }
            },
        }
    }

    /// The same state with a mapped image of the given pitch.
    pub open spec fn with_pitch(self, pitch: u32) -> Control {
        Control { pitch, len: (self.height * pitch) as u64, ..self }
    }

    /// A step that can fail has ended: on failure the transient handles are
    /// given up and the pull fails, on success the session holds `held` and
    /// goes on with `action` in `phase`.
    pub open spec fn guarded(
        self,
        status: i32,
        held: Ledger,
        phase: Phase,
        action: Action,
        visible: bool,
    ) -> (Control, Action) {
        match classify(status) {
            Some(e) => self.cleanup(Next::Fail(e), visible),
            None => (self.holding(held).at(phase), action),
        }
    }

    /// What follows an operation that cannot fail.
    pub open spec fn on_done(self, visible: bool) -> (Control, Action) {
        let h = self.held;
        match self.phase {
            Phase::AbortingDevice(e) => (
                self.holding(Ledger { device: false, ..h }).at(Phase::AbortingContext(e)),
                Action::ReleaseContext,
            ),
            Phase::AbortingContext(e) => (
                self.holding(Ledger { context: false, ..h }).at(Phase::Closed),
                Action::Fail(e),
            ),
            Phase::UnmappingDesktop => (
                self.holding(Ledger { desktop_mapped: false, ..h }).at(Phase::ReleasingFrame),
                Action::ReleaseFrame,
            ),
            Phase::UnmappingSurface => (
                self.holding(Ledger { surface_mapped: false, ..h }).at(Phase::ReleasingSurface),
                Action::ReleaseSurface,
            ),
            Phase::ReleasingSurface => (
                self.holding(Ledger { surface: false, ..h }).at(Phase::ReleasingFrame),
                Action::ReleaseFrame,
            ),
            Phase::ReleasingFrame => (
                self.holding(Ledger { in_flight: false, ..h }).at(Phase::Acquiring),
                Action::AcquireFrame { timeout: self.timeout },
            ),
            Phase::SettingPriority => (self.at(Phase::QueryingSurface), Action::QuerySurface),
            Phase::Copying => self.cleanup(Next::MapSurface, visible),
            Phase::Cleaning(next) => self.holding(Control::without_first_transient(h)).cleanup(
                next,
                visible,
            ),
            Phase::ClosingUnmap => (
                self.holding(Ledger { surface_mapped: false, ..h }).at(Phase::ClosingSurface),
                Action::ReleaseSurface,
            ),
            Phase::ClosingSurface => (
                self.holding(Ledger { surface: false, ..h }).at(Phase::ClosingDuplication),
                Action::ReleaseDuplication,
            ),
            Phase::ClosingDuplication => (
                self.holding(Ledger { device: true, context: true, ..Ledger::spec_empty() }).at(
                    Phase::ClosingDevice,
                ),
                Action::ReleaseDevice,
            ),
            Phase::ClosingDevice => (
                self.holding(Ledger { device: false, ..h }).at(Phase::ClosingContext),
                Action::ReleaseContext,
            ),
            Phase::ClosingContext => (
                self.holding(Ledger { context: false, ..h }).at(Phase::Closed),
                Action::Closed,
            ),
            _ => self.misuse(),
        }
    }

    /// What follows an operation that answers with a status code alone.
    pub open spec fn on_status(self, status: i32, visible: bool) -> (Control, Action) {
        let h = self.held;
        match self.phase {
            Phase::CreatingDevice => if status == S_OK {
                (
                    self.holding(Ledger { device: true, context: true, ..h }).at(
                        Phase::Duplicating,
                    ),
                    Action::DuplicateOutput,
                )
            } else {
                (self.at(Phase::Closed), Action::Fail(CaptureError::Unclassified))
            },
            Phase::Duplicating => match classify(status) {
                Some(e) => (self.at(Phase::AbortingDevice(e)), Action::ReleaseDevice),
                None => (
                    self.holding(Ledger { duplication: true, ..h }).at(Phase::Describing),
                    Action::QueryDescription,
                ),
            },
            Phase::QueryingTexture => self.guarded(
                status,
                Ledger { texture: true, ..h },
                Phase::CreatingStaging,
                Action::CreateStagingTexture {
                    usage: USAGE_STAGING,
                    bind_flags: 0,
                    cpu_access_flags: CPU_ACCESS_READ,
                    misc_flags: 0,
                },
                visible,
            ),
            Phase::CreatingStaging => self.guarded(
                status,
                Ledger { staging: true, ..h },
                Phase::SettingPriority,
                Action::SetEvictionPriority { priority: RESOURCE_PRIORITY_MAXIMUM },
                visible,
            ),
            Phase::QueryingSurface => self.guarded(
                status,
                Ledger { surface: true, ..h },
                Phase::Copying,
                Action::CopyToStaging,
                visible,
            ),
            _ => self.misuse(),
        }
    }

    /// What follows the duplication's description of itself: the data path
    /// is fixed, and the pull that ends the opening begins, without wait and
    /// with nothing to let go of.
    pub open spec fn on_description(self, in_system_memory: bool) -> (Control, Action) {
        match self.phase {
            Phase::Describing => (
                Control {
                    fastlane: in_system_memory,
                    priming: true,
                    timeout: 0,
                    phase: Phase::Acquiring,
                    ..self
                },
                Action::AcquireFrame { timeout: 0 },
            ),
            _ => self.misuse(),
        }
    }

    /// What follows the wait for a frame.
    pub open spec fn on_acquired(self, status: i32, info: FrameInfo, visible: bool) -> (
        Control,
        Action,
    ) {
        match self.phase {
            Phase::Acquiring => self.acquired(status, info, visible),
            _ => self.misuse(),
        }
    }

    /// What follows the fetch of a pointer shape.
    pub open spec fn on_shape(self, status: i32, visible: bool) -> (Control, Action) {
        match self.phase {
            Phase::FetchingShape => match classify(status) {
                Some(e) => self.cleanup(Next::Fail(e), visible),
                None => self.map_pixels(),
            },
            _ => self.misuse(),
        }
    }

    /// Why a mapping with this status and pitch counts as failed, `None`
    /// where it succeeded: the kind that the status stands for, and
    /// `Unclassified` for a success that reports a negative pitch.
    pub open spec fn mapping_failure(status: i32, pitch: i32) -> Option<CaptureError> {
        match classify(status) {
            Some(e) => Some(e),
            None => if pitch < 0 {
                Some(CaptureError::Unclassified)
            } else {
                None
            },
        }
    }

    /// What follows a mapping. The desktop surface is mapped while the
    /// frame's resource is still held, so that is given up next; the staging
    /// surface is mapped last.
    pub open spec fn on_mapped(self, status: i32, pitch: i32, visible: bool) -> (Control, Action) {
        let h = self.held;
        match self.phase {
            Phase::MappingDesktop => match Control::mapping_failure(status, pitch) {
                Some(e) => self.cleanup(Next::Fail(e), visible),
                None => self.with_pitch(pitch as u32).holding(
                    Ledger { desktop_mapped: true, ..h },
                ).cleanup(Next::Expose, visible),
            },
            Phase::MappingSurface => match Control::mapping_failure(status, pitch) {
                Some(e) => self.finish(Some(e), visible),
                None => self.with_pitch(pitch as u32).holding(
                    Ledger { surface_mapped: true, ..h },
                ).finish(None, visible),
            },
            _ => self.misuse(),
        }
    }

    /// What the session does when it is told of `event`, with the cursor
    /// shown or not. An event that does not answer what the session asked
    /// for changes nothing.
    pub open spec fn step(self, event: Event, visible: bool) -> (Control, Action) {
        match event {
            Event::Done => self.on_done(visible),
            Event::Status(status) => self.on_status(status, visible),
            Event::Description { desktop_image_in_system_memory } => self.on_description(
                desktop_image_in_system_memory,
            ),
            Event::Acquired { status, info } => self.on_acquired(status, info, visible),
            Event::Shape { status, bytes, layout } => self.on_shape(status, visible),
            Event::Mapped { status, pitch } => self.on_mapped(status, pitch, visible),
        }
    }

    /// What a fresh session does when it is opened.
    pub open spec fn opened(self) -> (Control, Action) {
        if self.phase == Phase::Fresh {
            (self.at(Phase::CreatingDevice), Action::CreateDevice)
        } else {
            self.misuse()
        }
    }

    /// What a session at rest does when a frame is asked for: it lets go of
    /// the last frame first. On the direct path the desktop surface is
    /// unmapped; on the read-back path the surface, if one is held, is
    /// unmapped and given up. Then the frame is handed back, whatever the
    /// path.
    pub open spec fn pulled(self, timeout: u32) -> (Control, Action) {
        if self.phase == Phase::Idle || self.phase == Phase::Exposed {
            let waiting = Control { timeout, ..self };
            if self.fastlane {
                (waiting.at(Phase::UnmappingDesktop), Action::UnmapDesktopSurface)
            } else if self.held.surface {
                (waiting.at(Phase::UnmappingSurface), Action::UnmapSurface)
            } else {
                (waiting.at(Phase::ReleasingFrame), Action::ReleaseFrame)
            }
        } else {
            self.misuse()
        }
    }

    /// What a session does when it is closed.
    pub open spec fn closing(self) -> (Control, Action) {
        if self.phase == Phase::Fresh {
            (self.at(Phase::Closed), Action::Closed)
        } else if self.phase == Phase::Idle || self.phase == Phase::Exposed {
            if self.held.surface {
                (self.at(Phase::ClosingUnmap), Action::UnmapSurface)
            } else {
                (self.at(Phase::ClosingDuplication), Action::ReleaseDuplication)
            }
        } else {
            self.misuse()
        }
    }
}

impl Session {
    /// The cursor once the session was told of `event`: a frame that was
    /// acquired with a pointer report moves the cursor by the acceptance
    /// rule and, where it announces a shape, makes room for it; a shape that
    /// was fetched is cached. Nothing else touches the cursor.
    pub open spec fn cursor_after(self, event: Event) -> CursorView {
        match event {
            Event::Acquired { status, info } => if self.control.phase == Phase::Acquiring
                && self.control.tracks(status, info) {
                let moved = self.cursor.updated(info.pointer, self.control.place);
                if info.shape_buffer_size != 0 {
                    moved.reserved(info.shape_buffer_size as nat)
                } else {
                    moved
                }
            } else {
                self.cursor
            },
            Event::Shape { status, bytes, layout } => if self.control.phase
                == Phase::FetchingShape && classify(status) is None {
                self.cursor.stored(bytes@, layout)
            } else {
                self.cursor
            },
            _ => self.cursor,
        }
    }

    /// What the session does when it is told of `event`.
    pub open spec fn step(self, event: Event) -> (Session, Action) {
        let cursor = self.cursor_after(event);
        let (control, action) = self.control.step(event, cursor.visible);
        (Session { control, cursor }, action)
    }

    /// What a fresh session does when it is opened.
    pub open spec fn opened(self) -> (Session, Action) {
        (Session { control: self.control.opened().0, ..self }, self.control.opened().1)
    }

    /// What a session at rest does when a frame is asked for.
    pub open spec fn pulled(self, timeout: u32) -> (Session, Action) {
        (
            Session { control: self.control.pulled(timeout).0, ..self },
            self.control.pulled(timeout).1,
        )
    }

    /// What a session does when it is closed.
    pub open spec fn closing(self) -> (Session, Action) {
        (Session { control: self.control.closing().0, ..self }, self.control.closing().1)
    }
}

/// The product of two 32-bit numbers can be written in 64 bits.
pub proof fn lemma_len_fits(height: u32, pitch: u32)
    ensures
        0 <= height * pitch <= u64::MAX,
        (height * pitch) as u64 == height * pitch,
        height > 0 && pitch > 0 ==> height * pitch > 0,
{
    assert(0 <= height * pitch <= 0xffff_ffff * 0xffff_ffff) by (nonlinear_arith)
        requires
            0 <= height <= 0xffff_ffff,
            0 <= pitch <= 0xffff_ffff,
    ;
    assert(height > 0 && pitch > 0 ==> height * pitch > 0) by (nonlinear_arith);
}

impl Control {
    proof fn lemma_finish_keeps_inv(self, error: Option<CaptureError>, visible: bool)
        requires
            self.width > 0,
            self.height > 0,
            self.at_rest(),
            error is None ==> {
                &&& self.held.in_flight
                &&& self.len_fits()
                &&& if self.fastlane {
                    self.held.desktop_mapped
                } else {
                    self.held.surface_mapped
                }
            },
        ensures
            self.finish(error, visible).0.inv(),
    {
    }

    proof fn lemma_cleanup_keeps_inv(self, next: Next, visible: bool)
        requires
            (Control {
                phase: Phase::Cleaning(next),
                held: Ledger { resource: true, ..self.held },
                ..self
            }).inv(),
        ensures
            self.cleanup(next, visible).0.inv(),
    {
        let h = self.held;
        if !h.resource && !h.texture && !h.staging {
            match next {
                Next::Fail(e) => self.lemma_finish_keeps_inv(Some(e), visible),
                Next::Expose => self.lemma_finish_keeps_inv(None, visible),
                Next::MapSurface => {},
            }
        }
    }

    proof fn lemma_done_keeps_inv(self, visible: bool)
        requires
            self.inv(),
        ensures
            self.on_done(visible).0.inv(),
    {
        match self.phase {
            Phase::Copying => {
                self.lemma_cleanup_keeps_inv(Next::MapSurface, visible);
            },
            Phase::Cleaning(next) => {
                self.holding(Control::without_first_transient(self.held)).lemma_cleanup_keeps_inv(
                    next,
                    visible,
                );
            },
            _ => {},
        }
    }

    proof fn lemma_status_keeps_inv(self, status: i32, visible: bool)
        requires
            self.inv(),
        ensures
            self.on_status(status, visible).0.inv(),
    {
        match self.phase {
            Phase::QueryingTexture | Phase::CreatingStaging | Phase::QueryingSurface => {
                if let Some(e) = classify(status) {
                    self.lemma_cleanup_keeps_inv(Next::Fail(e), visible);
                }
            },
            _ => {},
        }
    }

    proof fn lemma_acquired_keeps_inv(self, status: i32, info: FrameInfo, visible: bool)
        requires
            self.inv(),
        ensures
            self.on_acquired(status, info, visible).0.inv(),
    {
        if self.phase == Phase::Acquiring {
            if let Some(e) = classify(status) {
                self.lemma_finish_keeps_inv(Some(e), visible);
            }
        }
    }

    proof fn lemma_shape_keeps_inv(self, status: i32, visible: bool)
        requires
            self.inv(),
        ensures
            self.on_shape(status, visible).0.inv(),
    {
        if self.phase == Phase::FetchingShape {
            if let Some(e) = classify(status) {
                self.lemma_cleanup_keeps_inv(Next::Fail(e), visible);
            }
        }
    }

    proof fn lemma_mapped_keeps_inv(self, status: i32, pitch: i32, visible: bool)
        requires
            self.inv(),
        ensures
            self.on_mapped(status, pitch, visible).0.inv(),
    {
        let h = self.held;
        lemma_len_fits(self.height, pitch as u32);
        match self.phase {
            Phase::MappingDesktop => match Control::mapping_failure(status, pitch) {
                Some(e) => self.lemma_cleanup_keeps_inv(Next::Fail(e), visible),
                None => self.with_pitch(pitch as u32).holding(
                    Ledger { desktop_mapped: true, ..h },
                ).lemma_cleanup_keeps_inv(Next::Expose, visible),
            },
            Phase::MappingSurface => match Control::mapping_failure(status, pitch) {
                Some(e) => self.lemma_finish_keeps_inv(Some(e), visible),
                None => self.with_pitch(pitch as u32).holding(
                    Ledger { surface_mapped: true, ..h },
                ).lemma_finish_keeps_inv(None, visible),
            },
            _ => {},
        }
    }

    /// Every step keeps the invariant: whatever the session is told, it
    /// holds in its next phase what that phase says.
    pub proof fn lemma_step_keeps_inv(self, event: Event, visible: bool)
        requires
            self.inv(),
        ensures
            self.step(event, visible).0.inv(),
    {
        match event {
            Event::Done => self.lemma_done_keeps_inv(visible),
            Event::Status(status) => self.lemma_status_keeps_inv(status, visible),
            Event::Description { desktop_image_in_system_memory } => {},
            Event::Acquired { status, info } => self.lemma_acquired_keeps_inv(
                status,
                info,
                visible,
            ),
            Event::Shape { status, bytes, layout } => self.lemma_shape_keeps_inv(status, visible),
            Event::Mapped { status, pitch } => self.lemma_mapped_keeps_inv(status, pitch, visible),
        }
    }

    /// Opening, pulling and closing keep the invariant.
    pub proof fn lemma_calls_keep_inv(self, timeout: u32)
        requires
            self.inv(),
        ensures
            self.opened().0.inv(),
            self.pulled(timeout).0.inv(),
            self.closing().0.inv(),
    {
    }
}

impl Session {
    /// The shape buffer never shrinks, whatever the session is told.
    pub proof fn lemma_shape_buffer_grows(self, event: Event)
        ensures
            self.step(event).0.cursor.shape.len() >= self.cursor.shape.len(),
    {
    }

    /// The cursor moves only by the acceptance rule: after any step its
    /// position, visibility, owner and time stamp are those from before, or
    /// those of a report that the rule believed, placed by the session.
    pub proof fn lemma_cursor_moves_by_rule(self, event: Event)
        ensures
            ({
                let before = self.cursor;
                let after = self.step(event).0.cursor;
                ||| (after.x == before.x && after.y == before.y && after.visible == before.visible
                    && after.owner == before.owner && after.time_stamp == before.time_stamp)
                ||| (event is Acquired && !before.rejects(
                    event->Acquired_info.pointer,
                    self.control.place.output,
                ) && event->Acquired_info.pointer.time_stamp != 0 && after.x
                    == event->Acquired_info.pointer.x + self.control.place.left
                    - self.control.place.offset_x && after.y == event->Acquired_info.pointer.y
                    + self.control.place.top - self.control.place.offset_y && after.visible
                    == event->Acquired_info.pointer.visible && after.owner
                    == self.control.place.output && after.time_stamp
                    == event->Acquired_info.pointer.time_stamp)
            }),
    {
    }

    /// A session that does not track the cursor never touches it.
    pub proof fn lemma_untracked_cursor_stays(self, event: Event)
        requires
            !self.control.capture_mouse,
            !(event is Shape),
        ensures
            self.step(event).0.cursor == self.cursor,
    {
    }
}

} // verus!
