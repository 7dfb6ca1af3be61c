//! The transition system of a capture session in executable form: each
//! function computes what its counterpart in the session's model states.

use vstd::prelude::*;
use crate::protocol::{
    Action, Event, FrameInfo, Ledger, Next, Phase, CPU_ACCESS_READ, MAP_READ,
    RESOURCE_PRIORITY_MAXIMUM, USAGE_STAGING,
};
use crate::session::{lemma_len_fits, Control};
use crate::status::{wrap_hresult, CaptureError, S_OK};

verus! {

impl Control {
    fn refuse(self) -> (r: (Control, Action))
        ensures
            r == self.misuse(),
    {
        (self, Action::Fail(CaptureError::InvalidRequest))
    }

    fn end_pull(self, error: Option<CaptureError>, visible: bool) -> (r: (Control, Action))
        ensures
            r == self.finish(error, visible),
    {
        match error {
            Some(e) => {
                let rested = Control { phase: Phase::Idle, priming: false, ..self };
                if self.priming {
                    (rested, Action::Ready)
                } else {
                    (rested, Action::Fail(e))
                }
            },
            None => {
                let rested = Control { phase: Phase::Exposed, priming: false, ..self };
                if self.priming {
                    (rested, Action::Ready)
                } else {
                    (
                        rested,
                        Action::Expose {
                            len: self.len,
                            draw_cursor: self.capture_mouse && visible,
                        },
                    )
                }
            },
        }
    }

    fn release_transients(self, next: Next, visible: bool) -> (r: (Control, Action))
        ensures
            r == self.cleanup(next, visible),
    {
        let waiting = Control { phase: Phase::Cleaning(next), ..self };
        if self.held.resource {
            (waiting, Action::ReleaseResource)
        } else if self.held.texture {
            (waiting, Action::ReleaseTexture)
        } else if self.held.staging {
            (waiting, Action::ReleaseStaging)
        } else {
            match next {
                Next::Fail(e) => self.end_pull(Some(e), visible),
                Next::Expose => self.end_pull(None, visible),
                Next::MapSurface => (
                    Control { phase: Phase::MappingSurface, ..self },
                    Action::MapSurface { flags: MAP_READ },
                ),
            }
        }
    }

    fn begin_readout(self) -> (r: (Control, Action))
        ensures
            r == self.map_pixels(),
    {
        if self.fastlane {
            (Control { phase: Phase::MappingDesktop, ..self }, Action::MapDesktopSurface)
        } else {
            (Control { phase: Phase::QueryingTexture, ..self }, Action::QueryTexture)
        }
    }

    /// Whether a frame with this status and content brings a pointer report
    /// that the session looks at.
    pub fn tracking(&self, status: i32, info: &FrameInfo) -> (b: bool)
        ensures
            b == self.tracks(status, *info),
    {
        wrap_hresult(status).is_ok() && self.capture_mouse && info.pointer.time_stamp != 0
    }

    fn frame_acquired(self, status: i32, info: &FrameInfo, visible: bool) -> (r: (Control, Action))
        ensures
            r == self.acquired(status, *info, visible),
    {
        match wrap_hresult(status) {
            Err(e) => self.end_pull(Some(e), visible),
            Ok(()) => {
                let got = Control {
                    held: Ledger { in_flight: true, resource: true, ..self.held },
                    ..self
                };
                if self.tracking(status, info) && info.shape_buffer_size != 0 {
                    (
                        Control { phase: Phase::FetchingShape, ..got },
                        Action::FetchPointerShape { size: info.shape_buffer_size },
                    )
                } else {
                    got.begin_readout()
                }
            },
        }
    }

    fn mapped_with(self, pitch: u32) -> (r: Control)
        ensures
            r == self.with_pitch(pitch),
    {
        proof {
            lemma_len_fits(self.height, pitch);
        }
        Control { pitch, len: self.height as u64 * pitch as u64, ..self }
    }

    fn guard(self, status: i32, held: Ledger, phase: Phase, action: Action, visible: bool) -> (r: (
        Control,
        Action,
    ))
        ensures
            r == self.guarded(status, held, phase, action, visible),
    {
        match wrap_hresult(status) {
            Err(e) => self.release_transients(Next::Fail(e), visible),
            Ok(()) => (Control { held, phase, ..self }, action),
        }
    }

    fn after_done(self, visible: bool) -> (r: (Control, Action))
        ensures
            r == self.on_done(visible),
    {
        let h = self.held;
        match self.phase {
            Phase::AbortingDevice(e) => (
                Control {
                    held: Ledger { device: false, ..h },
                    phase: Phase::AbortingContext(e),
                    ..self
                },
                Action::ReleaseContext,
            ),
            Phase::AbortingContext(e) => (
                Control { held: Ledger { context: false, ..h }, phase: Phase::Closed, ..self },
                Action::Fail(e),
            ),
            Phase::UnmappingDesktop => (
                Control {
                    held: Ledger { desktop_mapped: false, ..h },
                    phase: Phase::ReleasingFrame,
                    ..self
                },
                Action::ReleaseFrame,
            ),
            Phase::UnmappingSurface => (
                Control {
                    held: Ledger { surface_mapped: false, ..h },
                    phase: Phase::ReleasingSurface,
                    ..self
                },
                Action::ReleaseSurface,
            ),
            Phase::ReleasingSurface => (
                Control {
                    held: Ledger { surface: false, ..h },
                    phase: Phase::ReleasingFrame,
                    ..self
                },
                Action::ReleaseFrame,
            ),
            Phase::ReleasingFrame => (
                Control {
                    held: Ledger { in_flight: false, ..h },
                    phase: Phase::Acquiring,
                    ..self
                },
                Action::AcquireFrame { timeout: self.timeout },
            ),
            Phase::SettingPriority => (
                Control { phase: Phase::QueryingSurface, ..self },
                Action::QuerySurface,
            ),
            Phase::Copying => self.release_transients(Next::MapSurface, visible),
            Phase::Cleaning(next) => {
                let left = if h.resource {
                    Ledger { resource: false, ..h }
                } else if h.texture {
                    Ledger { texture: false, ..h }
                } else {
                    Ledger { staging: false, ..h }
                };
                (Control { held: left, ..self }).release_transients(next, visible)
            },
            Phase::ClosingUnmap => (
                Control {
                    held: Ledger { surface_mapped: false, ..h },
                    phase: Phase::ClosingSurface,
                    ..self
                },
                Action::ReleaseSurface,
            ),
            Phase::ClosingSurface => (
                Control {
                    held: Ledger { surface: false, ..h },
                    phase: Phase::ClosingDuplication,
                    ..self
                },
                Action::ReleaseDuplication,
            ),
            Phase::ClosingDuplication => (
                Control {
                    held: Ledger { device: true, context: true, ..Ledger::empty() },
                    phase: Phase::ClosingDevice,
                    ..self
                },
                Action::ReleaseDevice,
            ),
            Phase::ClosingDevice => (
                Control {
                    held: Ledger { device: false, ..h },
                    phase: Phase::ClosingContext,
                    ..self
                },
                Action::ReleaseContext,
            ),
            Phase::ClosingContext => (
                Control { held: Ledger { context: false, ..h }, phase: Phase::Closed, ..self },
                Action::Closed,
            ),
            _ => self.refuse(),
        }
    }

    fn after_status(self, status: i32, visible: bool) -> (r: (Control, Action))
        ensures
            r == self.on_status(status, visible),
    {
        let h = self.held;
        match self.phase {
            Phase::CreatingDevice => {
                if status == S_OK {
                    (
                        Control {
                            held: Ledger { device: true, context: true, ..h },
                            phase: Phase::Duplicating,
                            ..self
                        },
                        Action::DuplicateOutput,
                    )
                } else {
                    (
                        Control { phase: Phase::Closed, ..self },
                        Action::Fail(CaptureError::Unclassified),
                    )
                }
            },
            Phase::Duplicating => match wrap_hresult(status) {
                Err(e) => (
                    Control { phase: Phase::AbortingDevice(e), ..self },
                    Action::ReleaseDevice,
                ),
                Ok(()) => (
                    Control {
                        held: Ledger { duplication: true, ..h },
                        phase: Phase::Describing,
                        ..self
                    },
                    Action::QueryDescription,
                ),
            },
            Phase::QueryingTexture => self.guard(
                status,
                Ledger { texture: true, ..h },
                Phase::CreatingStaging,
                Action::CreateStagingTexture {
                    usage: USAGE_STAGING,
                    bind_flags: 0,
                    cpu_access_flags: CPU_ACCESS_READ,
                    misc_flags: 0,
                },
                visible,
            ),
            Phase::CreatingStaging => self.guard(
                status,
                Ledger { staging: true, ..h },
                Phase::SettingPriority,
                Action::SetEvictionPriority { priority: RESOURCE_PRIORITY_MAXIMUM },
                visible,
            ),
            Phase::QueryingSurface => self.guard(
                status,
                Ledger { surface: true, ..h },
                Phase::Copying,
                Action::CopyToStaging,
                visible,
            ),
            _ => self.refuse(),
        }
    }

    fn after_description(self, in_system_memory: bool) -> (r: (Control, Action))
        ensures
            r == self.on_description(in_system_memory),
    {
        match self.phase {
            Phase::Describing => (
                Control {
                    fastlane: in_system_memory,
                    priming: true,
                    timeout: 0,
                    phase: Phase::Acquiring,
                    ..self
                },
                Action::AcquireFrame { timeout: 0 },
            ),
            _ => self.refuse(),
        }
    }

    fn after_acquired(self, status: i32, info: &FrameInfo, visible: bool) -> (r: (Control, Action))
        ensures
            r == self.on_acquired(status, *info, visible),
    {
        match self.phase {
            Phase::Acquiring => self.frame_acquired(status, info, visible),
            _ => self.refuse(),
        }
    }

    fn after_shape(self, status: i32, visible: bool) -> (r: (Control, Action))
        ensures
            r == self.on_shape(status, visible),
    {
        match self.phase {
            Phase::FetchingShape => match wrap_hresult(status) {
                Err(e) => self.release_transients(Next::Fail(e), visible),
                Ok(()) => self.begin_readout(),
            },
            _ => self.refuse(),
        }
    }

    /// Why a mapping with this status and pitch counts as failed, `None`
    /// where it succeeded.
    pub fn mapping_error(status: i32, pitch: i32) -> (error: Option<CaptureError>)
        ensures
            error == Control::mapping_failure(status, pitch),
    {
        match wrap_hresult(status) {
            Err(e) => Some(e),
            Ok(()) => {
                if pitch < 0 {
                    Some(CaptureError::Unclassified)
                } else {
                    None
                }
            },
        }
    }

    fn after_mapped(self, status: i32, pitch: i32, visible: bool) -> (r: (Control, Action))
        ensures
            r == self.on_mapped(status, pitch, visible),
    {
        let h = self.held;
        match self.phase {
            Phase::MappingDesktop => match Control::mapping_error(status, pitch) {
                Some(e) => self.release_transients(Next::Fail(e), visible),
                None => {
                    let mapped = self.mapped_with(pitch as u32);
                    (Control {
                        held: Ledger { desktop_mapped: true, ..h },
                        ..mapped
                    }).release_transients(Next::Expose, visible)
                },
            },
            Phase::MappingSurface => match Control::mapping_error(status, pitch) {
                Some(e) => self.end_pull(Some(e), visible),
                None => {
                    let mapped = self.mapped_with(pitch as u32);
                    (Control { held: Ledger { surface_mapped: true, ..h }, ..mapped }).end_pull(
                        None,
                        visible,
                    )
                },
            },
            _ => self.refuse(),
        }
    }

    /// Computes the step that follows `event`, with the cursor shown or not.
    pub fn advance(self, event: &Event, visible: bool) -> (r: (Control, Action))
        ensures
            r == self.step(*event, visible),
            self.inv() ==> r.0.inv(),
    {
        proof {
            if self.inv() {
                self.lemma_step_keeps_inv(*event, visible);
            }
        }
        match event {
            Event::Done => self.after_done(visible),
            Event::Status(status) => self.after_status(*status, visible),
            Event::Description { desktop_image_in_system_memory } => self.after_description(
                *desktop_image_in_system_memory,
            ),
            Event::Acquired { status, info } => self.after_acquired(*status, info, visible),
            Event::Shape { status, bytes, layout } => self.after_shape(*status, visible),
            Event::Mapped { status, pitch } => self.after_mapped(*status, *pitch, visible),
        }
    }

    /// Computes the first step of an opening.
    pub fn open(self) -> (r: (Control, Action))
        ensures
            r == self.opened(),
            self.inv() ==> r.0.inv(),
    {
        proof {
            if self.inv() {
                self.lemma_calls_keep_inv(0);
            }
        }
        match self.phase {
            Phase::Fresh => (
                Control { phase: Phase::CreatingDevice, ..self },
                Action::CreateDevice,
            ),
            _ => self.refuse(),
        }
    }

    /// Computes the first step of a pull.
    pub fn pull(self, timeout: u32) -> (r: (Control, Action))
        ensures
            r == self.pulled(timeout),
            self.inv() ==> r.0.inv(),
    {
        proof {
            if self.inv() {
                self.lemma_calls_keep_inv(timeout);
            }
        }
        match self.phase {
            Phase::Idle | Phase::Exposed => {
                if self.fastlane {
                    (
                        Control { timeout, phase: Phase::UnmappingDesktop, ..self },
                        Action::UnmapDesktopSurface,
                    )
                } else if self.held.surface {
                    (
                        Control { timeout, phase: Phase::UnmappingSurface, ..self },
                        Action::UnmapSurface,
                    )
                } else {
                    (
                        Control { timeout, phase: Phase::ReleasingFrame, ..self },
                        Action::ReleaseFrame,
                    )
                }
            },
            _ => self.refuse(),
        }
    }

    /// Computes the first step of a closing.
    pub fn close(self) -> (r: (Control, Action))
        ensures
            r == self.closing(),
            self.inv() ==> r.0.inv(),
    {
        proof {
            if self.inv() {
                self.lemma_calls_keep_inv(0);
            }
        }
        match self.phase {
            Phase::Fresh => (Control { phase: Phase::Closed, ..self }, Action::Closed),
            Phase::Idle | Phase::Exposed => {
                if self.held.surface {
                    (Control { phase: Phase::ClosingUnmap, ..self }, Action::UnmapSurface)
                } else {
                    (
                        Control { phase: Phase::ClosingDuplication, ..self },
                        Action::ReleaseDuplication,
                    )
                }
            },
            _ => self.refuse(),
        }
    }
}

} // verus!
