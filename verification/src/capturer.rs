//! A capture session: the state that decides, operation by operation, how the
//! frames of one display are pulled.

use vstd::prelude::*;
use crate::compose::{composited, FrameLayout};
use crate::cursor::{CursorInfo, CursorView, Placement};
use crate::display::Display;
use crate::protocol::{Action, Event, Ledger, Phase, Stage};
use crate::session::{Control, Session};
use crate::status::{wrap_hresult, CaptureError};

verus! {

/// A capture session on one display.
///
/// The session owns no native handle. It says which native operation comes
/// next, is told what came of it, and keeps the cursor between frames. The
/// caller performs each operation it is handed until the session answers with
/// `Ready`, `Expose`, `Fail` or `Closed`.
///
/// A session reports as output 0 and places pointer reports by the display's
/// origin alone: it tracks the cursor of a single output and applies no
/// offset between outputs.
pub struct Capturer {
    control: Control,
    cursor_info: CursorInfo,
}

impl View for Capturer {
    type V = Session;

    closed spec fn view(&self) -> Session {
        Session { control: self.control, cursor: self.cursor_info@ }
    }
}

/// Where a session on `display` places pointer reports.
pub open spec fn placement_of(display: Display) -> Placement {
    Placement {
        output: 0,
        left: display.spec_desc().coordinates.left,
        top: display.spec_desc().coordinates.top,
        offset_x: 0,
        offset_y: 0,
    }
}

impl Capturer {
    /// A fresh session on `display`, which tracks and draws the cursor where
    /// `capture_mouse` is set.
    ///
    /// Fails with `InvalidRequest` exactly where the display's rectangle has
    /// no inside or is too large to measure.
    pub fn new(display: &Display, capture_mouse: bool) -> (r: Result<Capturer, CaptureError>)
        ensures
            r is Ok <==> display.spec_desc().coordinates.spec_proper(),
            r is Err ==> r->Err_0 == CaptureError::InvalidRequest,
            r is Ok ==> r->Ok_0@ == (Session {
                control: Control::spec_fresh(
                    capture_mouse,
                    display.spec_desc().coordinates.spec_width() as u32,
                    display.spec_desc().coordinates.spec_height() as u32,
                    placement_of(*display),
                ),
                cursor: CursorView::initial(),
            }),
            r is Ok ==> r->Ok_0@.control.inv(),
    {
        let rect = display.desc().coordinates;
        if !rect.proper() {
            return Err(CaptureError::InvalidRequest);
        }
        let width: i32 = display.width();
        let height: i32 = display.height();
        Ok(
            Capturer {
                control: Control {
                    capture_mouse,
                    fastlane: false,
                    priming: false,
                    width: width as u32,
                    height: height as u32,
                    place: Placement {
                        output: 0,
                        left: rect.left,
                        top: rect.top,
                        offset_x: 0,
                        offset_y: 0,
                    },
                    phase: Phase::Fresh,
                    held: Ledger::empty(),
                    timeout: 0,
                    pitch: 0,
                    len: 0,
                },
                cursor_info: CursorInfo::new(),
            },
        )
    }

    /// What the session is waiting for.
    pub fn phase(&self) -> (phase: Phase)
        ensures
            phase == self@.control.phase,
    {
        self.control.phase
    }

    /// Where the session stands between two pulls.
    pub fn stage(&self) -> (stage: Stage)
        ensures
            stage == self@.control.spec_stage(),
    {
        match self.control.phase {
            Phase::Exposed => Stage::Exposed,
            Phase::FetchingShape
            | Phase::MappingDesktop
            | Phase::QueryingTexture
            | Phase::CreatingStaging
            | Phase::SettingPriority
            | Phase::QueryingSurface
            | Phase::Copying
            | Phase::Cleaning(_)
            | Phase::MappingSurface => Stage::Acquired,
            _ => Stage::Idle,
        }
    }

    /// Everything the session remembers besides the cursor.
    pub fn control(&self) -> (control: Control)
        ensures
            control == self@.control,
    {
        self.control
    }

    /// The cursor as last believed.
    pub fn cursor(&self) -> (cursor: &CursorInfo)
        ensures
            cursor@ == self@.cursor,
    {
        &self.cursor_info
    }

    /// Whether the desktop image is mapped directly, without a copy.
    pub fn fastlane(&self) -> (fastlane: bool)
        ensures
            fastlane == self@.control.fastlane,
    {
        self.control.fastlane
    }

    /// Length in bytes of the image that was last mapped.
    pub fn len(&self) -> (len: u64)
        ensures
            len == self@.control.len,
    {
        self.control.len
    }

    /// Starts the opening of a fresh session: asks for the device. The
    /// opening ends with `Ready`, after one pull without wait whose result is
    /// dropped, or with `Fail`, after which the session is closed.
    ///
    /// On a session that is not fresh this is `Fail(InvalidRequest)` and
    /// changes nothing.
    pub fn open(&mut self) -> (action: Action)
        ensures
            (final(self)@, action) == old(self)@.opened(),
            old(self)@.control.inv() ==> final(self)@.control.inv(),
    {
        let (control, action) = self.control.open();
        self.control = control;
        action
    }

    /// Starts the pull of the next frame, for which the caller will wait up
    /// to `timeout` milliseconds: asks to let go of the last frame. The pull
    /// ends with `Expose` or with `Fail`.
    ///
    /// On a session that is not at rest this is `Fail(InvalidRequest)` and
    /// changes nothing.
    pub fn frame(&mut self, timeout: u32) -> (action: Action)
        ensures
            (final(self)@, action) == old(self)@.pulled(timeout),
            old(self)@.control.inv() ==> final(self)@.control.inv(),
    {
        let (control, action) = self.control.pull(timeout);
        self.control = control;
        action
    }

    /// Tells the session what came of the operation it asked for, and
    /// returns what comes next.
    ///
    /// An event that does not answer what the session asked for is
    /// `Fail(InvalidRequest)` and changes nothing.
    pub fn advance(&mut self, event: Event) -> (action: Action)
        ensures
            (final(self)@, action) == old(self)@.step(event),
            old(self)@.control.inv() ==> final(self)@.control.inv(),
    {
        match &event {
            Event::Acquired { status, info } => {
                let waiting = match self.control.phase {
                    Phase::Acquiring => true,
                    _ => false,
                };
                if waiting && self.control.tracking(*status, info) {
                    let place = self.control.place;
                    self.cursor_info.update_position(&info.pointer, &place);
                    if info.shape_buffer_size != 0 {
                        self.cursor_info.reserve_shape(info.shape_buffer_size);
                    }
                }
            },
            Event::Shape { status, bytes, layout } => {
                let waiting = match self.control.phase {
                    Phase::FetchingShape => true,
                    _ => false,
                };
                if waiting && wrap_hresult(*status).is_ok() {
                    self.cursor_info.store_shape(bytes.as_slice(), *layout);
                }
            },
            _ => {},
        }
        let (control, action) = self.control.advance(&event, self.cursor_info.visible());
        self.control = control;
        action
    }

    /// Size and row stride of the image that was last mapped.
    pub fn layout(&self) -> (layout: FrameLayout)
        ensures
            layout == self@.control.spec_layout(),
    {
        FrameLayout {
            width: self.control.width,
            height: self.control.height,
            pitch: self.control.pitch,
        }
    }

    /// Lays the cursor as last believed over `frame`, the image that was
    /// last mapped. To be called on the exposed frame where `Expose` says
    /// so.
    pub fn draw_cursor(&self, frame: &mut [u8])
        ensures
            final(frame)@ == composited(old(frame)@, self@.control.spec_layout(), self@.cursor),
            final(frame)@.len() == old(frame)@.len(),
    {
        let layout = self.layout();
        self.cursor_info.draw_cursor(frame, &layout);
    }

    /// Starts the closing of a session at rest: asks to give up what it
    /// holds, the read-back surface first, then duplication, device and
    /// context. The closing ends with `Closed`.
    ///
    /// On a session in the middle of an opening, a pull or a closing, and on
    /// a closed one, this is `Fail(InvalidRequest)` and changes nothing.
    pub fn close(&mut self) -> (action: Action)
        ensures
            (final(self)@, action) == old(self)@.closing(),
            old(self)@.control.inv() ==> final(self)@.control.inv(),
    {
        let (control, action) = self.control.close();
        self.control = control;
        action
    }
}

} // verus!
