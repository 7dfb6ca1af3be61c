//! Cursor state carried from frame to frame, and the rule that decides which
//! position reports are believed.

use vstd::prelude::*;

verus! {

/// Shape encoding: two stacked one-bit masks.
pub const SHAPE_MONOCHROME: u32 = 1;

/// Shape encoding: four bytes per pixel, blended by alpha.
pub const SHAPE_COLOR: u32 = 2;

/// Shape encoding: four bytes per pixel, zero channel bytes are see-through.
pub const SHAPE_MASKED_COLOR: u32 = 4;

/// Largest magnitude a cached cursor coordinate can have: three 32-bit terms.
pub const POSITION_LIMIT: i64 = 0x2_0000_0000;

/// How the bytes of a pointer shape are laid out.
#[derive(Clone, Copy, Debug, PartialEq, Eq, Structural)]
pub struct ShapeInfo {
    /// Encoding of the shape bytes; see the `SHAPE_` constants.
    pub kind: u32,
    /// Width in pixels.
    pub width: u32,
    /// Height in rows, as reported with the shape.
    pub height: u32,
    /// Bytes from one row to the next.
    pub pitch: u32,
    /// Horizontal offset of the hotspot inside the shape.
    pub hot_x: i32,
    /// Vertical offset of the hotspot inside the shape.
    pub hot_y: i32,
}

/// What one frame says about the pointer, in the reporting output's own
/// coordinates.
#[derive(Clone, Copy, Debug, PartialEq, Eq, Structural)]
pub struct PointerReport {
    /// Horizontal position.
    pub x: i32,
    /// Vertical position.
    pub y: i32,
    /// Whether the pointer is shown on the reporting output.
    pub visible: bool,
    /// When the pointer last changed; never zero for a real report.
    pub time_stamp: i64,
}

/// Where an output sits, and what is subtracted to place its pointer reports
/// in the captured image.
#[derive(Clone, Copy, Debug, PartialEq, Eq, Structural)]
pub struct Placement {
    /// Identifier of the reporting output.
    pub output: u32,
    /// Left edge of the output in desktop coordinates.
    pub left: i32,
    /// Top edge of the output in desktop coordinates.
    pub top: i32,
    /// Horizontal offset of the captured image in the desktop.
    pub offset_x: i32,
    /// Vertical offset of the captured image in the desktop.
    pub offset_y: i32,
}

/// The mathematical content of a [`CursorInfo`].
pub ghost struct CursorView {
    /// Horizontal position in the captured image.
    pub x: int,
    /// Vertical position in the captured image.
    pub y: int,
    /// The shape buffer, whose front holds the current shape.
    pub shape: Seq<u8>,
    /// Layout of the current shape.
    pub shape_info: ShapeInfo,
    /// Whether the pointer is shown.
    pub visible: bool,
    /// The output whose report was last believed.
    pub owner: u32,
    /// Time stamp of the report that was last believed.
    pub time_stamp: i64,
}

impl CursorView {
    /// The state before any report: hidden, at the origin, without a shape.
    pub open spec fn initial() -> CursorView {
        CursorView {
            x: 0,
            y: 0,
            shape: Seq::empty(),
            shape_info: ShapeInfo { kind: 0, width: 0, height: 0, pitch: 0, hot_x: 0, hot_y: 0 },
            visible: false,
            owner: 0,
            time_stamp: 0,
        }
    }

    /// A report is turned away when it hides a pointer that another output
    /// owns, or when it shows a pointer that another output has shown more
    /// recently.
    pub open spec fn rejects(self, report: PointerReport, output: u32) -> bool {
        ||| !report.visible && self.owner != output
        ||| report.visible && self.visible && self.owner != output && self.time_stamp
            > report.time_stamp
    }

    /// The state after a report from the output that `place` describes.
    pub open spec fn updated(self, report: PointerReport, place: Placement) -> CursorView {
        if self.rejects(report, place.output) {
            self
        } else {
            CursorView {
                x: report.x + place.left - place.offset_x,
                y: report.y + place.top - place.offset_y,
                visible: report.visible,
                owner: place.output,
                time_stamp: report.time_stamp,
                ..self
            }
        }
    }

    /// The state after the shape buffer was made to hold `size` bytes: longer
    /// by zero bytes where it was shorter, untouched otherwise.
    pub open spec fn reserved(self, size: nat) -> CursorView {
        if size > self.shape.len() {
            CursorView {
                shape: self.shape + Seq::new((size - self.shape.len()) as nat, |i: int| 0u8),
                ..self
            }
        } else {
            self
        }
    }

    /// The state after a shape was fetched: its bytes lie over the front of
    /// the buffer, what the buffer held behind them stays.
    pub open spec fn stored(self, bytes: Seq<u8>, info: ShapeInfo) -> CursorView {
        CursorView {
            shape: if bytes.len() >= self.shape.len() {
                bytes
            } else {
                bytes + self.shape.subrange(bytes.len() as int, self.shape.len() as int)
            },
            shape_info: info,
            ..self
        }
    }
}

/// A point in the captured image: each coordinate is a sum of three 32-bit
/// terms, so it stays within `POSITION_LIMIT` of zero.
#[derive(Clone, Copy, Debug)]
pub struct ImagePoint {
    x: i64,
    y: i64,
}

impl ImagePoint {
    #[verifier::type_invariant]
    spec fn in_range(self) -> bool {
        &&& -POSITION_LIMIT <= self.x <= POSITION_LIMIT
        &&& -POSITION_LIMIT <= self.y <= POSITION_LIMIT
    }

    /// The horizontal coordinate.
    pub closed spec fn spec_x(self) -> int {
        self.x as int
    }

    /// The vertical coordinate.
    pub closed spec fn spec_y(self) -> int {
        self.y as int
    }

    /// The point at which `report` places the pointer.
    pub fn place(report: &PointerReport, place: &Placement) -> (p: ImagePoint)
        ensures
            p.spec_x() == report.x + place.left - place.offset_x,
            p.spec_y() == report.y + place.top - place.offset_y,
    {
        ImagePoint {
            x: report.x as i64 + place.left as i64 - place.offset_x as i64,
            y: report.y as i64 + place.top as i64 - place.offset_y as i64,
        }
    }

    /// The horizontal coordinate.
    pub fn x(&self) -> (x: i64)
        ensures
            x == self.spec_x(),
            -POSITION_LIMIT <= x <= POSITION_LIMIT,
    {
        proof {
            use_type_invariant(self);
        }
        self.x
    }

    /// The vertical coordinate.
    pub fn y(&self) -> (y: i64)
        ensures
            y == self.spec_y(),
            -POSITION_LIMIT <= y <= POSITION_LIMIT,
    {
        proof {
            use_type_invariant(self);
        }
        self.y
    }
}

impl CursorView {
    /// A report from the output that owns the cursor is always believed.
    pub proof fn lemma_owner_is_believed(self, report: PointerReport)
        ensures
            !self.rejects(report, self.owner),
    {
    }

    /// A report that is turned away changes nothing; one that is believed
    /// makes its output the owner and its time stamp the newest.
    pub proof fn lemma_updated(self, report: PointerReport, place: Placement)
        ensures
            self.rejects(report, place.output) ==> self.updated(report, place) == self,
            !self.rejects(report, place.output) ==> {
                &&& self.updated(report, place).owner == place.output
                &&& self.updated(report, place).time_stamp == report.time_stamp
                &&& self.updated(report, place).visible == report.visible
                &&& self.updated(report, place).shape == self.shape
                &&& self.updated(report, place).shape_info == self.shape_info
            },
    {
    }

    /// A report that shows the cursor on an output that does not own it is
    /// turned away exactly when the cursor is shown and was last seen later
    /// than the report says.
    pub proof fn lemma_stale_report(self, report: PointerReport, output: u32)
        requires
            report.visible,
            self.owner != output,
        ensures
            self.rejects(report, output) <==> self.visible && self.time_stamp > report.time_stamp,
    {
    }

    /// Neither making room for a shape nor caching one shrinks the buffer.
    pub proof fn lemma_buffer_grows(self, size: nat, bytes: Seq<u8>, info: ShapeInfo)
        ensures
            self.reserved(size).shape.len() >= self.shape.len(),
            self.reserved(size).shape.len() >= size,
            self.stored(bytes, info).shape.len() >= self.shape.len(),
            self.stored(bytes, info).shape.len() >= bytes.len(),
    {
    }
}

/// Cursor position, visibility and shape as last believed.
pub struct CursorInfo {
    position: ImagePoint,
    shape: Vec<u8>,
    shape_info: ShapeInfo,
    visible: bool,
    who_updated_position_last: u32,
    last_time_stamp: i64,
}

impl View for CursorInfo {
    type V = CursorView;

    closed spec fn view(&self) -> CursorView {
        CursorView {
            x: self.position.spec_x(),
            y: self.position.spec_y(),
            shape: self.shape@,
            shape_info: self.shape_info,
            visible: self.visible,
            owner: self.who_updated_position_last,
            time_stamp: self.last_time_stamp,
        }
    }
}

impl CursorInfo {
    /// A hidden cursor at the origin, owned by output 0, without a shape.
    pub fn new() -> (cursor: CursorInfo)
        ensures
            cursor@ == CursorView::initial(),
    {
        CursorInfo {
            position: ImagePoint { x: 0, y: 0 },
            shape: Vec::new(),
            shape_info: ShapeInfo { kind: 0, width: 0, height: 0, pitch: 0, hot_x: 0, hot_y: 0 },
            visible: false,
            who_updated_position_last: 0,
            last_time_stamp: 0,
        }
    }

    /// Position in the captured image.
    pub fn position(&self) -> (p: (i64, i64))
        ensures
            p.0 == self@.x,
            p.1 == self@.y,
            -POSITION_LIMIT <= p.0 <= POSITION_LIMIT,
            -POSITION_LIMIT <= p.1 <= POSITION_LIMIT,
    {
        (self.position.x(), self.position.y())
    }

    /// Whether the pointer is shown.
    pub fn visible(&self) -> (v: bool)
        ensures
            v == self@.visible,
    {
        self.visible
    }

    /// The output whose report was last believed.
    pub fn owner(&self) -> (o: u32)
        ensures
            o == self@.owner,
    {
        self.who_updated_position_last
    }

    /// Time stamp of the report that was last believed.
    pub fn time_stamp(&self) -> (t: i64)
        ensures
            t == self@.time_stamp,
    {
        self.last_time_stamp
    }

    /// The shape buffer.
    pub fn shape(&self) -> (s: &[u8])
        ensures
            s@ == self@.shape,
    {
        self.shape.as_slice()
    }

    /// Layout of the current shape.
    pub fn shape_info(&self) -> (info: ShapeInfo)
        ensures
            info == self@.shape_info,
    {
        self.shape_info
    }

    /// Whether a report from `output` would be believed.
    pub fn accepts(&self, report: &PointerReport, output: u32) -> (accepted: bool)
        ensures
            accepted == !self@.rejects(*report, output),
    {
        let foreign = self.who_updated_position_last != output;
        if !report.visible && foreign {
            false
        } else if report.visible && self.visible && foreign && self.last_time_stamp
            > report.time_stamp {
            false
        } else {
            true
        }
    }

    /// Applies a position report from the output that `place` describes.
    ///
    /// A believed report moves the cursor to the reported position shifted by
    /// the output's origin less the image offset, and makes that output the
    /// owner. A report that is turned away changes nothing. Returns whether
    /// the report was believed.
    pub fn update_position(&mut self, report: &PointerReport, place: &Placement) -> (accepted: bool)
        ensures
            accepted == !old(self)@.rejects(*report, place.output),
            final(self)@ == old(self)@.updated(*report, *place),
    {
        let accepted = self.accepts(report, place.output);
        if accepted {
            self.position = ImagePoint::place(report, place);
            self.who_updated_position_last = place.output;
            self.last_time_stamp = report.time_stamp;
            self.visible = report.visible;
        }
        accepted
    }

    /// Makes room for a shape of `size` bytes. The buffer never shrinks; new
    /// bytes are zero.
    pub fn reserve_shape(&mut self, size: u32)
        ensures
            final(self)@ == old(self)@.reserved(size as nat),
            final(self)@.shape.len() >= old(self)@.shape.len(),
            final(self)@.shape.len() >= size,
    {
        if size as usize > self.shape.len() {
            let ghost before = self.shape@;
            self.shape.resize(size as usize, 0u8);
            proof {
                let grown = before + Seq::new((size - before.len()) as nat, |i: int| 0u8);
                assert(self.shape@.subrange(0, before.len() as int) == before);
                assert forall|i: int| 0 <= i < grown.len() implies self.shape@[i] == grown[i] by {
                    if i < before.len() {
                        assert(self.shape@.subrange(0, before.len() as int)[i] == self.shape@[i]);
                    }
                }
                assert(self.shape@ =~= grown);
            }
        }
    }

    /// Caches a fetched shape: `bytes` overwrite the front of the buffer and
    /// `info` replaces the layout, whatever was cached before.
    pub fn store_shape(&mut self, bytes: &[u8], info: ShapeInfo)
        ensures
            final(self)@ == old(self)@.stored(bytes@, info),
            final(self)@.shape.len() >= old(self)@.shape.len(),
    {
        let ghost before = self.shape@;
        let n = bytes.len();
        let mut i: usize = 0;
        while i < n
            invariant
                n == bytes@.len(),
                i <= n,
                self.position == old(self).position,
                self.visible == old(self).visible,
                self.who_updated_position_last == old(self).who_updated_position_last,
                self.last_time_stamp == old(self).last_time_stamp,
                self.shape@.len() == if i <= before.len() {
                    before.len()
                } else {
                    i as nat
                },
                forall|k: int| 0 <= k < i ==> self.shape@[k] == bytes@[k],
                forall|k: int| i <= k < before.len() ==> self.shape@[k] == before[k],
            decreases n - i,
        {
            if i < self.shape.len() {
                self.shape[i] = bytes[i];
            } else {
                self.shape.push(bytes[i]);
            }
            i += 1;
        }
        self.shape_info = info;
        proof {
            assert(self.shape@ =~= old(self)@.stored(bytes@, info).shape);
        }
    }
}

} // verus!
