//! What compositing does to each byte of a frame whose rows do not overlap:
//! every pixel under the cursor is the cursor's pixel laid over the frame's
//! own, and every other byte stays.

use vstd::prelude::*;
use crate::compose::{
    composited, draw_pixel, draw_row, draw_rows, drawn, frame_offset, frame_x, frame_y,
    FrameLayout,
};
use crate::cursor::CursorView;

verus! {

/// Offset in the frame of the pixel under pixel (`x`, `y`) of the cursor.
pub open spec fn target(layout: FrameLayout, cursor: CursorView, x: int, y: int) -> int {
    frame_offset(layout, frame_x(cursor, x), frame_y(cursor, y))
}

/// Byte `i` of the frame belongs to the pixel under pixel (`x`, `y`) of the
/// cursor, and that pixel is drawn.
pub open spec fn covers(
    len: nat,
    layout: FrameLayout,
    cursor: CursorView,
    x: int,
    y: int,
    i: int,
) -> bool {
    &&& drawn(len, layout, cursor, x, y)
    &&& target(layout, cursor, x, y) <= i < target(layout, cursor, x, y) + 4
}

/// None of the first `n` pixels of row `y` of the cursor covers byte `i`.
pub open spec fn row_clear(
    len: nat,
    layout: FrameLayout,
    cursor: CursorView,
    y: int,
    n: int,
    i: int,
) -> bool {
    forall|x: int| 0 <= x < n ==> !#[trigger] covers(len, layout, cursor, x, y, i)
}

/// No pixel in the first `m` rows of the cursor covers byte `i`.
pub open spec fn clear(len: nat, layout: FrameLayout, cursor: CursorView, m: int, i: int) -> bool {
    forall|x: int, y: int|
        0 <= x < cursor.shape_info.width && 0 <= y < m ==> !#[trigger] covers(
            len,
            layout,
            cursor,
            x,
            y,
            i,
        )
}

/// A pixel that is drawn lies inside the frame's buffer.
proof fn lemma_target_in_buffer(len: nat, layout: FrameLayout, cursor: CursorView, x: int, y: int)
    requires
        drawn(len, layout, cursor, x, y),
    ensures
        0 <= target(layout, cursor, x, y),
        target(layout, cursor, x, y) + 3 < len,
{
    let fy = frame_y(cursor, y);
    let pitch = layout.pitch as int;
    assert(0 <= fy * pitch) by (nonlinear_arith)
        requires
            0 <= fy,
            0 <= pitch,
    ;
}

/// Laying one pixel changes nothing outside that pixel.
proof fn lemma_pixel_frame(frame: Seq<u8>, layout: FrameLayout, cursor: CursorView, x: int, y: int)
    ensures
        draw_pixel(frame, layout, cursor, x, y).len() == frame.len(),
        forall|i: int|
            0 <= i < frame.len() && !covers(frame.len(), layout, cursor, x, y, i)
                ==> #[trigger] draw_pixel(frame, layout, cursor, x, y)[i] == frame[i],
{
    if drawn(frame.len(), layout, cursor, x, y) {
        lemma_target_in_buffer(frame.len(), layout, cursor, x, y);
    }
}

/// What laying one pixel makes of that pixel depends on nothing else in the
/// frame.
proof fn lemma_pixel_local(
    first: Seq<u8>,
    second: Seq<u8>,
    layout: FrameLayout,
    cursor: CursorView,
    x: int,
    y: int,
)
    requires
        first.len() == second.len(),
        drawn(first.len(), layout, cursor, x, y),
        forall|j: int|
            target(layout, cursor, x, y) <= j < target(layout, cursor, x, y) + 4 ==> first[j]
                == second[j],
    ensures
        forall|i: int|
            target(layout, cursor, x, y) <= i < target(layout, cursor, x, y) + 4
                ==> #[trigger] draw_pixel(first, layout, cursor, x, y)[i] == draw_pixel(
                second,
                layout,
                cursor,
                x,
                y,
            )[i],
{
    lemma_target_in_buffer(first.len(), layout, cursor, x, y);
    let at = target(layout, cursor, x, y);
    assert(first[at] == second[at]);
    assert(first[at + 1] == second[at + 1]);
    assert(first[at + 2] == second[at + 2]);
    assert(first[at + 3] == second[at + 3]);
}

/// In a frame whose rows do not overlap, two pixels of the cursor that are
/// drawn do not share a byte.
proof fn lemma_pixels_apart(
    len: nat,
    layout: FrameLayout,
    cursor: CursorView,
    x1: int,
    y1: int,
    x2: int,
    y2: int,
)
    requires
        layout.pitch >= 4 * layout.width,
        drawn(len, layout, cursor, x1, y1),
        drawn(len, layout, cursor, x2, y2),
        x1 != x2 || y1 != y2,
    ensures
        target(layout, cursor, x1, y1) + 4 <= target(layout, cursor, x2, y2) || target(
            layout,
            cursor,
            x2,
            y2,
        ) + 4 <= target(layout, cursor, x1, y1),
{
    let pitch = layout.pitch as int;
    let width = layout.width as int;
    let fx1 = frame_x(cursor, x1);
    let fx2 = frame_x(cursor, x2);
    let fy1 = frame_y(cursor, y1);
    let fy2 = frame_y(cursor, y2);
    if fy1 < fy2 {
        assert((fy2 - fy1) * pitch >= pitch) by (nonlinear_arith)
            requires
                fy2 - fy1 >= 1,
                pitch >= 0,
        ;
        assert(fy2 * pitch - fy1 * pitch == (fy2 - fy1) * pitch) by (nonlinear_arith);
    } else if fy2 < fy1 {
        assert((fy1 - fy2) * pitch >= pitch) by (nonlinear_arith)
            requires
                fy1 - fy2 >= 1,
                pitch >= 0,
        ;
        assert(fy1 * pitch - fy2 * pitch == (fy1 - fy2) * pitch) by (nonlinear_arith);
    }
}

/// The first `n` pixels of a row, laid over a frame whose rows do not
/// overlap: each covered byte is what laying its pixel alone makes of it,
/// and every byte that none of them covers stays.
proof fn lemma_row(
    frame: Seq<u8>,
    layout: FrameLayout,
    cursor: CursorView,
    y: int,
    n: nat,
)
    requires
        layout.pitch >= 4 * layout.width,
    ensures
        draw_row(frame, layout, cursor, y, n).len() == frame.len(),
        forall|i: int|
            0 <= i < frame.len() && #[trigger] row_clear(
                frame.len(),
                layout,
                cursor,
                y,
                n as int,
                i,
            ) ==> draw_row(frame, layout, cursor, y, n)[i] == frame[i],
        forall|x: int, i: int|
            0 <= x < n && #[trigger] covers(frame.len(), layout, cursor, x, y, i) ==> draw_row(
                frame,
                layout,
                cursor,
                y,
                n,
            )[i] == draw_pixel(frame, layout, cursor, x, y)[i],
    decreases n,
{
    if n > 0 {
        let len = frame.len();
        let last = n - 1;
        let before = draw_row(frame, layout, cursor, y, last as nat);
        let after = draw_row(frame, layout, cursor, y, n);
        lemma_row(frame, layout, cursor, y, last as nat);
        lemma_pixel_frame(before, layout, cursor, last, y);
        assert(after == draw_pixel(before, layout, cursor, last, y));
        assert forall|i: int|
            0 <= i < len && #[trigger] row_clear(
                len,
                layout,
                cursor,
                y,
                n as int,
                i,
            ) implies after[i] == frame[i] by {
            assert(!covers(len, layout, cursor, last, y, i));
            assert(row_clear(len, layout, cursor, y, last, i));
        }
        assert forall|x: int, i: int|
            0 <= x < n && #[trigger] covers(len, layout, cursor, x, y, i) implies after[i]
            == draw_pixel(frame, layout, cursor, x, y)[i] by {
            lemma_target_in_buffer(len, layout, cursor, x, y);
            if x == last {
                assert forall|j: int|
                    target(layout, cursor, last, y) <= j < target(layout, cursor, last, y)
                        + 4 implies before[j] == frame[j] by {
                    assert forall|other: int| 0 <= other < last implies !#[trigger] covers(
                        len,
                        layout,
                        cursor,
                        other,
                        y,
                        j,
                    ) by {
                        if drawn(len, layout, cursor, other, y) {
                            lemma_pixels_apart(len, layout, cursor, other, y, last, y);
                        }
                    }
                    assert(row_clear(len, layout, cursor, y, last, j));
                }
                lemma_pixel_local(before, frame, layout, cursor, last, y);
            } else {
                if drawn(len, layout, cursor, last, y) {
                    lemma_pixels_apart(len, layout, cursor, x, y, last, y);
                }
                assert(!covers(len, layout, cursor, last, y, i));
            }
        }
    }
}

/// The first `m` rows of the cursor, laid over a frame whose rows do not
/// overlap: each covered byte is what laying its pixel alone makes of it,
/// and every byte that none of them covers stays.
proof fn lemma_rows(frame: Seq<u8>, layout: FrameLayout, cursor: CursorView, m: nat)
    requires
        layout.pitch >= 4 * layout.width,
    ensures
        draw_rows(frame, layout, cursor, m).len() == frame.len(),
        forall|i: int|
            0 <= i < frame.len() && #[trigger] clear(frame.len(), layout, cursor, m as int, i)
                ==> draw_rows(frame, layout, cursor, m)[i] == frame[i],
        forall|x: int, y: int, i: int|
            0 <= x < cursor.shape_info.width && 0 <= y < m && #[trigger] covers(
                frame.len(),
                layout,
                cursor,
                x,
                y,
                i,
            ) ==> draw_rows(frame, layout, cursor, m)[i] == draw_pixel(
                frame,
                layout,
                cursor,
                x,
                y,
            )[i],
    decreases m,
{
    if m > 0 {
        let len = frame.len();
        let width = cursor.shape_info.width as nat;
        let last = m - 1;
        let before = draw_rows(frame, layout, cursor, last as nat);
        let after = draw_rows(frame, layout, cursor, m);
        lemma_rows(frame, layout, cursor, last as nat);
        lemma_row(before, layout, cursor, last, width);
        assert(after == draw_row(before, layout, cursor, last, width));
        assert forall|i: int|
            0 <= i < len && #[trigger] clear(len, layout, cursor, m as int, i) implies after[i]
            == frame[i] by {
            assert forall|x: int| 0 <= x < width implies !#[trigger] covers(
                len,
                layout,
                cursor,
                x,
                last,
                i,
            ) by {}
            assert(row_clear(len, layout, cursor, last, width as int, i));
            assert(clear(len, layout, cursor, last, i));
        }
        assert forall|x: int, y: int, i: int|
            0 <= x < width && 0 <= y < m && #[trigger] covers(
                len,
                layout,
                cursor,
                x,
                y,
                i,
            ) implies after[i] == draw_pixel(frame, layout, cursor, x, y)[i] by {
            lemma_target_in_buffer(len, layout, cursor, x, y);
            if y == last {
                assert forall|j: int|
                    target(layout, cursor, x, last) <= j < target(layout, cursor, x, last)
                        + 4 implies before[j] == frame[j] by {
                    assert forall|ox: int, oy: int|
                        0 <= ox < width && 0 <= oy < last implies !#[trigger] covers(
                        len,
                        layout,
                        cursor,
                        ox,
                        oy,
                        j,
                    ) by {
                        if drawn(len, layout, cursor, ox, oy) {
                            lemma_pixels_apart(len, layout, cursor, ox, oy, x, last);
                        }
                    }
                    assert(clear(len, layout, cursor, last, j));
                }
                lemma_pixel_local(before, frame, layout, cursor, x, last);
            } else {
                assert forall|ox: int| 0 <= ox < width implies !#[trigger] covers(
                    len,
                    layout,
                    cursor,
                    ox,
                    last,
                    i,
                ) by {
                    if drawn(len, layout, cursor, ox, last) {
                        lemma_pixels_apart(len, layout, cursor, x, y, ox, last);
                    }
                }
                assert(row_clear(len, layout, cursor, last, width as int, i));
            }
        }
    }
}

/// Compositing, byte by byte. In a frame whose rows do not overlap, every
/// byte of a pixel that lies under a drawn pixel of the cursor is what
/// laying that one pixel over the frame makes of it, and every other byte
/// of the frame stays as it was.
pub proof fn lemma_composited_bytes(frame: Seq<u8>, layout: FrameLayout, cursor: CursorView)
    requires
        layout.pitch >= 4 * layout.width,
    ensures
        composited(frame, layout, cursor).len() == frame.len(),
        forall|x: int, y: int, i: int|
            0 <= x < cursor.shape_info.width && 0 <= y < cursor.shape_info.height
                && #[trigger] covers(frame.len(), layout, cursor, x, y, i) ==> composited(
                frame,
                layout,
                cursor,
            )[i] == draw_pixel(frame, layout, cursor, x, y)[i],
        forall|i: int|
            0 <= i < frame.len() && #[trigger] clear(
                frame.len(),
                layout,
                cursor,
                cursor.shape_info.height as int,
                i,
            ) ==> composited(frame, layout, cursor)[i] == frame[i],
{
    lemma_rows(frame, layout, cursor, cursor.shape_info.height as nat);
}

} // verus!
