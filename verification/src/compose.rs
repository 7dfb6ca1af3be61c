//! Blending a cursor shape into a frame of packed four-byte pixels, blue
//! first and alpha last.

use vstd::prelude::*;
use crate::cursor::{
    CursorInfo, CursorView, ShapeInfo, SHAPE_COLOR, SHAPE_MASKED_COLOR, SHAPE_MONOCHROME,
};

verus! {

/// Size and row stride of a frame.
#[derive(Clone, Copy, Debug, PartialEq, Eq, Structural)]
pub struct FrameLayout {
    /// Width in pixels.
    pub width: u32,
    /// Height in rows.
    pub height: u32,
    /// Bytes from one row to the next.
    pub pitch: u32,
}

/// One channel of a colour cursor over one channel of the frame: the two
/// weighted by alpha, divided by 255 and cut off.
pub open spec fn blend(alpha: u8, src: u8, dst: u8) -> u8 {
    ((alpha * src + (255 - alpha) * dst) / 255) as u8
}

/// A blended channel is the weighted mean itself, nothing is lost when it is
/// written as a byte, and it lies between the two channels.
pub proof fn lemma_blend_bounds(alpha: u8, src: u8, dst: u8)
    ensures
        blend(alpha, src, dst) == (alpha * src + (255 - alpha) * dst) / 255,
        src <= dst ==> src <= blend(alpha, src, dst) <= dst,
        dst <= src ==> dst <= blend(alpha, src, dst) <= src,
        alpha == 255 ==> blend(alpha, src, dst) == src,
        alpha == 0 ==> blend(alpha, src, dst) == dst,
{
    let a = alpha as int;
    let s = src as int;
    let d = dst as int;
    let sum = a * s + (255 - a) * d;
    assert(0 <= a * s <= 255 * s && 0 <= (255 - a) * d <= 255 * d) by (nonlinear_arith)
        requires
            0 <= a <= 255,
            0 <= s,
            0 <= d,
    ;
    assert(s <= d ==> 255 * s <= sum <= 255 * d) by (nonlinear_arith)
        requires
            0 <= a <= 255,
            sum == a * s + (255 - a) * d,
    ;
    assert(d <= s ==> 255 * d <= sum <= 255 * s) by (nonlinear_arith)
        requires
            0 <= a <= 255,
            sum == a * s + (255 - a) * d,
    ;
    assert(a == 255 ==> sum == 255 * s) by (nonlinear_arith)
        requires
            sum == a * s + (255 - a) * d,
    ;
    assert(a == 0 ==> sum == 255 * d) by (nonlinear_arith)
        requires
            sum == a * s + (255 - a) * d,
    ;
}

/// Computes one blended channel.
pub fn blend_channel(alpha: u8, src: u8, dst: u8) -> (r: u8)
    ensures
        r == blend(alpha, src, dst),
{
    proof {
        lemma_blend_bounds(alpha, src, dst);
        assert(0 <= alpha * src <= 255 * 255 && 0 <= (255 - alpha) * dst <= 255 * 255)
            by (nonlinear_arith)
            requires
                0 <= alpha <= 255,
                0 <= src <= 255,
                0 <= dst <= 255,
        ;
    }
    let a: u32 = alpha as u32;
    let sum: u32 = a * (src as u32) + (255 - a) * (dst as u32);
    (sum / 255) as u8
}

/// The frame after a colour pixel, read at `from` in the shape, was laid
/// over the pixel at `at`: nothing where its alpha is zero; else each colour
/// channel blended by alpha, and the frame's alpha made opaque.
pub open spec fn color_pixel(frame: Seq<u8>, at: int, shape: Seq<u8>, from: int) -> Seq<u8> {
    let alpha = shape[from + 3];
    if alpha == 0 {
        frame
    } else {
        frame.update(at, blend(alpha, shape[from], frame[at])).update(
            at + 1,
            blend(alpha, shape[from + 1], frame[at + 1]),
        ).update(at + 2, blend(alpha, shape[from + 2], frame[at + 2])).update(at + 3, 255u8)
    }
}

/// One channel of a masked-colour pixel over one channel of the frame: a
/// zero byte lets the frame show, any other byte replaces it.
pub open spec fn masked(src: u8, dst: u8) -> u8 {
    if src != 0 {
        src
    } else {
        dst
    }
}

/// The frame after a masked-colour pixel, read at `from` in the shape, was
/// laid over the pixel at `at`: nothing where its alpha is zero; else each
/// colour channel replaced unless the shape's byte is zero, and the frame's
/// alpha made opaque.
pub open spec fn masked_pixel(frame: Seq<u8>, at: int, shape: Seq<u8>, from: int) -> Seq<u8> {
    let alpha = shape[from + 3];
    if alpha == 0 {
        frame
    } else {
        frame.update(at, masked(shape[from], frame[at])).update(
            at + 1,
            masked(shape[from + 1], frame[at + 1]),
        ).update(at + 2, masked(shape[from + 2], frame[at + 2])).update(at + 3, 255u8)
    }
}

/// The bit for column `x` in a mask byte: the leftmost pixel has the highest
/// bit.
pub open spec fn mask_bit(byte: u8, x: u32) -> bool {
    (byte >> ((7 - x % 8) as u8)) & 1 == 1
}

/// The frame after a monochrome pixel was laid over the pixel at `at`: left
/// alone where the AND bit is set; else inverted where the XOR bit is set,
/// and made black where it is not. The frame's alpha stays.
pub open spec fn mono_pixel(frame: Seq<u8>, at: int, and_bit: bool, xor_bit: bool) -> Seq<u8> {
    if and_bit {
        frame
    } else if xor_bit {
        frame.update(at, (255 - frame[at]) as u8).update(
            at + 1,
            (255 - frame[at + 1]) as u8,
        ).update(at + 2, (255 - frame[at + 2]) as u8)
    } else {
        frame.update(at, 0u8).update(at + 1, 0u8).update(at + 2, 0u8)
    }
}

/// A colour pixel with alpha zero changes nothing. Any other blends the
/// three colour channels, makes the alpha byte 255, and touches no other
/// byte.
pub proof fn lemma_color_pixel(frame: Seq<u8>, at: int, shape: Seq<u8>, from: int)
    requires
        0 <= at,
        at + 3 < frame.len(),
    ensures
        color_pixel(frame, at, shape, from).len() == frame.len(),
        shape[from + 3] == 0 ==> color_pixel(frame, at, shape, from) == frame,
        shape[from + 3] != 0 ==> {
            &&& forall|k: int|
                0 <= k < 3 ==> #[trigger] color_pixel(frame, at, shape, from)[at + k] == blend(
                    shape[from + 3],
                    shape[from + k],
                    frame[at + k],
                )
            &&& color_pixel(frame, at, shape, from)[at + 3] == 255
        },
        forall|i: int|
            0 <= i < at || at + 4 <= i < frame.len() ==> #[trigger] color_pixel(
                frame,
                at,
                shape,
                from,
            )[i] == frame[i],
{
}

/// A masked-colour pixel with alpha zero changes nothing. Of any other, a
/// zero channel byte never replaces the frame's, a channel byte that is not
/// zero always does, the alpha byte becomes 255, and no other byte is
/// touched.
pub proof fn lemma_masked_pixel(frame: Seq<u8>, at: int, shape: Seq<u8>, from: int)
    requires
        0 <= at,
        at + 3 < frame.len(),
    ensures
        masked_pixel(frame, at, shape, from).len() == frame.len(),
        shape[from + 3] == 0 ==> masked_pixel(frame, at, shape, from) == frame,
        shape[from + 3] != 0 ==> {
            &&& forall|k: int|
                0 <= k < 3 && shape[from + k] == 0 ==> #[trigger] masked_pixel(
                    frame,
                    at,
                    shape,
                    from,
                )[at + k] == frame[at + k]
            &&& forall|k: int|
                0 <= k < 3 && shape[from + k] != 0 ==> #[trigger] masked_pixel(
                    frame,
                    at,
                    shape,
                    from,
                )[at + k] == shape[from + k]
            &&& masked_pixel(frame, at, shape, from)[at + 3] == 255
        },
        forall|i: int|
            0 <= i < at || at + 4 <= i < frame.len() ==> #[trigger] masked_pixel(
                frame,
                at,
                shape,
                from,
            )[i] == frame[i],
{
}

/// A monochrome pixel by its two bits: with the AND bit set the frame stays;
/// with neither bit set the three colour channels become zero; with the XOR
/// bit alone each colour channel becomes 255 less itself. The alpha byte
/// and every other byte stay.
pub proof fn lemma_mono_pixel(frame: Seq<u8>, at: int, and_bit: bool, xor_bit: bool)
    requires
        0 <= at,
        at + 3 < frame.len(),
    ensures
        mono_pixel(frame, at, and_bit, xor_bit).len() == frame.len(),
        and_bit ==> mono_pixel(frame, at, and_bit, xor_bit) == frame,
        !and_bit && !xor_bit ==> forall|k: int|
            0 <= k < 3 ==> #[trigger] mono_pixel(frame, at, and_bit, xor_bit)[at + k] == 0,
        !and_bit && xor_bit ==> forall|k: int|
            0 <= k < 3 ==> #[trigger] mono_pixel(frame, at, and_bit, xor_bit)[at + k] == 255
                - frame[at + k],
        forall|i: int|
            0 <= i < at || at + 3 <= i < frame.len() ==> #[trigger] mono_pixel(
                frame,
                at,
                and_bit,
                xor_bit,
            )[i] == frame[i],
{
}

/// Column of the frame under column `x` of the cursor.
pub open spec fn frame_x(cursor: CursorView, x: int) -> int {
    cursor.x + x - cursor.shape_info.hot_x
}

/// Row of the frame under row `y` of the cursor.
pub open spec fn frame_y(cursor: CursorView, y: int) -> int {
    cursor.y + y - cursor.shape_info.hot_y
}

/// Offset of the pixel in column `fx` and row `fy` of the frame.
pub open spec fn frame_offset(layout: FrameLayout, fx: int, fy: int) -> int {
    fy * layout.pitch + fx * 4
}

/// Offset in the shape of the four-byte pixel in column `x` and row `y`.
pub open spec fn shape_offset(info: ShapeInfo, x: int, y: int) -> int {
    y * info.pitch + x * 4
}

/// Rows of each of the two masks of a monochrome shape: half of what is
/// reported.
pub open spec fn mask_rows(info: ShapeInfo) -> int {
    info.height as int / 2
}

/// Offset in the shape of the AND mask byte for column `x` and row `y`.
pub open spec fn and_offset(info: ShapeInfo, x: int, y: int) -> int {
    y * info.pitch + x / 8
}

/// Offset in the shape of the XOR mask byte for column `x` and row `y`: as
/// far behind the AND mask byte as one mask is long.
pub open spec fn xor_offset(info: ShapeInfo, x: int, y: int) -> int {
    (mask_rows(info) + y) * info.pitch + x / 8
}

/// Whether pixel (`x`, `y`) of the cursor is drawn into a frame of `len`
/// bytes: it falls inside the frame, its four bytes lie inside the frame's
/// buffer, the encoding is known, and what it reads lies inside the shape
/// buffer. Of a monochrome shape only the rows of the first mask are pixels.
pub open spec fn drawn(len: nat, layout: FrameLayout, cursor: CursorView, x: int, y: int) -> bool {
    let info = cursor.shape_info;
    let fx = frame_x(cursor, x);
    let fy = frame_y(cursor, y);
    &&& 0 <= fx < layout.width
    &&& 0 <= fy < layout.height
    &&& frame_offset(layout, fx, fy) + 3 < len
    &&& if info.kind == SHAPE_COLOR || info.kind == SHAPE_MASKED_COLOR {
        shape_offset(info, x, y) + 3 < cursor.shape.len()
    } else if info.kind == SHAPE_MONOCHROME {
        &&& y < mask_rows(info)
        &&& xor_offset(info, x, y) < cursor.shape.len()
    } else {
        false
    }
}

/// The frame after pixel (`x`, `y`) of the cursor was laid over it.
pub open spec fn draw_pixel(
    frame: Seq<u8>,
    layout: FrameLayout,
    cursor: CursorView,
    x: int,
    y: int,
) -> Seq<u8> {
    let info = cursor.shape_info;
    let at = frame_offset(layout, frame_x(cursor, x), frame_y(cursor, y));
    if !drawn(frame.len(), layout, cursor, x, y) {
        frame
    } else if info.kind == SHAPE_COLOR {
        color_pixel(frame, at, cursor.shape, shape_offset(info, x, y))
    } else if info.kind == SHAPE_MASKED_COLOR {
        masked_pixel(frame, at, cursor.shape, shape_offset(info, x, y))
    } else {
        mono_pixel(
            frame,
            at,
            mask_bit(cursor.shape[and_offset(info, x, y)], x as u32),
            mask_bit(cursor.shape[xor_offset(info, x, y)], x as u32),
        )
    }
}

/// The frame after the first `n` pixels of row `y` of the cursor were laid
/// over it, from the left.
pub open spec fn draw_row(
    frame: Seq<u8>,
    layout: FrameLayout,
    cursor: CursorView,
    y: int,
    n: nat,
) -> Seq<u8>
    decreases n,
{
    if n == 0 {
        frame
    } else {
        draw_pixel(draw_row(frame, layout, cursor, y, (n - 1) as nat), layout, cursor, n - 1, y)
    }
}

/// The frame after the first `m` rows of the cursor were laid over it, from
/// the top.
pub open spec fn draw_rows(frame: Seq<u8>, layout: FrameLayout, cursor: CursorView, m: nat) -> Seq<
    u8,
>
    decreases m,
{
    if m == 0 {
        frame
    } else {
        draw_row(
            draw_rows(frame, layout, cursor, (m - 1) as nat),
            layout,
            cursor,
            m - 1,
            cursor.shape_info.width as nat,
        )
    }
}

/// The frame with the whole cursor laid over it.
pub open spec fn composited(frame: Seq<u8>, layout: FrameLayout, cursor: CursorView) -> Seq<u8> {
    draw_rows(frame, layout, cursor, cursor.shape_info.height as nat)
}

/// Laying a pixel over the frame keeps the frame's length.
pub proof fn lemma_draw_pixel_len(
    frame: Seq<u8>,
    layout: FrameLayout,
    cursor: CursorView,
    x: int,
    y: int,
)
    ensures
        draw_pixel(frame, layout, cursor, x, y).len() == frame.len(),
{
}

/// The product of two 32-bit numbers lies below the square of their limit.
pub proof fn lemma_product_bound(a: int, b: int)
    requires
        0 <= a <= 0xffff_ffff,
        0 <= b <= 0xffff_ffff,
    ensures
        0 <= a * b <= 0xffff_fffe_0000_0001,
{
    assert(0 <= a * b <= 0xffff_ffff * 0xffff_ffff) by (nonlinear_arith)
        requires
            0 <= a <= 0xffff_ffff,
            0 <= b <= 0xffff_ffff,
    ;
}

impl CursorInfo {
    /// Lays the colour pixel at `cursor_index` of the shape over the pixel
    /// at `frame_index` of the frame. Nothing happens where either pixel
    /// does not lie inside its buffer, or where the shape's alpha is zero.
    pub fn draw_color_cursor(&self, frame: &mut [u8], frame_index: usize, cursor_index: usize)
        ensures
            final(frame)@ == if frame_index + 3 < old(frame)@.len() && cursor_index + 3
                < self@.shape.len() {
                color_pixel(old(frame)@, frame_index as int, self@.shape, cursor_index as int)
            } else {
                old(frame)@
            },
    {
        let shape = self.shape();
        if frame.len() < 4 || frame_index > frame.len() - 4 || shape.len() < 4 || cursor_index
            > shape.len() - 4 {
            return ;
        }
        let alpha: u8 = shape[cursor_index + 3];
        if alpha > 0 {
            let b: u8 = blend_channel(alpha, shape[cursor_index], frame[frame_index]);
            let g: u8 = blend_channel(alpha, shape[cursor_index + 1], frame[frame_index + 1]);
            let r: u8 = blend_channel(alpha, shape[cursor_index + 2], frame[frame_index + 2]);
            frame[frame_index] = b;
            frame[frame_index + 1] = g;
            frame[frame_index + 2] = r;
            frame[frame_index + 3] = 255;
        }
    }

    /// Lays the masked-colour pixel at `cursor_index` of the shape over the
    /// pixel at `frame_index` of the frame. Nothing happens where either
    /// pixel does not lie inside its buffer, or where the shape's alpha is
    /// zero. Else a zero channel byte of the shape never replaces the
    /// frame's, any other byte always does, and the frame's alpha becomes
    /// 255.
    pub fn draw_masked_color_cursor(
        &self,
        frame: &mut [u8],
        frame_index: usize,
        cursor_index: usize,
    )
        ensures
            final(frame)@ == if frame_index + 3 < old(frame)@.len() && cursor_index + 3
                < self@.shape.len() {
                masked_pixel(old(frame)@, frame_index as int, self@.shape, cursor_index as int)
            } else {
                old(frame)@
            },
    {
        let shape = self.shape();
        if frame.len() < 4 || frame_index > frame.len() - 4 || shape.len() < 4 || cursor_index
            > shape.len() - 4 {
            return ;
        }
        let alpha: u8 = shape[cursor_index + 3];
        if alpha > 0 {
            let ghost before = frame@;
            let b: u8 = shape[cursor_index];
            let g: u8 = shape[cursor_index + 1];
            let r: u8 = shape[cursor_index + 2];
            if b > 0 {
                frame[frame_index] = b;
            }
            assert(frame@ =~= before.update(
                frame_index as int,
                masked(b, before[frame_index as int]),
            ));
            let ghost first = frame@;
            if g > 0 {
                frame[frame_index + 1] = g;
            }
            assert(frame@ =~= first.update(frame_index + 1, masked(g, first[frame_index + 1])));
            let ghost second = frame@;
            if r > 0 {
                frame[frame_index + 2] = r;
            }
            assert(frame@ =~= second.update(frame_index + 2, masked(r, second[frame_index + 2])));
            frame[frame_index + 3] = 255;
        }
    }

    /// Lays a monochrome pixel in column `x` of the shape, whose mask bytes
    /// lie at `and_index` and `xor_index`, over the pixel at `frame_index`
    /// of the frame. Nothing happens where the pixel does not lie inside the
    /// frame's buffer or a mask byte does not lie inside the shape's.
    pub fn draw_monochrome_cursor(
        &self,
        frame: &mut [u8],
        frame_index: usize,
        and_index: usize,
        xor_index: usize,
        x: u32,
    )
        ensures
            final(frame)@ == if frame_index + 3 < old(frame)@.len() && and_index
                < self@.shape.len() && xor_index < self@.shape.len() {
                mono_pixel(
                    old(frame)@,
                    frame_index as int,
                    mask_bit(self@.shape[and_index as int], x),
                    mask_bit(self@.shape[xor_index as int], x),
                )
            } else {
                old(frame)@
            },
    {
        let shape = self.shape();
        if frame.len() < 4 || frame_index > frame.len() - 4 || and_index >= shape.len()
            || xor_index >= shape.len() {
            return ;
        }
        let bit_index: u8 = (7 - x % 8) as u8;
        let and_mask: bool = (shape[and_index] >> bit_index) & 1 == 1;
        let xor_mask: bool = (shape[xor_index] >> bit_index) & 1 == 1;
        if !and_mask {
            if xor_mask {
                let b: u8 = frame[frame_index];
                let g: u8 = frame[frame_index + 1];
                let r: u8 = frame[frame_index + 2];
                frame[frame_index] = 255 - b;
                frame[frame_index + 1] = 255 - g;
                frame[frame_index + 2] = 255 - r;
            } else {
                frame[frame_index] = 0;
                frame[frame_index + 1] = 0;
                frame[frame_index + 2] = 0;
            }
        }
    }

    /// Lays pixel (`x`, `y`) of the cursor over the frame, where it is
    /// drawn.
    pub fn draw_at(&self, frame: &mut [u8], layout: &FrameLayout, x: u32, y: u32)
        ensures
            final(frame)@ == draw_pixel(old(frame)@, *layout, self@, x as int, y as int),
    {
        let info = self.shape_info();
        let (cursor_x, cursor_y) = self.position();
        let fx: i64 = cursor_x + x as i64 - info.hot_x as i64;
        let fy: i64 = cursor_y + y as i64 - info.hot_y as i64;
        if fx < 0 || fy < 0 || fx >= layout.width as i64 || fy >= layout.height as i64 {
            return ;
        }
        proof {
            lemma_product_bound(fy as int, layout.pitch as int);
            lemma_product_bound(y as int, info.pitch as int);
        }
        let at: u128 = fy as u128 * layout.pitch as u128 + fx as u128 * 4;
        if at + 3 >= frame.len() as u128 {
            return ;
        }
        let shape_len: u128 = self.shape().len() as u128;
        if info.kind == SHAPE_COLOR || info.kind == SHAPE_MASKED_COLOR {
            let from: u128 = y as u128 * info.pitch as u128 + x as u128 * 4;
            if from + 3 < shape_len {
                if info.kind == SHAPE_COLOR {
                    self.draw_color_cursor(frame, at as usize, from as usize);
                } else {
                    self.draw_masked_color_cursor(frame, at as usize, from as usize);
                }
            }
        } else if info.kind == SHAPE_MONOCHROME {
            let rows: u32 = info.height / 2;
            if y < rows {
                proof {
                    lemma_product_bound(rows + y, info.pitch as int);
                }
                let and_index: u128 = y as u128 * info.pitch as u128 + (x / 8) as u128;
                let xor_index: u128 = (rows as u128 + y as u128) * info.pitch as u128 + (x
                    / 8) as u128;
                if xor_index < shape_len {
                    proof {
                        assert(and_index <= xor_index) by (nonlinear_arith)
                            requires
                                and_index == y * info.pitch + x / 8,
                                xor_index == (rows + y) * info.pitch + x / 8,
                                0 <= rows,
                                0 <= info.pitch,
                        ;
                    }
                    self.draw_monochrome_cursor(
                        frame,
                        at as usize,
                        and_index as usize,
                        xor_index as usize,
                        x,
                    );
                }
            }
        }
    }

    /// Lays the cursor over a frame of the given layout, pixel by pixel,
    /// row by row from the top and each row from the left.
    pub fn draw_cursor(&self, frame: &mut [u8], layout: &FrameLayout)
        ensures
            final(frame)@ == composited(old(frame)@, *layout, self@),
            final(frame)@.len() == old(frame)@.len(),
    {
        let info = self.shape_info();
        let ghost before = frame@;
        let mut y: u32 = 0;
        while y < info.height
            invariant
                info == self@.shape_info,
                y <= info.height,
                frame@.len() == before.len(),
                frame@ == draw_rows(before, *layout, self@, y as nat),
            decreases info.height - y,
        {
            let ghost above = frame@;
            let mut x: u32 = 0;
            while x < info.width
                invariant
                    info == self@.shape_info,
                    x <= info.width,
                    y < info.height,
                    frame@.len() == before.len(),
                    above == draw_rows(before, *layout, self@, y as nat),
                    frame@ == draw_row(above, *layout, self@, y as int, x as nat),
                decreases info.width - x,
            {
                proof {
                    lemma_draw_pixel_len(frame@, *layout, self@, x as int, y as int);
                }
                self.draw_at(frame, layout, x, y);
                x += 1;
            }
            y += 1;
        }
    }
}

} // verus!
