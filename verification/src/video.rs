//! Linear framebuffer drawing: pixels, lines, rectangles, and whole-screen
//! clears, over a byte buffer laid out row by row.

use vstd::prelude::*;

verus! {

/// An RGB color, eight bits per channel.
#[derive(Copy, Clone, Debug)]
pub struct Color {
    pub red: u8,
    pub green: u8,
    pub blue: u8,
}

impl Color {
    /// Creates a new color from the given RGB values.
    pub fn from(red: u8, green: u8, blue: u8) -> (c: Color)
        ensures
            c.red == red,
            c.green == green,
            c.blue == blue,
    {
        Color { red, green, blue }
    }

    /// Creates a color from a packed `0xRRGGBB` value.
    pub fn hex(hex: u32) -> (c: Color)
        ensures
            c.red == (hex >> 16) as u8,
            c.green == (hex >> 8) as u8,
            c.blue == hex as u8,
    {
        Color { red: (hex >> 16) as u8, green: (hex >> 8) as u8, blue: hex as u8 }
    }
}

/// A linear framebuffer: a byte buffer laid out row by row, `stride` bytes
/// from one row's start to the next, `bytes_per_pixel` bytes per pixel of
/// which the first three hold the blue, green and red channels.
pub struct Framebuffer {
    pub buffer: Vec<u8>,
    pub height: usize,
    pub width: usize,
    pub stride: usize,
    pub bytes_per_pixel: usize,
}

impl Framebuffer {
    /// The dimensions are consistent: every pixel's three color bytes lie
    /// inside the buffer.
    pub open spec fn wf(self) -> bool {
        &&& self.bytes_per_pixel >= 3
        &&& self.width * self.bytes_per_pixel <= self.stride
        &&& self.height * self.stride <= self.buffer.len()
    }

    /// Byte offset of pixel `(x, y)`.
    pub open spec fn pixel_offset(self, x: int, y: int) -> int {
        y * self.stride + x * self.bytes_per_pixel
    }

    /// Pixel `(x, y)` shows `color`: its three color bytes hold the blue,
    /// green and red channels in that order.
    pub open spec fn pixel_painted(self, x: int, y: int, color: Color) -> bool {
        &&& self.buffer@[self.pixel_offset(x, y)] == color.blue
        &&& self.buffer@[self.pixel_offset(x, y) + 1] == color.green
        &&& self.buffer@[self.pixel_offset(x, y) + 2] == color.red
    }

    /// Byte `k` is one of the three color bytes of a pixel in the rectangle
    /// with top-left corner `(x, y)`, width `w` and height `h`.
    pub open spec fn rect_byte(self, x: int, y: int, w: int, h: int, k: int) -> bool {
        exists|px: int, py: int|
            x <= px < x + w && y <= py < y + h && #[trigger] self.pixel_offset(px, py) <= k
                < self.pixel_offset(px, py) + 3
    }

    /// Byte offset of the `p`-th pixel slot when the buffer is walked as one
    /// packed run of `height * width` slots, the way the screen clear always
    /// has: row padding is not skipped.
    pub open spec fn packed_offset(self, p: int) -> int {
        p * self.bytes_per_pixel
    }

    /// Byte `k` is one of the three color bytes of a packed pixel slot.
    pub open spec fn packed_byte(self, k: int) -> bool {
        exists|p: int|
            0 <= p < self.height * self.width && #[trigger] self.packed_offset(p) <= k
                < self.packed_offset(p) + 3
    }

    /// Packed pixel slot `p` shows `color`.
    pub open spec fn packed_painted(self, p: int, color: Color) -> bool {
        &&& self.buffer@[self.packed_offset(p)] == color.blue
        &&& self.buffer@[self.packed_offset(p) + 1] == color.green
        &&& self.buffer@[self.packed_offset(p) + 2] == color.red
    }

    /// Everything but the pixel bytes: the dimensions and the buffer length.
    pub open spec fn same_shape(self, other: Framebuffer) -> bool {
        &&& self.height == other.height
        &&& self.width == other.width
        &&& self.stride == other.stride
        &&& self.bytes_per_pixel == other.bytes_per_pixel
        &&& self.buffer.len() == other.buffer.len()
    }

    /// Makes a framebuffer from the plain layout values the boot handoff
    /// supplies: `stride` counts pixels between row starts and is converted
    /// to bytes here.
    pub fn new(
        buffer: Vec<u8>,
        height: usize,
        width: usize,
        stride: usize,
        bytes_per_pixel: usize,
    ) -> (fb: Framebuffer)
        requires
            bytes_per_pixel >= 3,
            width <= stride,
            stride * bytes_per_pixel <= usize::MAX,
            height * (stride * bytes_per_pixel) <= buffer.len(),
        ensures
            fb.wf(),
            fb.buffer == buffer,
            fb.height == height,
            fb.width == width,
            fb.stride == stride * bytes_per_pixel,
            fb.bytes_per_pixel == bytes_per_pixel,
    {
        proof {
            assert(width * bytes_per_pixel <= stride * bytes_per_pixel) by (nonlinear_arith)
                requires
                    width <= stride,
                    bytes_per_pixel >= 0,
            ;
        }
        Framebuffer { buffer, height, width, stride: stride * bytes_per_pixel, bytes_per_pixel }
    }
}

/// A pixel inside the dimensions has its three color bytes inside the buffer.
pub proof fn lemma_pixel_in_bounds(fb: Framebuffer, x: int, y: int)
    requires
        fb.wf(),
        0 <= x < fb.width,
        0 <= y < fb.height,
    ensures
        0 <= fb.pixel_offset(x, y),
        fb.pixel_offset(x, y) + fb.bytes_per_pixel <= fb.buffer@.len(),
{
    assert(0 <= y * fb.stride + x * fb.bytes_per_pixel && y * fb.stride + x * fb.bytes_per_pixel
        + fb.bytes_per_pixel <= fb.buffer@.len()) by (nonlinear_arith)
        requires
            0 <= x,
            0 <= y,
            x + 1 <= fb.width,
            y + 1 <= fb.height,
            3 <= fb.bytes_per_pixel,
            fb.width * fb.bytes_per_pixel <= fb.stride,
            fb.height * fb.stride <= fb.buffer@.len(),
    ;
}

/// The three color bytes of two distinct pixels never overlap.
pub proof fn lemma_pixel_ranges_disjoint(fb: Framebuffer, xa: int, ya: int, xb: int, yb: int)
    requires
        fb.wf(),
        0 <= xa < fb.width,
        0 <= ya < fb.height,
        0 <= xb < fb.width,
        0 <= yb < fb.height,
        xa != xb || ya != yb,
    ensures
        fb.pixel_offset(xa, ya) + 3 <= fb.pixel_offset(xb, yb) || fb.pixel_offset(xb, yb) + 3
            <= fb.pixel_offset(xa, ya),
{
    assert((ya * fb.stride + xa * fb.bytes_per_pixel) + 3 <= yb * fb.stride + xb
        * fb.bytes_per_pixel || (yb * fb.stride + xb * fb.bytes_per_pixel) + 3 <= ya * fb.stride
        + xa * fb.bytes_per_pixel) by (nonlinear_arith)
        requires
            0 <= xa < fb.width,
            0 <= ya < fb.height,
            0 <= xb < fb.width,
            0 <= yb < fb.height,
            xa != xb || ya != yb,
            3 <= fb.bytes_per_pixel,
            fb.width * fb.bytes_per_pixel <= fb.stride,
    ;
}

/// A packed pixel slot below `height * width` has its three color bytes
/// inside the buffer.
pub proof fn lemma_packed_in_bounds(fb: Framebuffer, p: int)
    requires
        fb.wf(),
        0 <= p < fb.height * fb.width,
    ensures
        0 <= fb.packed_offset(p),
        fb.packed_offset(p) + fb.bytes_per_pixel <= fb.buffer@.len(),
{
    assert(0 <= p * fb.bytes_per_pixel && p * fb.bytes_per_pixel + fb.bytes_per_pixel
        <= fb.buffer@.len()) by (nonlinear_arith)
        requires
            0 <= p,
            p + 1 <= fb.height * fb.width,
            3 <= fb.bytes_per_pixel,
            fb.width * fb.bytes_per_pixel <= fb.stride,
            fb.height * fb.stride <= fb.buffer@.len(),
    ;
}

/// The three color bytes of two distinct packed pixel slots never overlap.
pub proof fn lemma_packed_ranges_disjoint(fb: Framebuffer, pa: int, pb: int)
    requires
        fb.wf(),
        pa != pb,
    ensures
        fb.packed_offset(pa) + 3 <= fb.packed_offset(pb) || fb.packed_offset(pb) + 3
            <= fb.packed_offset(pa),
{
    assert(pa * fb.bytes_per_pixel + 3 <= pb * fb.bytes_per_pixel || pb * fb.bytes_per_pixel + 3
        <= pa * fb.bytes_per_pixel) by (nonlinear_arith)
        requires
            pa != pb,
            3 <= fb.bytes_per_pixel,
    ;
}

/// Writes one pixel's three color bytes at `offset`: blue, green, red.
fn set_pixel(buf: &mut Vec<u8>, offset: usize, color: Color)
    requires
        offset + 2 < old(buf).len(),
    ensures
        final(buf)@ == old(buf)@.update(offset as int, color.blue).update(
            offset + 1,
            color.green,
        ).update(offset + 2, color.red),
{
    buf.set(offset, color.blue);
    buf.set(offset + 1, color.green);
    buf.set(offset + 2, color.red);
}

/// Draws one pixel at `(x, y)`: exactly that pixel's color bytes change.
pub fn draw_pixel(fb: &mut Framebuffer, x: usize, y: usize, color: Color)
    requires
        old(fb).wf(),
        x < old(fb).width,
        y < old(fb).height,
    ensures
        final(fb).wf(),
        final(fb).same_shape(*old(fb)),
        final(fb).pixel_painted(x as int, y as int, color),
        forall|k: int|
            0 <= k < old(fb).buffer@.len() && !(old(fb).pixel_offset(x as int, y as int) <= k
                < old(fb).pixel_offset(x as int, y as int) + 3) ==> final(fb).buffer@[k] == old(
                fb,
            ).buffer@[k],
{
    proof {
        lemma_pixel_in_bounds(*fb, x as int, y as int);
    }
    let offset = y * fb.stride + x * fb.bytes_per_pixel;
    set_pixel(&mut fb.buffer, offset, color);
}

/// Draws the horizontal run of `len` pixels from `(x, y)`: exactly those
/// pixels' color bytes change.
pub fn draw_line_horizontal(fb: &mut Framebuffer, x: usize, y: usize, len: usize, color: Color)
    requires
        old(fb).wf(),
        x + len <= old(fb).width,
        y < old(fb).height,
    ensures
        final(fb).wf(),
        final(fb).same_shape(*old(fb)),
        forall|px: int| x <= px < x + len ==> final(fb).pixel_painted(px, y as int, color),
        forall|k: int|
            0 <= k < old(fb).buffer@.len() && !old(fb).rect_byte(
                x as int,
                y as int,
                len as int,
                1,
                k,
            ) ==> final(fb).buffer@[k] == old(fb).buffer@[k],
{
    let ghost orig = *fb;
    proof {
        assert(y * fb.stride + x * fb.bytes_per_pixel <= fb.buffer@.len()) by (nonlinear_arith)
            requires
                x <= fb.width,
                y + 1 <= fb.height,
                0 <= x,
                0 <= y,
                0 <= fb.bytes_per_pixel,
                fb.width * fb.bytes_per_pixel <= fb.stride,
                fb.height * fb.stride <= fb.buffer@.len(),
        ;
    }
    let mut offset = y * fb.stride + x * fb.bytes_per_pixel;
    let mut i: usize = 0;
    while i < len
        invariant
            fb.wf(),
            fb.same_shape(orig),
            fb.stride == orig.stride,
            fb.bytes_per_pixel == orig.bytes_per_pixel,
            x + len <= fb.width,
            y < fb.height,
            i <= len,
            offset == fb.pixel_offset(x + i, y as int),
            forall|px: int| x <= px < x + i ==> fb.pixel_painted(px, y as int, color),
            forall|k: int|
                0 <= k < orig.buffer@.len() && !orig.rect_byte(
                    x as int,
                    y as int,
                    len as int,
                    1,
                    k,
                ) ==> fb.buffer@[k] == orig.buffer@[k],
        decreases len - i,
    {
        proof {
            lemma_pixel_in_bounds(*fb, x + i as int, y as int);
        }
        let ghost before = *fb;
        set_pixel(&mut fb.buffer, offset, color);
        proof {
            let o = fb.pixel_offset(x + i as int, y as int);
            assert forall|px: int| x <= px < x + i + 1 implies fb.pixel_painted(
                px,
                y as int,
                color,
            ) by {
                if px < x + i {
                    assert(before.pixel_painted(px, y as int, color));
                    lemma_pixel_in_bounds(before, px, y as int);
                    lemma_pixel_ranges_disjoint(*fb, px, y as int, x + i as int, y as int);
                }
            }
            assert forall|k: int|
                0 <= k < orig.buffer@.len() && !orig.rect_byte(
                    x as int,
                    y as int,
                    len as int,
                    1,
                    k,
                ) implies fb.buffer@[k] == orig.buffer@[k] by {
                if o <= k < o + 3 {
                    assert(orig.pixel_offset(x + i as int, y as int) == o);
                    assert(orig.rect_byte(x as int, y as int, len as int, 1, k));
                } else {
                    assert(fb.buffer@[k] == before.buffer@[k]);
                }
            }
            assert((x + i as int + 1) * fb.bytes_per_pixel == (x + i as int)
                * fb.bytes_per_pixel + fb.bytes_per_pixel) by (nonlinear_arith);
        }
        offset += fb.bytes_per_pixel;
        i += 1;
    }
}

/// Draws the filled rectangle with top-left corner `(x, y)`, width `w` and
/// height `h`, row by row: exactly those pixels' color bytes change. The
/// width bound on `y + h` mirrors the run-time check this routine has always
/// made alongside the one the buffer forces.
pub fn draw_rect(fb: &mut Framebuffer, x: usize, y: usize, w: usize, h: usize, color: Color)
    requires
        old(fb).wf(),
        x + w <= old(fb).width,
        y + h <= old(fb).width,
        y + h <= old(fb).height,
    ensures
        final(fb).wf(),
        final(fb).same_shape(*old(fb)),
        forall|px: int, py: int|
            x <= px < x + w && y <= py < y + h ==> final(fb).pixel_painted(px, py, color),
        forall|k: int|
            0 <= k < old(fb).buffer@.len() && !old(fb).rect_byte(
                x as int,
                y as int,
                w as int,
                h as int,
                k,
            ) ==> final(fb).buffer@[k] == old(fb).buffer@[k],
{
    let ghost orig = *fb;
    let mut row: usize = 0;
    while row < h
        invariant
            fb.wf(),
            fb.same_shape(orig),
            fb.stride == orig.stride,
            fb.bytes_per_pixel == orig.bytes_per_pixel,
            x + w <= fb.width,
            y + h <= fb.height,
            row <= h,
            forall|px: int, py: int|
                x <= px < x + w && y <= py < y + row ==> fb.pixel_painted(px, py, color),
            forall|k: int|
                0 <= k < orig.buffer@.len() && !orig.rect_byte(
                    x as int,
                    y as int,
                    w as int,
                    h as int,
                    k,
                ) ==> fb.buffer@[k] == orig.buffer@[k],
        decreases h - row,
    {
        let ghost before = *fb;
        draw_line_horizontal(fb, x, y + row, w, color);
        proof {
            assert forall|qx: int, qy: int|
                x <= qx < x + w && y <= qy < y + row + 1 implies fb.pixel_painted(
                qx,
                qy,
                color,
            ) by {
                if qy < y + row {
                    assert(before.pixel_painted(qx, qy, color));
                    lemma_pixel_in_bounds(before, qx, qy);
                    assert forall|k: int|
                        before.pixel_offset(qx, qy) <= k < before.pixel_offset(qx, qy)
                            + 3 implies fb.buffer@[k] == before.buffer@[k] by {
                        if before.rect_byte(x as int, (y + row) as int, w as int, 1, k) {
                            let (px, py): (int, int) = choose|px: int, py: int|
                                x <= px < x + w && y + row <= py < y + row + 1
                                    && #[trigger] before.pixel_offset(px, py) <= k
                                    < before.pixel_offset(px, py) + 3;
                            lemma_pixel_ranges_disjoint(before, qx, qy, px, py);
                        }
                    }
                }
            }
            assert forall|k: int|
                0 <= k < orig.buffer@.len() && !orig.rect_byte(
                    x as int,
                    y as int,
                    w as int,
                    h as int,
                    k,
                ) implies fb.buffer@[k] == orig.buffer@[k] by {
                if before.rect_byte(x as int, (y + row) as int, w as int, 1, k) {
                    let (px, py): (int, int) = choose|px: int, py: int|
                        x <= px < x + w && y + row <= py < y + row + 1 && #[trigger] before
                            .pixel_offset(px, py) <= k < before.pixel_offset(px, py) + 3;
                    assert(orig.pixel_offset(px, py) == before.pixel_offset(px, py));
                    assert(orig.rect_byte(x as int, y as int, w as int, h as int, k));
                } else {
                    assert(fb.buffer@[k] == before.buffer@[k]);
                }
            }
        }
        row += 1;
    }
}

/// The smaller of two integers.
pub open spec fn min_int(a: int, b: int) -> int {
    if a <= b {
        a
    } else {
        b
    }
}

/// The larger of two integers.
pub open spec fn max_int(a: int, b: int) -> int {
    if a <= b {
        b
    } else {
        a
    }
}

/// Pixel `(x, y)` holds the same three color bytes in `post` as in `pre`.
pub open spec fn pixel_bytes_unchanged(pre: Framebuffer, post: Framebuffer, x: int, y: int) -> bool {
    &&& post.buffer@[pre.pixel_offset(x, y)] == pre.buffer@[pre.pixel_offset(x, y)]
    &&& post.buffer@[pre.pixel_offset(x, y) + 1] == pre.buffer@[pre.pixel_offset(x, y) + 1]
    &&& post.buffer@[pre.pixel_offset(x, y) + 2] == pre.buffer@[pre.pixel_offset(x, y) + 2]
}

/// Draws a line from `(x0, y0)` to `(x1, y1)` with Bresenham's algorithm.
/// Both endpoints end up painted; every other pixel of the endpoints'
/// bounding box is either painted with `color` or untouched, and every byte
/// outside that box is untouched. The dimension bounds keep the error term of
/// the algorithm inside a 32-bit machine word.
pub fn draw_line(fb: &mut Framebuffer, x0: i32, y0: i32, x1: i32, y1: i32, color: Color)
    requires
        old(fb).wf(),
        0 <= x0 < old(fb).width,
        0 <= x1 < old(fb).width,
        0 <= y0 < old(fb).height,
        0 <= y1 < old(fb).height,
        old(fb).width <= 0x4000_0000,
        old(fb).height <= 0x4000_0000,
    ensures
        final(fb).wf(),
        final(fb).same_shape(*old(fb)),
        final(fb).pixel_painted(x0 as int, y0 as int, color),
        final(fb).pixel_painted(x1 as int, y1 as int, color),
        forall|px: int, py: int|
            min_int(x0 as int, x1 as int) <= px <= max_int(x0 as int, x1 as int) && min_int(
                y0 as int,
                y1 as int,
            ) <= py <= max_int(y0 as int, y1 as int) ==> (pixel_bytes_unchanged(
                *old(fb),
                *final(fb),
                px,
                py,
            ) || final(fb).pixel_painted(px, py, color)),
        forall|k: int|
            0 <= k < old(fb).buffer@.len() && !old(fb).rect_byte(
                min_int(x0 as int, x1 as int),
                min_int(y0 as int, y1 as int),
                max_int(x0 as int, x1 as int) - min_int(x0 as int, x1 as int) + 1,
                max_int(y0 as int, y1 as int) - min_int(y0 as int, y1 as int) + 1,
                k,
            ) ==> final(fb).buffer@[k] == old(fb).buffer@[k],
{
    let ghost orig = *fb;
    let ghost gx0 = x0 as int;
    let ghost gy0 = y0 as int;

    let mut x0 = x0;
    let mut y0 = y0;

    let dx = if x0 > x1 {
        x0 - x1
    } else {
        x1 - x0
    };
    let dy = if y0 > y1 {
        y0 - y1
    } else {
        y1 - y0
    };

    let sx: i32 = if x0 < x1 {
        1
    } else {
        -1
    };
    let sy: i32 = if y0 < y1 {
        1
    } else {
        -1
    };

    let mut err: i32 = if dx > dy {
        dx / 2
    } else {
        -(dy / 2)
    };
    let ghost e0 = err as int;

    let ghost mut a: int = 0;
    let ghost mut b: int = 0;

    loop
        invariant
            fb.wf(),
            fb.same_shape(orig),
            fb.stride == orig.stride,
            fb.bytes_per_pixel == orig.bytes_per_pixel,
            fb.width == orig.width,
            fb.height == orig.height,
            0 <= gx0 < fb.width,
            0 <= x1 < fb.width,
            0 <= gy0 < fb.height,
            0 <= y1 < fb.height,
            fb.width <= 0x4000_0000,
            fb.height <= 0x4000_0000,
            sx == 1 || sx == -1,
            sy == 1 || sy == -1,
            0 <= dx < 0x4000_0000,
            0 <= dy < 0x4000_0000,
            sx == 1 ==> x1 == gx0 + dx,
            sx == -1 ==> x1 == gx0 - dx,
            sy == 1 ==> y1 == gy0 + dy,
            sy == -1 ==> y1 == gy0 - dy,
            0 <= a <= dx,
            0 <= b <= dy,
            sx == 1 ==> x0 == gx0 + a,
            sx == -1 ==> x0 == gx0 - a,
            sy == 1 ==> y0 == gy0 + b,
            sy == -1 ==> y0 == gy0 - b,
            err == e0 - a * dy + b * dx,
            2 * e0 <= dx,
            -dy <= 2 * e0,
            -2 * dy <= 2 * err,
            2 * err <= 2 * dx,
            fb.pixel_painted(gx0, gy0, color) || (x0 == gx0 && y0 == gy0),
            forall|px: int, py: int|
                min_int(gx0, x1 as int) <= px <= max_int(gx0, x1 as int) && min_int(
                    gy0,
                    y1 as int,
                ) <= py <= max_int(gy0, y1 as int) ==> (pixel_bytes_unchanged(orig, *fb, px, py)
                    || fb.pixel_painted(px, py, color)),
            forall|k: int|
                0 <= k < orig.buffer@.len() && !orig.rect_byte(
                    min_int(gx0, x1 as int),
                    min_int(gy0, y1 as int),
                    max_int(gx0, x1 as int) - min_int(gx0, x1 as int) + 1,
                    max_int(gy0, y1 as int) - min_int(gy0, y1 as int) + 1,
                    k,
                ) ==> fb.buffer@[k] == orig.buffer@[k],
        ensures
            fb.wf(),
            fb.same_shape(orig),
            fb.stride == orig.stride,
            fb.bytes_per_pixel == orig.bytes_per_pixel,
            fb.pixel_painted(gx0, gy0, color),
            fb.pixel_painted(x1 as int, y1 as int, color),
            forall|px: int, py: int|
                min_int(gx0, x1 as int) <= px <= max_int(gx0, x1 as int) && min_int(
                    gy0,
                    y1 as int,
                ) <= py <= max_int(gy0, y1 as int) ==> (pixel_bytes_unchanged(orig, *fb, px, py)
                    || fb.pixel_painted(px, py, color)),
            forall|k: int|
                0 <= k < orig.buffer@.len() && !orig.rect_byte(
                    min_int(gx0, x1 as int),
                    min_int(gy0, y1 as int),
                    max_int(gx0, x1 as int) - min_int(gx0, x1 as int) + 1,
                    max_int(gy0, y1 as int) - min_int(gy0, y1 as int) + 1,
                    k,
                ) ==> fb.buffer@[k] == orig.buffer@[k],
        decreases (dx - a) + (dy - b),
    {
        let ghost before = *fb;
        let ghost cx = x0 as int;
        let ghost cy = y0 as int;
        proof {
            lemma_pixel_in_bounds(*fb, cx, cy);
        }
        let y0_usize: usize = y0 as usize;
        let x0_usize: usize = x0 as usize;
        let offset = y0_usize * fb.stride + x0_usize * fb.bytes_per_pixel;
        set_pixel(&mut fb.buffer, offset, color);
        proof {
            assert(fb.pixel_painted(cx, cy, color));
            if !(cx == gx0 && cy == gy0) {
                if before.pixel_painted(gx0, gy0, color) {
                    lemma_pixel_in_bounds(before, gx0, gy0);
                    lemma_pixel_ranges_disjoint(before, gx0, gy0, cx, cy);
                }
            }
            assert forall|px: int, py: int|
                min_int(gx0, x1 as int) <= px <= max_int(gx0, x1 as int) && min_int(
                    gy0,
                    y1 as int,
                ) <= py <= max_int(gy0, y1 as int) implies (pixel_bytes_unchanged(
                orig,
                *fb,
                px,
                py,
            ) || fb.pixel_painted(px, py, color)) by {
                if px != cx || py != cy {
                    assert(pixel_bytes_unchanged(orig, before, px, py) || before.pixel_painted(
                        px,
                        py,
                        color,
                    ));
                    lemma_pixel_in_bounds(before, px, py);
                    lemma_pixel_ranges_disjoint(before, px, py, cx, cy);
                }
            }
            assert forall|k: int|
                0 <= k < orig.buffer@.len() && !orig.rect_byte(
                    min_int(gx0, x1 as int),
                    min_int(gy0, y1 as int),
                    max_int(gx0, x1 as int) - min_int(gx0, x1 as int) + 1,
                    max_int(gy0, y1 as int) - min_int(gy0, y1 as int) + 1,
                    k,
                ) implies fb.buffer@[k] == orig.buffer@[k] by {
                let o = before.pixel_offset(cx, cy);
                if o <= k < o + 3 {
                    assert(orig.pixel_offset(cx, cy) == o);
                    assert(orig.rect_byte(
                        min_int(gx0, x1 as int),
                        min_int(gy0, y1 as int),
                        max_int(gx0, x1 as int) - min_int(gx0, x1 as int) + 1,
                        max_int(gy0, y1 as int) - min_int(gy0, y1 as int) + 1,
                        k,
                    ));
                } else {
                    assert(fb.buffer@[k] == before.buffer@[k]);
                }
            }
        }

        if x0 == x1 && y0 == y1 {
            break ;
        }

        proof {
            if x0 == x1 {
                assert(a == dx);
                assert(b <= dy - 1);
                assert(2 * err <= -dx) by (nonlinear_arith)
                    requires
                        err == e0 - a * dy + b * dx,
                        a == dx,
                        0 <= b,
                        b <= dy - 1,
                        2 * e0 <= dx,
                        0 <= dx,
                        0 <= dy,
                ;
            }
            if y0 == y1 {
                assert(b == dy);
                assert(a <= dx - 1);
                assert(2 * err >= dy) by (nonlinear_arith)
                    requires
                        err == e0 - a * dy + b * dx,
                        b == dy,
                        0 <= a,
                        a <= dx - 1,
                        -dy <= 2 * e0,
                        0 <= dx,
                        0 <= dy,
                ;
            }
        }

        let err2 = 2 * err;

        if err2 > -dx {
            proof {
                assert((a + 1) * dy == a * dy + dy) by (nonlinear_arith);
            }
            err -= dy;
            x0 += sx;
            proof {
                a = a + 1;
            }
        }
        if err2 < dy {
            proof {
                assert((b + 1) * dx == b * dx + dx) by (nonlinear_arith);
            }
            err += dx;
            y0 += sy;
            proof {
                b = b + 1;
            }
        }
    }
}

/// Clears the screen to black, walking the buffer as one packed run of
/// `height * width` pixel slots: exactly those slots' color bytes change, and
/// each ends up holding zero in all three channels.
pub fn clear_screen(fb: &mut Framebuffer)
    requires
        old(fb).wf(),
    ensures
        final(fb).wf(),
        final(fb).same_shape(*old(fb)),
        forall|p: int|
            0 <= p < old(fb).height * old(fb).width ==> final(fb).packed_painted(
                p,
                (Color { red: 0, green: 0, blue: 0 }),
            ),
        forall|k: int|
            0 <= k < old(fb).buffer@.len() && !old(fb).packed_byte(k) ==> final(fb).buffer@[k]
                == old(fb).buffer@[k],
{
    let ghost orig = *fb;
    let black = Color::hex(0x000000);
    proof {
        assert((0u32 >> 16) as u8 == 0 && (0u32 >> 8) as u8 == 0 && 0u32 as u8 == 0)
            by (bit_vector);
    }
    let mut offset: usize = 0;
    let mut row: usize = 0;
    while row < fb.height
        invariant
            fb.wf(),
            fb.same_shape(orig),
            fb.stride == orig.stride,
            fb.bytes_per_pixel == orig.bytes_per_pixel,
            fb.height == orig.height,
            fb.width == orig.width,
            black == (Color { red: 0, green: 0, blue: 0 }),
            row <= fb.height,
            offset == fb.packed_offset(row * fb.width as int),
            forall|p: int| 0 <= p < row * fb.width ==> fb.packed_painted(p, black),
            forall|k: int|
                0 <= k < orig.buffer@.len() && !orig.packed_byte(k) ==> fb.buffer@[k]
                    == orig.buffer@[k],
        decreases fb.height - row,
    {
        let mut col: usize = 0;
        while col < fb.width
            invariant
                fb.wf(),
                fb.same_shape(orig),
                fb.stride == orig.stride,
                fb.bytes_per_pixel == orig.bytes_per_pixel,
                fb.height == orig.height,
                fb.width == orig.width,
                black == (Color { red: 0, green: 0, blue: 0 }),
                row < fb.height,
                col <= fb.width,
                offset == fb.packed_offset(row * fb.width + col),
                forall|p: int| 0 <= p < row * fb.width + col ==> fb.packed_painted(p, black),
                forall|k: int|
                    0 <= k < orig.buffer@.len() && !orig.packed_byte(k) ==> fb.buffer@[k]
                        == orig.buffer@[k],
            decreases fb.width - col,
        {
            let ghost q = row * fb.width + col as int;
            proof {
                assert(q + 1 <= fb.height * fb.width) by (nonlinear_arith)
                    requires
                        q == row * fb.width + col,
                        0 <= col < fb.width,
                        0 <= row < fb.height,
                ;
                lemma_packed_in_bounds(*fb, q);
            }
            let ghost before = *fb;
            set_pixel(&mut fb.buffer, offset, black);
            proof {
                assert forall|p: int| 0 <= p < q + 1 implies fb.packed_painted(p, black) by {
                    if p < q {
                        assert(before.packed_painted(p, black));
                        assert(0 <= p < fb.height * fb.width) by (nonlinear_arith)
                            requires
                                0 <= p,
                                p < q,
                                q + 1 <= fb.height * fb.width,
                        ;
                        lemma_packed_in_bounds(before, p);
                        lemma_packed_ranges_disjoint(*fb, p, q);
                    }
                }
                assert forall|k: int|
                    0 <= k < orig.buffer@.len() && !orig.packed_byte(k) implies fb.buffer@[k]
                    == orig.buffer@[k] by {
                    let o = fb.packed_offset(q);
                    if o <= k < o + 3 {
                        assert(orig.packed_offset(q) == o);
                        assert(orig.packed_byte(k));
                    } else {
                        assert(fb.buffer@[k] == before.buffer@[k]);
                    }
                }
                assert((q + 1) * fb.bytes_per_pixel == q * fb.bytes_per_pixel
                    + fb.bytes_per_pixel) by (nonlinear_arith);
            }
            offset += fb.bytes_per_pixel;
            col += 1;
        }
        proof {
            assert((row + 1) * fb.width == row * fb.width + fb.width) by (nonlinear_arith);
        }
        row += 1;
    }
    proof {
        assert(fb.height * fb.width == orig.height * orig.width);
    }
}

} // verus!
