//! The software rasterizer: an owned pixel buffer of packed `0xAARRGGBB`
//! words with 2D drawing primitives over it.
//!
//! All coordinate and bounds handling clamps to the buffer; pixels outside
//! it are silently dropped, and no drawing call panics on out-of-range
//! input.  Every primitive other than [`Canvas::begin_frame`] and
//! [`Canvas::set_pixel`] blends its colour over the existing pixels.

use vstd::arithmetic::div_mod::{lemma_fundamental_div_mod, lemma_fundamental_div_mod_converse};
use vstd::prelude::*;

use crate::color::{blend, color_to_u32, spec_blend, spec_color_to_u32, Color};

verus! {

/// An axis-aligned rectangle with a top-left origin; y grows downward.
/// Coordinates are in whole pixels.
#[derive(Clone, Copy, PartialEq, Eq, Structural, Debug)]
pub struct Rect {
    pub x: i32,
    pub y: i32,
    pub width: i32,
    pub height: i32,
}

/// The rasterizer's pixel buffer, `width * height` packed pixels in
/// row-major order.
pub struct Canvas {
    buf: Vec<u32>,
    width: u32,
    height: u32,
}

/// The left edge of a rectangle clamped to the buffer: `max(x, 0)`.
pub open spec fn rect_x0(r: Rect) -> int {
    if r.x > 0 {
        r.x as int
    } else {
        0
    }
}

/// The top edge of a rectangle clamped to the buffer: `max(y, 0)`.
pub open spec fn rect_y0(r: Rect) -> int {
    if r.y > 0 {
        r.y as int
    } else {
        0
    }
}

/// The right edge of a rectangle clamped to the buffer: `min(x + width, cw)`.
pub open spec fn rect_x1(r: Rect, cw: int) -> int {
    if r.x + r.width < cw {
        r.x + r.width
    } else {
        cw
    }
}

/// The bottom edge of a rectangle clamped to the buffer: `min(y + height, ch)`.
pub open spec fn rect_y1(r: Rect, ch: int) -> int {
    if r.y + r.height < ch {
        r.y + r.height
    } else {
        ch
    }
}

/// Whether the pixel at `(x, y)` lies inside the rectangle once the
/// rectangle is clamped to a `cw x ch` buffer.
pub open spec fn rect_covers(r: Rect, cw: int, ch: int, x: int, y: int) -> bool {
    rect_x0(r) <= x < rect_x1(r, cw) && rect_y0(r) <= y < rect_y1(r, ch)
}

/// The buffer after blending a colour over every pixel of a clamped
/// rectangle and leaving every other pixel untouched.
pub open spec fn rect_stamp(buf: Seq<u32>, cw: int, ch: int, r: Rect, c: Color) -> Seq<u32> {
    Seq::new(
        buf.len(),
        |i: int|
            if cw > 0 && rect_covers(r, cw, ch, i % cw, i / cw) {
                spec_blend(buf[i], spec_color_to_u32(c), c.a as int)
            } else {
                buf[i]
            },
    )
}

/// Whether the pixel at `(x, y)` lies inside the disc around
/// `(cx, cy)` whose squared diameter is `m`: membership is
/// `4 * ((x - cx)^2 + (y - cy)^2) <= m`.
pub open spec fn disc_covers(cx: int, cy: int, m: int, x: int, y: int) -> bool {
    4 * ((x - cx) * (x - cx) + (y - cy) * (y - cy)) <= m
}

/// The buffer after blending a colour over every pixel of a disc and
/// leaving every other pixel untouched.
pub open spec fn disc_stamp(
    buf: Seq<u32>,
    cw: int,
    ch: int,
    cx: int,
    cy: int,
    m: int,
    c: Color,
) -> Seq<u32> {
    Seq::new(
        buf.len(),
        |i: int|
            if cw > 0 && disc_covers(cx, cy, m, i % cw, i / cw) {
                spec_blend(buf[i], spec_color_to_u32(c), c.a as int)
            } else {
                buf[i]
            },
    )
}

/// The index of the pixel at `(x, y)` in a row-major buffer `cw` wide
/// is in range, and decomposes back to `x` and `y`.
proof fn lemma_pix_index(cw: int, ch: int, x: int, y: int)
    requires
        0 <= x < cw,
        0 <= y < ch,
    ensures
        0 <= y * cw + x < cw * ch,
        (y * cw + x) % cw == x,
        (y * cw + x) / cw == y,
{
    assert(0 <= y * cw + x < cw * ch) by (nonlinear_arith)
        requires 0 <= x < cw && 0 <= y < ch;
    lemma_fundamental_div_mod_converse(y * cw + x, cw, y, x);
}

/// A buffer index decomposes into in-range pixel coordinates.
proof fn lemma_idx_decomp(cw: int, ch: int, i: int)
    requires
        cw > 0,
        0 <= i < cw * ch,
    ensures
        0 <= i % cw < cw,
        0 <= i / cw < ch,
        i == cw * (i / cw) + i % cw,
{
    lemma_fundamental_div_mod(i, cw);
    assert(0 <= i % cw < cw && 0 <= i / cw) by (nonlinear_arith)
        requires cw > 0 && i >= 0 && i == cw * (i / cw) + (i % cw);
    assert(i / cw < ch) by (nonlinear_arith)
        requires cw > 0 && i < cw * ch && 0 <= i % cw && i == cw * (i / cw) + (i % cw);
}

impl View for Canvas {
    type V = Seq<u32>;

    closed spec fn view(&self) -> Seq<u32> {
        self.buf@
    }
}

impl Canvas {
    /// The buffer's width in pixels.
    pub closed spec fn spec_width(&self) -> u32 {
        self.width
    }

    /// The buffer's height in pixels.
    pub closed spec fn spec_height(&self) -> u32 {
        self.height
    }

    /// The buffer holds exactly one pixel per coordinate.
    pub open spec fn wf(&self) -> bool {
        self@.len() == self.spec_width() as int * self.spec_height() as int
    }

    /// An empty canvas; the buffer is allocated by the first resize.
    pub fn new() -> (c: Canvas)
        ensures
            c.wf(),
            c.spec_width() == 0,
            c.spec_height() == 0,
            c@.len() == 0,
    {
        Canvas { buf: Vec::new(), width: 0, height: 0 }
    }

    /// Reallocates the buffer for a new size, keeping nothing.  Newly
    /// exposed pixels are cleared to zero.  A no-op when the size is
    /// unchanged.
    pub fn resize(&mut self, width: u32, height: u32)
        requires
            old(self).wf(),
            width as int * height as int <= usize::MAX as int,
        ensures
            final(self).wf(),
            final(self).spec_width() == width,
            final(self).spec_height() == height,
            old(self).spec_width() == width && old(self).spec_height() == height ==> final(self)@
                == old(self)@,
    {
        if self.width != width || self.height != height {
            self.width = width;
            self.height = height;
            proof {
                assert(width as int * height as int >= 0) by (nonlinear_arith);
            }
            let len: usize = (width as usize) * (height as usize);
            self.buf = Vec::new();
            self.buf.resize(len, 0u32);
        }
    }

    /// The current `(width, height)` of the buffer.
    pub fn dimensions(&self) -> (d: (u32, u32))
        ensures
            d.0 == self.spec_width(),
            d.1 == self.spec_height(),
    {
        (self.width, self.height)
    }

    /// The pixel at `(x, y)`; for tests and the presenter.
    pub fn pixel(&self, x: u32, y: u32) -> (p: u32)
        requires
            self.wf(),
            x < self.spec_width(),
            y < self.spec_height(),
        ensures
            p == self@[y as int * self.spec_width() as int + x as int],
    {
        let n: usize = self.buf.len();
        proof {
            lemma_pix_index(
                self.spec_width() as int,
                self.spec_height() as int,
                x as int,
                y as int,
            );
        }
        let idx: usize = (y as usize) * (self.width as usize) + (x as usize);
        self.buf[idx]
    }

    /// A borrow of the whole packed buffer; for the presenter.
    pub fn buffer(&self) -> (b: &Vec<u32>)
        ensures
            b@ == self@,
    {
        &self.buf
    }

    /// Fills the entire buffer with the packed colour — a hard clear
    /// with no blending.
    pub fn begin_frame(&mut self, color: Color)
        requires
            old(self).wf(),
        ensures
            final(self).wf(),
            final(self).spec_width() == old(self).spec_width(),
            final(self).spec_height() == old(self).spec_height(),
            final(self)@ == Seq::new(old(self)@.len(), |i: int| spec_color_to_u32(color)),
    {
        let packed: u32 = color_to_u32(&color);
        let len: usize = self.buf.len();
        let mut i: usize = 0;
        while i < len
            invariant
                len == self.buf@.len(),
                self.width == old(self).spec_width(),
                self.height == old(self).spec_height(),
                self.buf@.len() == old(self)@.len(),
                i <= len,
                packed == spec_color_to_u32(color),
                forall|j: int| 0 <= j < i ==> self.buf@[j] == spec_color_to_u32(color),
                forall|j: int| i <= j < len ==> self.buf@[j] == old(self)@[j],
            decreases len - i,
        {
            self.buf[i] = packed;
            i += 1;
        }
        proof {
            assert(self.buf@ =~= Seq::new(old(self)@.len(), |i: int| spec_color_to_u32(color)));
        }
    }

    /// Marks the end of a frame.  Presentation is the runtime host's
    /// responsibility, so this is a no-op marker.
    pub fn end_frame(&mut self)
        ensures
            *final(self) == *old(self),
    {
    }

    /// Writes the packed colour directly to one pixel — no blending —
    /// dropping the write silently when the pixel is out of bounds.
    pub fn set_pixel(&mut self, x: u32, y: u32, color: Color)
        requires
            old(self).wf(),
        ensures
            final(self).wf(),
            final(self).spec_width() == old(self).spec_width(),
            final(self).spec_height() == old(self).spec_height(),
            x < old(self).spec_width() && y < old(self).spec_height() ==> final(self)@ == old(
                self,
            )@.update(
                y as int * old(self).spec_width() as int + x as int,
                spec_color_to_u32(color),
            ),
            !(x < old(self).spec_width() && y < old(self).spec_height()) ==> final(self)@ == old(
                self,
            )@,
    {
        if x < self.width && y < self.height {
            let n: usize = self.buf.len();
            proof {
                lemma_pix_index(
                    self.spec_width() as int,
                    self.spec_height() as int,
                    x as int,
                    y as int,
                );
            }
            let idx: usize = (y as usize) * (self.width as usize) + (x as usize);
            let packed: u32 = color_to_u32(&color);
            self.buf[idx] = packed;
        }
    }

    /// Clamps the rectangle to the buffer and blends the colour over
    /// every covered pixel; pixels outside the clamped rectangle are
    /// untouched.
    pub fn fill_rect(&mut self, rect: Rect, color: Color)
        requires
            old(self).wf(),
        ensures
            final(self).wf(),
            final(self).spec_width() == old(self).spec_width(),
            final(self).spec_height() == old(self).spec_height(),
            final(self)@ == rect_stamp(
                old(self)@,
                old(self).spec_width() as int,
                old(self).spec_height() as int,
                rect,
                color,
            ),
    {
        let cw: u32 = self.width;
        let ch: u32 = self.height;
        let packed: u32 = color_to_u32(&color);
        let ghost buf0: Seq<u32> = self.buf@;
        let ghost cwi: int = cw as int;
        let ghost chi: int = ch as int;

        let x0: u32 = if rect.x > 0 {
            if rect.x as u32 > cw {
                cw
            } else {
                rect.x as u32
            }
        } else {
            0
        };
        let y0: u32 = if rect.y > 0 {
            if rect.y as u32 > ch {
                ch
            } else {
                rect.y as u32
            }
        } else {
            0
        };
        let xe: i64 = rect.x as i64 + rect.width as i64;
        let ye: i64 = rect.y as i64 + rect.height as i64;
        let x1: u32 = if xe < cw as i64 {
            if xe < x0 as i64 {
                x0
            } else {
                xe as u32
            }
        } else {
            cw
        };
        let y1: u32 = if ye < ch as i64 {
            if ye < y0 as i64 {
                y0
            } else {
                ye as u32
            }
        } else {
            ch
        };
        proof {
            assert(forall|x: int, y: int|
                rect_covers(rect, cwi, chi, x, y) <==> (x0 <= x < x1 && y0 <= y < y1));
        }

        let mut y: u32 = y0;
        while y < y1
            invariant
                self.width == cw,
                self.height == ch,
                cwi == cw as int,
                chi == ch as int,
                self.buf@.len() == buf0.len(),
                buf0.len() == cwi * chi,
                y0 <= y <= y1,
                y1 <= ch,
                x0 <= x1 <= cw,
                packed == spec_color_to_u32(color),
                forall|x: int, yy: int|
                    rect_covers(rect, cwi, chi, x, yy) <==> (x0 <= x < x1 && y0 <= yy < y1),
                forall|i: int|
                    0 <= i < buf0.len() ==> self.buf@[i] == (if rect_covers(
                        rect,
                        cwi,
                        chi,
                        i % cwi,
                        i / cwi,
                    ) && i / cwi < y {
                        spec_blend(buf0[i], spec_color_to_u32(color), color.a as int)
                    } else {
                        buf0[i]
                    }),
            decreases y1 - y,
        {
            let mut x: u32 = x0;
            while x < x1
                invariant
                    self.width == cw,
                    self.height == ch,
                    cwi == cw as int,
                    chi == ch as int,
                    self.buf@.len() == buf0.len(),
                    buf0.len() == cwi * chi,
                    y0 <= y < y1,
                    y1 <= ch,
                    x0 <= x <= x1,
                    x1 <= cw,
                    packed == spec_color_to_u32(color),
                    forall|xx: int, yy: int|
                        rect_covers(rect, cwi, chi, xx, yy) <==> (x0 <= xx < x1 && y0 <= yy < y1),
                    forall|i: int|
                        0 <= i < buf0.len() ==> self.buf@[i] == (if rect_covers(
                            rect,
                            cwi,
                            chi,
                            i % cwi,
                            i / cwi,
                        ) && (i / cwi < y || (i / cwi == y && i % cwi < x)) {
                            spec_blend(buf0[i], spec_color_to_u32(color), color.a as int)
                        } else {
                            buf0[i]
                        }),
                decreases x1 - x,
            {
                let n: usize = self.buf.len();
                proof {
                    lemma_pix_index(cwi, chi, x as int, y as int);
                }
                let idx: usize = (y as usize) * (cw as usize) + (x as usize);
                let d: u32 = self.buf[idx];
                let nb: u32 = blend(d, packed, color.a);
                self.buf[idx] = nb;
                proof {
                    let ghost xi = x as int;
                    let ghost yi = y as int;
                    assert forall|i: int| 0 <= i < buf0.len() implies self.buf@[i] == (
                    if rect_covers(rect, cwi, chi, i % cwi, i / cwi) && (i / cwi < yi || (i / cwi
                        == yi && i % cwi < xi + 1)) {
                        spec_blend(buf0[i], spec_color_to_u32(color), color.a as int)
                    } else {
                        buf0[i]
                    }) by {
                        lemma_idx_decomp(cwi, chi, i);
                        if i == yi * cwi + xi {
                            assert(i % cwi == xi && i / cwi == yi) by {
                                lemma_fundamental_div_mod_converse(i, cwi, yi, xi);
                            }
                        } else {
                            if i % cwi == xi && i / cwi == yi {
                                assert(cwi * yi == yi * cwi) by (nonlinear_arith);
                                assert(i == yi * cwi + xi);
                            }
                        }
                    }
                }
                x += 1;
            }
            y += 1;
        }
        proof {
            assert forall|i: int| 0 <= i < buf0.len() implies self.buf@[i] == rect_stamp(
                buf0,
                cwi,
                chi,
                rect,
                color,
            )[i] by {
                lemma_idx_decomp(cwi, chi, i);
            }
            assert(self.buf@ =~= rect_stamp(buf0, cwi, chi, rect, color));
        }
    }

    /// Blends the colour over every in-bounds pixel of the disc around
    /// `(cx, cy)` with squared-diameter bound `m`, scanning offsets in
    /// `[-hw, hw]` on both axes.
    fn stamp_disc(&mut self, cx: i64, cy: i64, hw: i64, m: i128, color: Color)
        requires
            old(self).wf(),
            0 <= hw <= 0x8000_0000i64,
            -0x10_0000_0000i64 <= cx <= 0x10_0000_0000i64,
            -0x10_0000_0000i64 <= cy <= 0x10_0000_0000i64,
            forall|d: int| 4 * #[trigger] (d * d) <= m ==> -hw <= d <= hw,
        ensures
            final(self).wf(),
            final(self).spec_width() == old(self).spec_width(),
            final(self).spec_height() == old(self).spec_height(),
            final(self)@ == disc_stamp(
                old(self)@,
                old(self).spec_width() as int,
                old(self).spec_height() as int,
                cx as int,
                cy as int,
                m as int,
                color,
            ),
    {
        let cw: u32 = self.width;
        let ch: u32 = self.height;
        let packed: u32 = color_to_u32(&color);
        let ghost buf0: Seq<u32> = self.buf@;
        let ghost cwi: int = cw as int;
        let ghost chi: int = ch as int;

        proof {
            assert forall|i: int| 0 <= i < buf0.len() implies self.buf@[i] == (if disc_covers(
                cx as int,
                cy as int,
                m as int,
                i % cwi,
                i / cwi,
            ) && i / cwi - cy < -hw {
                spec_blend(buf0[i], spec_color_to_u32(color), color.a as int)
            } else {
                buf0[i]
            }) by {
                lemma_idx_decomp(cwi, chi, i);
                if disc_covers(cx as int, cy as int, m as int, i % cwi, i / cwi) {
                    let dx = i % cwi - cx as int;
                    let dy = i / cwi - cy as int;
                    assert(dx * dx >= 0 && dy * dy >= 0) by (nonlinear_arith);
                    assert(4 * (dy * dy) <= m as int) by (nonlinear_arith)
                        requires
                            4 * (dx * dx + dy * dy) <= m as int,
                            dx * dx >= 0,
                    ;
                }
            }
        }
        let mut oy: i64 = -hw;
        while oy <= hw
            invariant
                self.width == cw,
                self.height == ch,
                cwi == cw as int,
                chi == ch as int,
                self.buf@.len() == buf0.len(),
                buf0.len() == cwi * chi,
                0 <= hw <= 0x8000_0000i64,
                -0x10_0000_0000i64 <= cx <= 0x10_0000_0000i64,
                -0x10_0000_0000i64 <= cy <= 0x10_0000_0000i64,
                -hw <= oy <= hw + 1,
                packed == spec_color_to_u32(color),
                forall|d: int| 4 * #[trigger] (d * d) <= m ==> -hw <= d <= hw,
                forall|i: int|
                    0 <= i < buf0.len() ==> self.buf@[i] == (if disc_covers(
                        cx as int,
                        cy as int,
                        m as int,
                        i % cwi,
                        i / cwi,
                    ) && i / cwi - cy < oy {
                        spec_blend(buf0[i], spec_color_to_u32(color), color.a as int)
                    } else {
                        buf0[i]
                    }),
            decreases hw + 1 - oy,
        {
            proof {
                assert forall|i: int| 0 <= i < buf0.len() implies self.buf@[i] == (if disc_covers(
                    cx as int,
                    cy as int,
                    m as int,
                    i % cwi,
                    i / cwi,
                ) && (i / cwi - cy < oy || (i / cwi - cy == oy && i % cwi - cx < -hw)) {
                    spec_blend(buf0[i], spec_color_to_u32(color), color.a as int)
                } else {
                    buf0[i]
                }) by {
                    lemma_idx_decomp(cwi, chi, i);
                    if disc_covers(cx as int, cy as int, m as int, i % cwi, i / cwi) {
                        let dx = i % cwi - cx as int;
                        let dy = i / cwi - cy as int;
                        assert(dx * dx >= 0 && dy * dy >= 0) by (nonlinear_arith);
                        assert(4 * (dx * dx) <= m as int) by (nonlinear_arith)
                            requires
                                4 * (dx * dx + dy * dy) <= m as int,
                                dy * dy >= 0,
                        ;
                    }
                }
            }
            let mut ox: i64 = -hw;
            while ox <= hw
                invariant
                    self.width == cw,
                    self.height == ch,
                    cwi == cw as int,
                    chi == ch as int,
                    self.buf@.len() == buf0.len(),
                    buf0.len() == cwi * chi,
                    0 <= hw <= 0x8000_0000i64,
                    -0x10_0000_0000i64 <= cx <= 0x10_0000_0000i64,
                    -0x10_0000_0000i64 <= cy <= 0x10_0000_0000i64,
                    -hw <= oy <= hw,
                    -hw <= ox <= hw + 1,
                    packed == spec_color_to_u32(color),
                    forall|d: int| 4 * #[trigger] (d * d) <= m ==> -hw <= d <= hw,
                    forall|i: int|
                        0 <= i < buf0.len() ==> self.buf@[i] == (if disc_covers(
                            cx as int,
                            cy as int,
                            m as int,
                            i % cwi,
                            i / cwi,
                        ) && (i / cwi - cy < oy || (i / cwi - cy == oy && i % cwi - cx < ox)) {
                            spec_blend(buf0[i], spec_color_to_u32(color), color.a as int)
                        } else {
                            buf0[i]
                        }),
                decreases hw + 1 - ox,
            {
                let oxs: i128 = ox as i128;
                let oys: i128 = oy as i128;
                proof {
                    assert(oxs * oxs >= 0 && oxs * oxs <= 0x4000_0000_0000_0000i128)
                        by (nonlinear_arith)
                        requires -0x8000_0000i128 <= oxs <= 0x8000_0000i128;
                    assert(oys * oys >= 0 && oys * oys <= 0x4000_0000_0000_0000i128)
                        by (nonlinear_arith)
                        requires -0x8000_0000i128 <= oys <= 0x8000_0000i128;
                }
                let q: i128 = 4 * (oxs * oxs + oys * oys);
                let px: i64 = cx + ox;
                let py: i64 = cy + oy;
                if q <= m && px >= 0 && py >= 0 && px < cw as i64 && py < ch as i64 {
                    let n: usize = self.buf.len();
                    proof {
                        lemma_pix_index(cwi, chi, px as int, py as int);
                    }
                    let idx: usize = (py as usize) * (cw as usize) + (px as usize);
                    let d: u32 = self.buf[idx];
                    let nb: u32 = blend(d, packed, color.a);
                    self.buf[idx] = nb;
                }
                proof {
                    let ghost oxi = ox as int;
                    let ghost oyi = oy as int;
                    let ghost cxi = cx as int;
                    let ghost cyi = cy as int;
                    assert forall|i: int| 0 <= i < buf0.len() implies self.buf@[i] == (
                    if disc_covers(cxi, cyi, m as int, i % cwi, i / cwi) && (i / cwi - cyi < oyi
                        || (i / cwi - cyi == oyi && i % cwi - cxi < oxi + 1)) {
                        spec_blend(buf0[i], spec_color_to_u32(color), color.a as int)
                    } else {
                        buf0[i]
                    }) by {
                        lemma_idx_decomp(cwi, chi, i);
                        if i % cwi - cxi == oxi && i / cwi - cyi == oyi {
                            // this is the one pixel the scan reached this step
                            assert(4 * ((i % cwi - cxi) * (i % cwi - cxi) + (i / cwi - cyi) * (i
                                / cwi - cyi)) == q as int) by (nonlinear_arith)
                                requires
                                    i % cwi - cxi == oxi,
                                    i / cwi - cyi == oyi,
                                    q as int == 4 * (oxi * oxi + oyi * oyi),
                            ;
                            if q <= m {
                                assert(cwi * (i / cwi) == (i / cwi) * cwi) by (nonlinear_arith);
                                assert(i == (i / cwi) * cwi + (i % cwi));
                            }
                        }
                    }
                }
                ox += 1;
            }
            proof {
                assert forall|i: int| 0 <= i < buf0.len() implies self.buf@[i] == (if disc_covers(
                    cx as int,
                    cy as int,
                    m as int,
                    i % cwi,
                    i / cwi,
                ) && i / cwi - cy < oy + 1 {
                    spec_blend(buf0[i], spec_color_to_u32(color), color.a as int)
                } else {
                    buf0[i]
                }) by {
                    lemma_idx_decomp(cwi, chi, i);
                    if disc_covers(cx as int, cy as int, m as int, i % cwi, i / cwi) {
                        let dx = i % cwi - cx as int;
                        let dy = i / cwi - cy as int;
                        assert(dx * dx >= 0 && dy * dy >= 0) by (nonlinear_arith);
                        assert(4 * (dx * dx) <= m as int) by (nonlinear_arith)
                            requires
                                4 * (dx * dx + dy * dy) <= m as int,
                                dy * dy >= 0,
                        ;
                    }
                }
            }
            oy += 1;
        }
        proof {
            assert forall|i: int| 0 <= i < buf0.len() implies self.buf@[i] == disc_stamp(
                buf0,
                cwi,
                chi,
                cx as int,
                cy as int,
                m as int,
                color,
            )[i] by {
                lemma_idx_decomp(cwi, chi, i);
                if disc_covers(cx as int, cy as int, m as int, i % cwi, i / cwi) {
                    let dx = i % cwi - cx as int;
                    let dy = i / cwi - cy as int;
                    assert(dx * dx >= 0 && dy * dy >= 0) by (nonlinear_arith);
                    assert(4 * (dy * dy) <= m as int) by (nonlinear_arith)
                        requires
                            4 * (dx * dx + dy * dy) <= m as int,
                            dx * dx >= 0,
                    ;
                }
            }
            assert(self.buf@ =~= disc_stamp(
                buf0,
                cwi,
                chi,
                cx as int,
                cy as int,
                m as int,
                color,
            ));
        }
    }

    /// Scans the integer bounding box around the centre and blends the
    /// colour over every pixel whose squared distance from the centre is
    /// at most the squared radius.  A negative radius draws nothing.
    pub fn fill_circle(&mut self, cx: i32, cy: i32, radius: i32, color: Color)
        requires
            old(self).wf(),
        ensures
            final(self).wf(),
            final(self).spec_width() == old(self).spec_width(),
            final(self).spec_height() == old(self).spec_height(),
            radius >= 0 ==> final(self)@ == disc_stamp(
                old(self)@,
                old(self).spec_width() as int,
                old(self).spec_height() as int,
                cx as int,
                cy as int,
                4 * (radius as int) * (radius as int),
                color,
            ),
            radius < 0 ==> final(self)@ == old(self)@,
    {
        if radius < 0 {
            return ;
        }
        let r: i64 = radius as i64;
        let ri: i128 = r as i128;
        proof {
            assert(ri * ri >= 0 && ri * ri <= 0x4000_0000_0000_0000i128) by (nonlinear_arith)
                requires 0 <= ri <= 0x8000_0000i128;
        }
        let m: i128 = 4 * (ri * ri);
        proof {
            assert(m as int == 4 * (radius as int) * (radius as int)) by (nonlinear_arith)
                requires m as int == 4 * ((radius as int) * (radius as int));
            assert forall|d: int| 4 * #[trigger] (d * d) <= m implies -(r as int) <= d
                <= r as int by {
                assert(4 * (d * d) <= 4 * ((r as int) * (r as int)) && r as int >= 0 ==> -(
                r as int) <= d <= r as int) by (nonlinear_arith);
            }
        }
        self.stamp_disc(cx as i64, cy as i64, r, m, color);
    }

    /// Draws the outline of a rectangle as four filled strips — top,
    /// bottom, left, right — each `line_width` thick, blending each in
    /// turn.  The strips overlap at the corners, and a stroke wider than
    /// the rectangle's own dimensions lets them overlap further; this is
    /// the documented behaviour, not corrected here.
    pub fn stroke_rect(&mut self, rect: Rect, color: Color, line_width: i32)
        requires
            old(self).wf(),
            i32::MIN <= rect.y as int + rect.height as int - line_width as int <= i32::MAX,
            i32::MIN <= rect.x as int + rect.width as int - line_width as int <= i32::MAX,
        ensures
            final(self).wf(),
            final(self).spec_width() == old(self).spec_width(),
            final(self).spec_height() == old(self).spec_height(),
            final(self)@ == stroke_stamp(
                old(self)@,
                old(self).spec_width() as int,
                old(self).spec_height() as int,
                rect,
                color,
                line_width,
            ),
    {
        let by_: i64 = rect.y as i64 + rect.height as i64 - line_width as i64;
        let rx_: i64 = rect.x as i64 + rect.width as i64 - line_width as i64;
        let top = Rect { x: rect.x, y: rect.y, width: rect.width, height: line_width };
        let bottom = Rect { x: rect.x, y: by_ as i32, width: rect.width, height: line_width };
        let left = Rect { x: rect.x, y: rect.y, width: line_width, height: rect.height };
        let right = Rect { x: rx_ as i32, y: rect.y, width: line_width, height: rect.height };
        self.fill_rect(top, color);
        self.fill_rect(bottom, color);
        self.fill_rect(left, color);
        self.fill_rect(right, color);
    }

    /// Steps along the line from `(x1, y1)` to `(x2, y2)` and stamps a
    /// small filled disc of radius `max(width / 2, 1/2)` at every stepped
    /// point to simulate line thickness.
    pub fn draw_line(&mut self, x1: i32, y1: i32, x2: i32, y2: i32, color: Color, width: i32)
        requires
            old(self).wf(),
        ensures
            final(self).wf(),
            final(self).spec_width() == old(self).spec_width(),
            final(self).spec_height() == old(self).spec_height(),
            final(self)@ == stamps_along(
                old(self)@,
                old(self).spec_width() as int,
                old(self).spec_height() as int,
                line_disc_m(width as int),
                color,
                spec_line_points(x1 as int, y1 as int, x2 as int, y2 as int),
            ),
    {
        let cw: u32 = self.width;
        let ch: u32 = self.height;
        let ghost buf0: Seq<u32> = self.buf@;
        let ghost cwi: int = cw as int;
        let ghost chi: int = ch as int;

        let tx: i64 = x2 as i64;
        let ty: i64 = y2 as i64;
        let dx: i64 = if x2 >= x1 {
            x2 as i64 - x1 as i64
        } else {
            x1 as i64 - x2 as i64
        };
        let dy: i64 = if y2 >= y1 {
            y2 as i64 - y1 as i64
        } else {
            y1 as i64 - y2 as i64
        };
        let sx: i64 = if x1 < x2 {
            1
        } else {
            -1
        };
        let sy: i64 = if y1 < y2 {
            1
        } else {
            -1
        };
        let mut err: i64 = dx - dy;
        let mut x: i64 = x1 as i64;
        let mut y: i64 = y1 as i64;
        let mut fuel: i64 = dx + dy;
        let ghost fuel0: int = fuel as int;
        let hw: i64 = if width >= 1 {
            (width / 2) as i64
        } else {
            0
        };
        let mw: i64 = if width >= 1 {
            width as i64
        } else {
            1
        };
        let mwi: i128 = mw as i128;
        proof {
            assert(mwi * mwi >= 0 && mwi * mwi <= 0x4000_0000_0000_0000i128) by (nonlinear_arith)
                requires 0 <= mwi <= 0x8000_0000i128;
        }
        let m: i128 = mwi * mwi;
        proof {
            assert(m as int == line_disc_m(width as int));
            assert forall|d: int| 4 * #[trigger] (d * d) <= m implies -hw <= d <= hw by {
                assert(4 * (d * d) == (2 * d) * (2 * d)) by (nonlinear_arith);
                assert((2 * d) * (2 * d) <= (mw as int) * (mw as int) && mw as int >= 1 ==> -(
                mw as int) <= 2 * d <= mw as int) by (nonlinear_arith);
                lemma_fundamental_div_mod(mw as int, 2);
                assert(0 <= (mw as int) % 2 < 2) by (nonlinear_arith);
            }
        }
        let ghost mi: int = m as int;
        let ghost pts: Seq<(int, int)> = spec_line_points(
            x1 as int,
            y1 as int,
            x2 as int,
            y2 as int,
        );
        self.stamp_disc(x, y, hw, m, color);
        let ghost mut done: Seq<(int, int)> = seq![(x as int, y as int)];
        proof {
            assert(stamps_along(buf0, cwi, chi, mi, color, done) == disc_stamp(
                buf0,
                cwi,
                chi,
                x as int,
                y as int,
                mi,
                color,
            )) by {
                assert(done[0].0 == x as int && done[0].1 == y as int);
                assert(done.drop_first() =~= Seq::<(int, int)>::empty());
                assert(stamps_along(
                    disc_stamp(buf0, cwi, chi, x as int, y as int, mi, color),
                    cwi,
                    chi,
                    mi,
                    color,
                    done.drop_first(),
                ) == disc_stamp(buf0, cwi, chi, x as int, y as int, mi, color));
            }
            assert(pts == done + line_rest(
                x as int,
                y as int,
                tx as int,
                ty as int,
                dx as int,
                dy as int,
                sx as int,
                sy as int,
                err as int,
                fuel as nat,
            )) by {
                assert(pts =~= done + line_rest(
                    x as int,
                    y as int,
                    tx as int,
                    ty as int,
                    dx as int,
                    dy as int,
                    sx as int,
                    sy as int,
                    err as int,
                    fuel as nat,
                ));
            }
        }
        while !(x == tx && y == ty) && fuel > 0
            invariant
                self.width == cw,
                self.height == ch,
                cwi == cw as int,
                chi == ch as int,
                self.buf@.len() == buf0.len(),
                buf0.len() == cwi * chi,
                0 <= hw <= 0x8000_0000i64,
                forall|d: int| 4 * #[trigger] (d * d) <= m ==> -hw <= d <= hw,
                mi == m as int,
                0 <= dx <= 0x1_0000_0000i64,
                0 <= dy <= 0x1_0000_0000i64,
                -0x8000_0000i64 <= tx <= 0x8000_0000i64,
                -0x8000_0000i64 <= ty <= 0x8000_0000i64,
                sx == 1 || sx == -1,
                sy == 1 || sy == -1,
                0 <= fuel,
                fuel0 == dx + dy,
                x1 as int - (fuel0 - fuel) <= x <= x1 as int + (fuel0 - fuel),
                y1 as int - (fuel0 - fuel) <= y <= y1 as int + (fuel0 - fuel),
                fuel <= fuel0,
                -2 * dy <= err <= 2 * dx,
                self.buf@ == stamps_along(buf0, cwi, chi, mi, color, done),
                pts == done + line_rest(
                    x as int,
                    y as int,
                    tx as int,
                    ty as int,
                    dx as int,
                    dy as int,
                    sx as int,
                    sy as int,
                    err as int,
                    fuel as nat,
                ),
            decreases fuel,
        {
            let ghost prev: Seq<u32> = self.buf@;
            let ghost oldx: int = x as int;
            let ghost oldy: int = y as int;
            let ghost olderr: int = err as int;
            let ghost oldfuel: nat = fuel as nat;
            let e2: i64 = 2 * err;
            if e2 > -dy {
                err = err - dy;
                x = x + sx;
            }
            if e2 < dx {
                err = err + dx;
                y = y + sy;
            }
            fuel = fuel - 1;
            self.stamp_disc(x, y, hw, m, color);
            proof {
                let ghost mid: Seq<(int, int)> = done;
                done = done.push((x as int, y as int));
                lemma_stamps_along_push(
                    buf0,
                    cwi,
                    chi,
                    mi,
                    color,
                    mid,
                    ((x as int), (y as int)),
                );
                assert(line_rest(
                    oldx,
                    oldy,
                    tx as int,
                    ty as int,
                    dx as int,
                    dy as int,
                    sx as int,
                    sy as int,
                    olderr,
                    oldfuel,
                ) == seq![(x as int, y as int)] + line_rest(
                    x as int,
                    y as int,
                    tx as int,
                    ty as int,
                    dx as int,
                    dy as int,
                    sx as int,
                    sy as int,
                    err as int,
                    fuel as nat,
                ));
                assert(pts =~= done + line_rest(
                    x as int,
                    y as int,
                    tx as int,
                    ty as int,
                    dx as int,
                    dy as int,
                    sx as int,
                    sy as int,
                    err as int,
                    fuel as nat,
                ));
            }
        }
        proof {
            assert(line_rest(
                x as int,
                y as int,
                tx as int,
                ty as int,
                dx as int,
                dy as int,
                sx as int,
                sy as int,
                err as int,
                fuel as nat,
            ) =~= Seq::<(int, int)>::empty());
            assert(pts =~= done);
        }
    }
}

/// Law: the circle's membership test is the exact Euclidean one — a
/// pixel is inside the stamped disc of radius `r` precisely when its
/// squared distance from the centre is at most `r` squared; a pixel
/// one farther is out.
pub proof fn lemma_circle_inclusion(cx: int, cy: int, r: int, x: int, y: int)
    ensures
        disc_covers(cx, cy, 4 * r * r, x, y) <==> (x - cx) * (x - cx) + (y - cy) * (y - cy) <= r
            * r,
{
    let a = (x - cx) * (x - cx) + (y - cy) * (y - cy);
    assert(4 * a <= 4 * (r * r) <==> a <= r * r) by (nonlinear_arith);
    assert(4 * (r * r) == 4 * r * r) by (nonlinear_arith);
}

/// The four strips of a stroked rectangle blended in order: top, bottom,
/// left, right, each `lw` thick, the bottom and right strips positioned
/// `lw` inside the far edges.
pub open spec fn stroke_stamp(
    buf: Seq<u32>,
    cw: int,
    ch: int,
    r: Rect,
    c: Color,
    lw: i32,
) -> Seq<u32> {
    let top = (Rect { x: r.x, y: r.y, width: r.width, height: lw });
    let bottom = (Rect {
        x: r.x,
        y: (r.y as int + r.height as int - lw as int) as i32,
        width: r.width,
        height: lw,
    });
    let left = (Rect { x: r.x, y: r.y, width: lw, height: r.height });
    let right = (Rect {
        x: (r.x as int + r.width as int - lw as int) as i32,
        y: r.y,
        width: lw,
        height: r.height,
    });
    rect_stamp(
        rect_stamp(rect_stamp(rect_stamp(buf, cw, ch, top, c), cw, ch, bottom, c), cw, ch, left, c),
        cw,
        ch,
        right,
        c,
    )
}

/// The squared-diameter bound of the disc stamped at each stepped point
/// of a drawn line: the square of `max(width, 1)`, so that membership
/// `4 * d2 <= m` is exactly `d2 <= (max(width / 2, 1/2))^2`.
pub open spec fn line_disc_m(width: int) -> int {
    let mw = if width >= 1 {
        width
    } else {
        1
    };
    mw * mw
}

/// The points the line stepper visits after its starting point: at each
/// step the error term decides which axes advance, and stepping ends at
/// the target or when the step budget runs out.
pub open spec fn line_rest(
    x: int,
    y: int,
    tx: int,
    ty: int,
    dx: int,
    dy: int,
    sx: int,
    sy: int,
    err: int,
    fuel: nat,
) -> Seq<(int, int)>
    decreases fuel,
{
    if (x == tx && y == ty) || fuel == 0 {
        Seq::empty()
    } else {
        let e2 = 2 * err;
        let nx = if e2 > -dy {
            x + sx
        } else {
            x
        };
        let e3 = if e2 > -dy {
            err - dy
        } else {
            err
        };
        let ny = if e2 < dx {
            y + sy
        } else {
            y
        };
        let e4 = if e2 < dx {
            e3 + dx
        } else {
            e3
        };
        seq![(nx, ny)] + line_rest(nx, ny, tx, ty, dx, dy, sx, sy, e4, (fuel - 1) as nat)
    }
}

/// Every point the line stepper visits, starting point included, for
/// the line from `(x1, y1)` to `(x2, y2)`: the standard error-term
/// stepper with `err` initialised to `dx - dy` and at most `dx + dy`
/// steps.
pub open spec fn spec_line_points(x1: int, y1: int, x2: int, y2: int) -> Seq<(int, int)> {
    let dx = if x2 >= x1 {
        x2 - x1
    } else {
        x1 - x2
    };
    let dy = if y2 >= y1 {
        y2 - y1
    } else {
        y1 - y2
    };
    let sx: int = if x1 < x2 {
        1
    } else {
        -1
    };
    let sy: int = if y1 < y2 {
        1
    } else {
        -1
    };
    seq![(x1, y1)] + line_rest(x1, y1, x2, y2, dx, dy, sx, sy, dx - dy, (dx + dy) as nat)
}

/// The buffer after stamping the disc of squared-diameter bound `m` at
/// every listed point in order.
pub open spec fn stamps_along(
    buf: Seq<u32>,
    cw: int,
    ch: int,
    m: int,
    c: Color,
    pts: Seq<(int, int)>,
) -> Seq<u32>
    decreases pts.len(),
{
    if pts.len() == 0 {
        buf
    } else {
        stamps_along(disc_stamp(buf, cw, ch, pts[0].0, pts[0].1, m, c), cw, ch, m, c, pts.drop_first())
    }
}

/// Stamping one more point at the end of a walk is one more stamp on
/// the walked buffer.
proof fn lemma_stamps_along_push(
    buf: Seq<u32>,
    cw: int,
    ch: int,
    m: int,
    c: Color,
    pts: Seq<(int, int)>,
    p: (int, int),
)
    ensures
        stamps_along(buf, cw, ch, m, c, pts.push(p)) == disc_stamp(
            stamps_along(buf, cw, ch, m, c, pts),
            cw,
            ch,
            p.0,
            p.1,
            m,
            c,
        ),
    decreases pts.len(),
{
    if pts.len() == 0 {
        assert(pts.push(p)[0] == p);
        assert(pts.push(p).drop_first() =~= Seq::<(int, int)>::empty());
        assert(stamps_along(buf, cw, ch, m, c, pts.push(p)) == stamps_along(
            disc_stamp(buf, cw, ch, p.0, p.1, m, c),
            cw,
            ch,
            m,
            c,
            pts.push(p).drop_first(),
        ));
        assert(stamps_along(
            disc_stamp(buf, cw, ch, p.0, p.1, m, c),
            cw,
            ch,
            m,
            c,
            pts.push(p).drop_first(),
        ) == disc_stamp(buf, cw, ch, p.0, p.1, m, c));
        assert(stamps_along(buf, cw, ch, m, c, pts) == buf);
    } else {
        assert(pts.push(p)[0] == pts[0]);
        assert(pts.push(p).drop_first() =~= pts.drop_first().push(p));
        lemma_stamps_along_push(
            disc_stamp(buf, cw, ch, pts[0].0, pts[0].1, m, c),
            cw,
            ch,
            m,
            c,
            pts.drop_first(),
            p,
        );
        assert(stamps_along(buf, cw, ch, m, c, pts.push(p)) == stamps_along(
            disc_stamp(buf, cw, ch, pts[0].0, pts[0].1, m, c),
            cw,
            ch,
            m,
            c,
            pts.drop_first().push(p),
        ));
        assert(stamps_along(buf, cw, ch, m, c, pts) == stamps_along(
            disc_stamp(buf, cw, ch, pts[0].0, pts[0].1, m, c),
            cw,
            ch,
            m,
            c,
            pts.drop_first(),
        ));
    }
}

} // verus!
