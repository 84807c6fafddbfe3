//! Colour model and pixel packing for the software rasterizer.
//!
//! Channels are held in fixed point: a channel value of [`COLOR_ONE`]
//! stands for a full channel (1.0) and 0 for an empty one.  Out-of-range
//! components are clamped before use.  Pixels are packed as 32-bit
//! `0xAARRGGBB` words whose stored alpha byte is always opaque; a colour's
//! alpha channel is only ever used for blending against the destination
//! pixel, never stored.

use vstd::arithmetic::div_mod::lemma_div_is_ordered;
use vstd::prelude::*;

verus! {

/// One whole unit of a colour channel: `COLOR_ONE` stands for 1.0.
pub const COLOR_ONE: i32 = 65536;

/// A colour with red, green, blue and alpha channels in fixed point
/// (denominator [`COLOR_ONE`]).  Values below 0 or above `COLOR_ONE`
/// are treated as 0 and `COLOR_ONE` respectively.
#[derive(Clone, Copy, PartialEq, Eq, Structural, Debug)]
pub struct Color {
    pub r: i32,
    pub g: i32,
    pub b: i32,
    pub a: i32,
}

/// A channel clamped to the nominal range `[0, COLOR_ONE]`.
pub open spec fn clamp_unit(v: int) -> int {
    if v < 0 {
        0
    } else if v > 65536 {
        65536
    } else {
        v
    }
}

/// The byte a channel packs to: the clamped channel scaled by 255 and
/// rounded to the nearest integer.
pub open spec fn channel_byte(v: int) -> int {
    (clamp_unit(v) * 255 + 32768) / 65536
}

/// A packed pixel with an opaque alpha byte and the given channel bytes.
pub open spec fn pack_argb(r: u32, g: u32, b: u32) -> u32 {
    0xFF00_0000u32 | (r << 16u32) | (g << 8u32) | b
}

/// The packed pixel a colour maps to.
pub open spec fn spec_color_to_u32(c: Color) -> u32 {
    pack_argb(
        channel_byte(c.r as int) as u32,
        channel_byte(c.g as int) as u32,
        channel_byte(c.b as int) as u32,
    )
}

/// The red byte of a packed pixel.
pub open spec fn byte_r(p: u32) -> u32 {
    (p >> 16u32) & 0xFFu32
}

/// The green byte of a packed pixel.
pub open spec fn byte_g(p: u32) -> u32 {
    (p >> 8u32) & 0xFFu32
}

/// The blue byte of a packed pixel.
pub open spec fn byte_b(p: u32) -> u32 {
    p & 0xFFu32
}

/// One blended channel: source weighted by alpha, destination by the
/// remainder, truncated to an integer.
pub open spec fn blend_channel(d: u32, s: u32, a: int) -> int {
    (s * a + d * (65536 - a)) / 65536
}

/// The blend of a source pixel over a destination pixel at the given
/// fixed-point alpha: at or above full alpha the source wins outright,
/// at or below zero the destination is untouched, and in between each
/// colour channel is mixed and the result repacked with an opaque
/// alpha byte.
pub open spec fn spec_blend(dst: u32, src: u32, alpha: int) -> u32 {
    if alpha >= 65536 {
        src
    } else if alpha <= 0 {
        dst
    } else {
        pack_argb(
            blend_channel(byte_r(dst), byte_r(src), alpha) as u32,
            blend_channel(byte_g(dst), byte_g(src), alpha) as u32,
            blend_channel(byte_b(dst), byte_b(src), alpha) as u32,
        )
    }
}

/// A channel byte always lies in `[0, 255]`.
pub proof fn lemma_channel_byte_range(v: int)
    ensures
        0 <= channel_byte(v) <= 255,
{
    let c = clamp_unit(v);
    assert(0 <= c <= 65536);
    assert(c * 255 + 32768 <= 16744448);
    lemma_div_is_ordered(0, c * 255 + 32768, 65536);
    lemma_div_is_ordered(c * 255 + 32768, 16744448, 65536);
    assert(16744448int / 65536int == 255) by (nonlinear_arith);
}

/// A blended channel of two channel bytes is again a channel byte.
pub proof fn lemma_blend_channel_range(d: u32, s: u32, a: int)
    requires
        d <= 255,
        s <= 255,
        0 <= a <= 65536,
    ensures
        0 <= blend_channel(d, s, a) <= 255,
{
    assert(s * a <= 255 * a) by (nonlinear_arith)
        requires s <= 255 && a >= 0;
    assert(d * (65536 - a) <= 255 * (65536 - a)) by (nonlinear_arith)
        requires d <= 255 && 65536 - a >= 0;
    assert(s * a + d * (65536 - a) <= 255 * 65536);
    assert(s * a >= 0) by (nonlinear_arith)
        requires s >= 0 && a >= 0;
    assert(d * (65536 - a) >= 0) by (nonlinear_arith)
        requires d >= 0 && 65536 - a >= 0;
    lemma_div_is_ordered(0, s * a + d * (65536 - a), 65536);
    lemma_div_is_ordered(s * a + d * (65536 - a), 255int * 65536, 65536);
    assert((255int * 65536) / 65536int == 255) by (nonlinear_arith);
}

fn clamp_channel(v: i32) -> (r: i32)
    ensures
        r as int == clamp_unit(v as int),
{
    if v < 0 {
        0
    } else if v > COLOR_ONE {
        COLOR_ONE
    } else {
        v
    }
}

fn channel_to_byte(v: i32) -> (b: u32)
    ensures
        b as int == channel_byte(v as int),
        b <= 255,
{
    let c: u32 = clamp_channel(v) as u32;
    proof {
        lemma_channel_byte_range(v as int);
    }
    (c * 255 + 32768) / 65536
}

/// Packs a colour into a 32-bit `0xAARRGGBB` pixel.  The stored alpha
/// byte is always opaque (`0xFF`); each colour channel is clamped to the
/// nominal range and scaled to its rounded byte value.
pub fn color_to_u32(c: &Color) -> (out: u32)
    ensures
        out == spec_color_to_u32(*c),
{
    let r: u32 = channel_to_byte(c.r);
    let g: u32 = channel_to_byte(c.g);
    let b: u32 = channel_to_byte(c.b);
    0xFF00_0000u32 | (r << 16u32) | (g << 8u32) | b
}

/// Blends a packed source pixel over a packed destination pixel at the
/// given fixed-point alpha.
pub fn blend(dst: u32, src: u32, alpha: i32) -> (out: u32)
    ensures
        out == spec_blend(dst, src, alpha as int),
{
    if alpha >= COLOR_ONE {
        return src;
    }
    if alpha <= 0 {
        return dst;
    }
    let a: u32 = alpha as u32;
    let dr: u32 = (dst >> 16u32) & 0xFFu32;
    let dg: u32 = (dst >> 8u32) & 0xFFu32;
    let db: u32 = dst & 0xFFu32;
    let sr: u32 = (src >> 16u32) & 0xFFu32;
    let sg: u32 = (src >> 8u32) & 0xFFu32;
    let sb: u32 = src & 0xFFu32;
    proof {
        assert(dr <= 255 && dg <= 255 && db <= 255 && sr <= 255 && sg <= 255 && sb <= 255)
            by (bit_vector)
            requires
                dr == (dst >> 16u32) & 0xFFu32,
                dg == (dst >> 8u32) & 0xFFu32,
                db == dst & 0xFFu32,
                sr == (src >> 16u32) & 0xFFu32,
                sg == (src >> 8u32) & 0xFFu32,
                sb == src & 0xFFu32;
        lemma_blend_channel_range(dr, sr, a as int);
        lemma_blend_channel_range(dg, sg, a as int);
        lemma_blend_channel_range(db, sb, a as int);
    }
    let r: u32 = (sr * a + dr * (65536 - a)) / 65536;
    let g: u32 = (sg * a + dg * (65536 - a)) / 65536;
    let b: u32 = (sb * a + db * (65536 - a)) / 65536;
    0xFF00_0000u32 | (r << 16u32) | (g << 8u32) | b
}

/// Law: packing always stores an opaque alpha byte, and each colour byte
/// is the rounded, clamped channel — so components outside the nominal
/// range pack exactly as the nearer extreme does.
pub proof fn lemma_color_packing(c: Color)
    ensures
        spec_color_to_u32(c) >> 24u32 == 0xFFu32,
        byte_r(spec_color_to_u32(c)) == channel_byte(c.r as int),
        byte_g(spec_color_to_u32(c)) == channel_byte(c.g as int),
        byte_b(spec_color_to_u32(c)) == channel_byte(c.b as int),
        channel_byte(c.r as int) == channel_byte(clamp_unit(c.r as int)),
        channel_byte(c.g as int) == channel_byte(clamp_unit(c.g as int)),
        channel_byte(c.b as int) == channel_byte(clamp_unit(c.b as int)),
{
    lemma_channel_byte_range(c.r as int);
    lemma_channel_byte_range(c.g as int);
    lemma_channel_byte_range(c.b as int);
    let r = channel_byte(c.r as int) as u32;
    let g = channel_byte(c.g as int) as u32;
    let b = channel_byte(c.b as int) as u32;
    assert(r <= 255 && g <= 255 && b <= 255 ==> {
        let p = 0xFF00_0000u32 | (r << 16u32) | (g << 8u32) | b;
        (p >> 24u32 == 0xFFu32) && ((p >> 16u32) & 0xFFu32 == r) && ((p >> 8u32) & 0xFFu32 == g)
            && (p & 0xFFu32 == b)
    }) by (bit_vector);
}

/// Law: blending at the alpha extremes is exact — zero alpha leaves the
/// destination pixel untouched, and full alpha replaces it with the
/// packed source colour outright.
pub proof fn lemma_blend_alpha_extremes(dst: u32, c: Color)
    ensures
        spec_blend(dst, spec_color_to_u32(c), 0) == dst,
        c.a <= 0 ==> spec_blend(dst, spec_color_to_u32(c), c.a as int) == dst,
        c.a >= COLOR_ONE ==> spec_blend(dst, spec_color_to_u32(c), c.a as int)
            == spec_color_to_u32(c),
{
}

} // verus!
