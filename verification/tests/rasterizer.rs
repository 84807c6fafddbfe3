//! Tests of the colour model and the software rasterizer.

use loop_kit::canvas::{Canvas, Rect};
use loop_kit::color::{blend, color_to_u32, Color, COLOR_ONE};

fn opaque_red() -> Color {
    Color { r: COLOR_ONE, g: 0, b: 0, a: COLOR_ONE }
}

fn fresh_canvas(w: u32, h: u32) -> Canvas {
    let mut c = Canvas::new();
    c.resize(w, h);
    c
}

#[test]
fn packing_sets_opaque_alpha_and_rounded_channels() {
    let c = Color { r: COLOR_ONE, g: 0, b: 0, a: 0 };
    assert_eq!(color_to_u32(&c), 0xFFFF0000);
    let c = Color { r: 0, g: COLOR_ONE, b: 0, a: COLOR_ONE };
    assert_eq!(color_to_u32(&c), 0xFF00FF00);
    let c = Color { r: 0, g: 0, b: COLOR_ONE, a: COLOR_ONE };
    assert_eq!(color_to_u32(&c), 0xFF0000FF);
    // one half of a channel rounds to 128
    let c = Color { r: COLOR_ONE / 2, g: 0, b: 0, a: COLOR_ONE };
    assert_eq!(color_to_u32(&c), 0xFF800000);
    // the alpha byte is opaque whatever the colour's own alpha
    let c = Color { r: 0, g: 0, b: 0, a: 0 };
    assert_eq!(color_to_u32(&c) >> 24, 0xFF);
}

#[test]
fn out_of_range_channels_clamp_before_packing() {
    // one-and-a-half behaves exactly like one
    let high = Color { r: COLOR_ONE + COLOR_ONE / 2, g: 0, b: 0, a: COLOR_ONE };
    let one = Color { r: COLOR_ONE, g: 0, b: 0, a: COLOR_ONE };
    assert_eq!(color_to_u32(&high), color_to_u32(&one));
    // a negative channel behaves exactly like zero
    let low = Color { r: -COLOR_ONE / 2, g: 0, b: 0, a: COLOR_ONE };
    let zero = Color { r: 0, g: 0, b: 0, a: COLOR_ONE };
    assert_eq!(color_to_u32(&low), color_to_u32(&zero));
}

#[test]
fn blending_at_alpha_extremes_is_exact() {
    let d: u32 = 0xFF123456;
    let s_color = Color { r: COLOR_ONE, g: 0, b: 0, a: COLOR_ONE };
    let s = color_to_u32(&s_color);
    assert_eq!(blend(d, s, 0), d);
    assert_eq!(blend(d, s, -5), d);
    assert_eq!(blend(d, s, COLOR_ONE), s);
    assert_eq!(blend(d, s, COLOR_ONE + 1), s);
}

#[test]
fn blending_mixes_channels_truncating() {
    // half red over black: 255 * 1/2 truncates to 127
    let d: u32 = 0xFF000000;
    let s: u32 = 0xFFFF0000;
    assert_eq!(blend(d, s, COLOR_ONE / 2), 0xFF7F0000);
}

#[test]
fn fill_rect_clamps_to_buffer_bounds() {
    let mut c = fresh_canvas(10, 10);
    c.fill_rect(Rect { x: -5, y: -5, width: 20, height: 20 }, opaque_red());
    for y in 0..10u32 {
        for x in 0..10u32 {
            assert_eq!(c.pixel(x, y), 0xFFFF0000);
        }
    }
}

#[test]
fn fill_rect_touches_only_covered_pixels() {
    let mut c = fresh_canvas(10, 10);
    c.fill_rect(Rect { x: 2, y: 3, width: 2, height: 2 }, opaque_red());
    for y in 0..10u32 {
        for x in 0..10u32 {
            let inside = (2..4).contains(&x) && (3..5).contains(&y);
            if inside {
                assert_eq!(c.pixel(x, y), 0xFFFF0000);
            } else {
                assert_eq!(c.pixel(x, y), 0);
            }
        }
    }
}

#[test]
fn circle_includes_boundary_and_excludes_beyond() {
    let mut c = fresh_canvas(100, 100);
    c.fill_circle(50, 50, 10, opaque_red());
    // exactly at distance 10 from the centre: included
    assert_eq!(c.pixel(60, 50), 0xFFFF0000);
    assert_eq!(c.pixel(50, 60), 0xFFFF0000);
    assert_eq!(c.pixel(40, 50), 0xFFFF0000);
    // at distance 11: excluded
    assert_eq!(c.pixel(61, 50), 0);
    assert_eq!(c.pixel(50, 39), 0);
}

#[test]
fn negative_radius_draws_nothing() {
    let mut c = fresh_canvas(10, 10);
    c.fill_circle(5, 5, -1, opaque_red());
    for y in 0..10u32 {
        for x in 0..10u32 {
            assert_eq!(c.pixel(x, y), 0);
        }
    }
}

#[test]
fn begin_frame_is_a_hard_clear() {
    let mut c = fresh_canvas(4, 4);
    // a transparent colour still clears outright: no blending
    c.begin_frame(Color { r: 0, g: 0, b: COLOR_ONE, a: 0 });
    for y in 0..4u32 {
        for x in 0..4u32 {
            assert_eq!(c.pixel(x, y), 0xFF0000FF);
        }
    }
}

#[test]
fn set_pixel_writes_directly_and_drops_out_of_bounds() {
    let mut c = fresh_canvas(4, 4);
    c.set_pixel(1, 2, opaque_red());
    assert_eq!(c.pixel(1, 2), 0xFFFF0000);
    assert_eq!(c.pixel(2, 1), 0);
    // silently dropped, no panic
    c.set_pixel(100, 100, opaque_red());
    c.set_pixel(4, 0, opaque_red());
}

#[test]
fn stroke_rect_draws_the_border_strips() {
    let mut c = fresh_canvas(10, 10);
    c.stroke_rect(Rect { x: 2, y: 2, width: 6, height: 6 }, opaque_red(), 1);
    // corners and edges of the outline
    assert_eq!(c.pixel(2, 2), 0xFFFF0000);
    assert_eq!(c.pixel(7, 2), 0xFFFF0000);
    assert_eq!(c.pixel(2, 7), 0xFFFF0000);
    assert_eq!(c.pixel(7, 7), 0xFFFF0000);
    assert_eq!(c.pixel(5, 2), 0xFFFF0000);
    assert_eq!(c.pixel(2, 5), 0xFFFF0000);
    // interior untouched
    assert_eq!(c.pixel(5, 5), 0);
    // outside untouched
    assert_eq!(c.pixel(0, 0), 0);
}

#[test]
fn draw_line_stamps_every_stepped_point() {
    let mut c = fresh_canvas(10, 10);
    c.draw_line(0, 5, 3, 5, opaque_red(), 1);
    for x in 0..4u32 {
        assert_eq!(c.pixel(x, 5), 0xFFFF0000);
    }
    assert_eq!(c.pixel(4, 5), 0);
    assert_eq!(c.pixel(0, 4), 0);
}

#[test]
fn draw_line_diagonal_reaches_both_endpoints() {
    let mut c = fresh_canvas(10, 10);
    c.draw_line(0, 0, 4, 4, opaque_red(), 1);
    assert_eq!(c.pixel(0, 0), 0xFFFF0000);
    assert_eq!(c.pixel(4, 4), 0xFFFF0000);
}

#[test]
fn resize_reallocates_and_keeps_size_when_unchanged() {
    let mut c = Canvas::new();
    assert_eq!(c.dimensions(), (0, 0));
    c.resize(8, 6);
    assert_eq!(c.dimensions(), (8, 6));
    c.set_pixel(0, 0, opaque_red());
    // same size: a no-op that keeps the contents
    c.resize(8, 6);
    assert_eq!(c.pixel(0, 0), 0xFFFF0000);
    // a new size clears the buffer
    c.resize(6, 8);
    assert_eq!(c.dimensions(), (6, 8));
    assert_eq!(c.pixel(0, 0), 0);
}
