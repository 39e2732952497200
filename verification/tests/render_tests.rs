use firefly_shell::color::Color;
use firefly_shell::geometry::{Point, Rect, Size};
use firefly_shell::glass::{GlassRenderer, GlassStyle};
use firefly_shell::wallpaper::Wallpaper;

const SENTINEL: u32 = 0x12345678;

fn buffer(w: usize, h: usize) -> Vec<u32> {
    vec![SENTINEL; w * h]
}

#[test]
fn blend_opaque_source_replaces_destination() {
    for dst in [0u32, 0xFF000000, 0x7F123456, 0xFFFFFFFF] {
        assert_eq!(GlassRenderer::blend(dst, 0xFF00AA55), 0xFF00AA55);
    }
}

#[test]
fn blend_transparent_source_is_a_no_op() {
    for dst in [0u32, 0xFF000000, 0x7F123456, 0xFFFFFFFF] {
        assert_eq!(GlassRenderer::blend(dst, 0x00FFFFFF), dst);
    }
}

#[test]
fn blend_half_alpha_exact_value() {
    // sa = 0x80: out_r = (255 * 128 + 0 * 127) / 255 = 128, and the output
    // alpha is forced opaque.
    assert_eq!(GlassRenderer::blend(0xFF000000, 0x80FF0000), 0xFF800000);
    // sa = 0x40 over mid grey: (0xFF * 0x40 + 0x80 * 0xBF) / 255 = 0x9F.
    assert_eq!(GlassRenderer::blend(0xFF808080, 0x40FFFFFF), 0xFF9F9F9F);
}

#[test]
fn plain_fill_never_writes_outside_rounded_footprint() {
    let size = Size { width: 20, height: 20 };
    let mut buf = buffer(20, 20);
    let style = GlassStyle {
        background: Color(0xFF112233),
        border: Color(0),
        highlight: Color(0),
        corner_radius: 4,
        border_thickness: 0,
    };
    let rect = Rect { x: 2, y: 2, width: 12, height: 12 };
    GlassRenderer::draw_rect(&mut buf, size, rect, &style);

    // Outside the rectangle: untouched.
    for y in 0..20usize {
        for x in 0..20usize {
            let inside = x >= 2 && x < 14 && y >= 2 && y < 14;
            if !inside {
                assert_eq!(buf[y * 20 + x], SENTINEL, "pixel ({x},{y})");
            }
        }
    }
    // The extreme corner pixels are clipped off by the corner inset.
    assert_eq!(buf[2 * 20 + 2], SENTINEL);
    assert_eq!(buf[2 * 20 + 13], SENTINEL);
    assert_eq!(buf[13 * 20 + 2], SENTINEL);
    assert_eq!(buf[13 * 20 + 13], SENTINEL);
    // The interior is filled with the background.
    assert_eq!(buf[8 * 20 + 8], 0xFF112233);
    assert_eq!(buf[2 * 20 + 8], 0xFF112233);
}

#[test]
fn fill_clips_to_the_buffer() {
    let size = Size { width: 8, height: 8 };
    let mut buf = buffer(8, 8);
    let style = GlassStyle {
        background: Color(0xFFABCDEF),
        border: Color(0),
        highlight: Color(0),
        corner_radius: 0,
        border_thickness: 0,
    };
    // Partially off-screen to the top left.
    let rect = Rect { x: -4, y: -4, width: 8, height: 8 };
    GlassRenderer::draw_rect(&mut buf, size, rect, &style);
    assert_eq!(buf[0], 0xFFABCDEF);
    assert_eq!(buf[3 * 8 + 3], 0xFFABCDEF);
    assert_eq!(buf[4 * 8 + 4], SENTINEL);
}

#[test]
fn bar_style_values() {
    let bar = GlassStyle::bar();
    assert_eq!(bar.background, Color(0xD0181822));
    assert_eq!(bar.border, Color(0x40FFFFFF));
    assert_eq!(bar.highlight, Color(0x30FFFFFF));
    assert_eq!(bar.corner_radius, 12);
    assert_eq!(bar.border_thickness, 1);
    let panel = GlassStyle::panel();
    assert_eq!(panel.background, Color(0xE5181822));
    assert_eq!(panel.corner_radius, 16);
}

#[test]
fn bordered_glass_stays_inside_its_rectangle() {
    let size = Size { width: 32, height: 32 };
    let mut buf = buffer(32, 32);
    let style = GlassStyle {
        background: Color(0xFF222222),
        border: Color(0xFFFFFFFF),
        highlight: Color(0x30FFFFFF),
        corner_radius: 4,
        border_thickness: 1,
    };
    let rect = Rect { x: 4, y: 4, width: 16, height: 16 };
    GlassRenderer::draw_rect(&mut buf, size, rect, &style);
    for y in 0..32usize {
        for x in 0..32usize {
            let inside = x >= 4 && x < 20 && y >= 4 && y < 20;
            if !inside {
                assert_eq!(buf[y * 32 + x], SENTINEL, "pixel ({x},{y})");
            }
        }
    }
}

#[test]
fn rect_contains_point_is_half_open() {
    let r = Rect { x: 10, y: 20, width: 5, height: 5 };
    assert!(r.contains_point(Point { x: 10, y: 20 }));
    assert!(r.contains_point(Point { x: 14, y: 24 }));
    assert!(!r.contains_point(Point { x: 15, y: 20 }));
    assert!(!r.contains_point(Point { x: 10, y: 25 }));
    assert!(!r.contains_point(Point { x: 9, y: 20 }));
    assert_eq!(r.right(), 15);
    assert_eq!(r.bottom(), 25);
}

#[test]
fn wallpaper_fills_its_bounds() {
    let size = Size { width: 10, height: 10 };
    let mut buf = buffer(10, 10);
    let mut w = Wallpaper::with_bounds(0, 0, 10, 6);
    w.set_color(0xFF004488);
    w.draw(&mut buf, size);
    assert_eq!(buf[0], 0xFF004488);
    assert_eq!(buf[5 * 10 + 9], 0xFF004488);
    assert_eq!(buf[6 * 10], SENTINEL);
    assert_eq!(buf[9 * 10 + 9], SENTINEL);
}

#[test]
fn wallpaper_default_color() {
    let w = Wallpaper::new(800, 600);
    assert_eq!(w.color, 0xFF0078D7);
    assert_eq!(w.bounds, (0, 0, 800, 600));
}

#[test]
fn border_stroke_draws_on_the_edges() {
    let size = Size { width: 32, height: 32 };
    let rect = Rect { x: 4, y: 4, width: 16, height: 16 };
    let mut plain = buffer(32, 32);
    let mut bordered = buffer(32, 32);
    let style = |thickness: u32| GlassStyle {
        background: Color(0xFF222222),
        border: Color(0xFFFFFFFF),
        highlight: Color(0),
        corner_radius: 4,
        border_thickness: thickness,
    };
    GlassRenderer::draw_rect(&mut plain, size, rect, &style(0));
    GlassRenderer::draw_rect(&mut bordered, size, rect, &style(1));
    // The stroked top edge differs from the plain fill at the edge midpoint.
    assert_ne!(bordered[4 * 32 + 12], plain[4 * 32 + 12]);
    // An opaque border overwrites the edge pixel outright.
    assert_eq!(bordered[4 * 32 + 12], 0xFFFFFFFF);
    // The interior is the same either way.
    assert_eq!(bordered[12 * 32 + 12], plain[12 * 32 + 12]);
}

#[test]
fn highlight_strip_blends_over_the_fill() {
    let size = Size { width: 32, height: 32 };
    let rect = Rect { x: 4, y: 4, width: 16, height: 16 };
    let mut plain = buffer(32, 32);
    let mut lit = buffer(32, 32);
    let style = |highlight: u32| GlassStyle {
        background: Color(0xFF222222),
        border: Color(0),
        highlight: Color(highlight),
        corner_radius: 4,
        border_thickness: 0,
    };
    GlassRenderer::draw_rect(&mut plain, size, rect, &style(0));
    GlassRenderer::draw_rect(&mut lit, size, rect, &style(0x80FFFFFF));
    // The strip sits one row under the top edge, inset by the radius.
    assert_ne!(lit[5 * 32 + 12], plain[5 * 32 + 12]);
    assert_eq!(lit[5 * 32 + 12], GlassRenderer::blend(plain[5 * 32 + 12], 0x80FFFFFF));
    // Rows below the strip match the plain fill.
    assert_eq!(lit[6 * 32 + 12], plain[6 * 32 + 12]);
}
