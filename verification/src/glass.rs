//! The glass rasterizer: alpha-blended rounded rectangles with a stroked
//! border and a top highlight strip, drawn into a row-major pixel buffer.

use vstd::prelude::*;

use crate::color::{alpha_of, blend_spec, Color};
use crate::colors;
use crate::geometry::{Rect, Size};

verus! {

/// Visual parameters of one glass surface.
#[derive(Clone, Copy, Debug, PartialEq, Eq, Structural)]
pub struct GlassStyle {
    /// Fill color of the interior.
    pub background: Color,
    /// Color of the stroked border.
    pub border: Color,
    /// Color of the one-pixel top highlight strip.
    pub highlight: Color,
    /// Corner radius, in pixels.
    pub corner_radius: u32,
    /// Border thickness; `0` disables the border.
    pub border_thickness: u32,
}

impl GlassStyle {
    /// The style used for the floating bars.
    pub fn bar() -> (s: GlassStyle)
        ensures
            s == bar_style_spec(),
            s == (GlassStyle {
                background: Color(colors::GLASS_BG),
                border: Color(colors::GLASS_BORDER),
                highlight: Color(colors::GLASS_BORDER_LIGHT),
                corner_radius: 12u32,
                border_thickness: 1u32,
            }),
    {
        GlassStyle {
            background: Color(colors::GLASS_BG),
            border: Color(colors::GLASS_BORDER),
            highlight: Color(colors::GLASS_BORDER_LIGHT),
            corner_radius: 12,
            border_thickness: 1,
        }
    }

    /// The style used for popup panels and menus.
    pub fn panel() -> (s: GlassStyle)
        ensures
            s == panel_style_spec(),
            s == (GlassStyle {
                background: Color(colors::MENU_BG),
                border: Color(colors::GLASS_BORDER),
                highlight: Color(colors::GLASS_BORDER_LIGHT),
                corner_radius: 16u32,
                border_thickness: 1u32,
            }),
    {
        GlassStyle {
            background: Color(colors::MENU_BG),
            border: Color(colors::GLASS_BORDER),
            highlight: Color(colors::GLASS_BORDER_LIGHT),
            corner_radius: 16,
            border_thickness: 1,
        }
    }

    /// The style of an idle button: fully transparent.
    pub fn button() -> (s: GlassStyle)
        ensures
            s == (GlassStyle {
                background: Color(0u32),
                border: Color(0u32),
                highlight: Color(0u32),
                corner_radius: 8u32,
                border_thickness: 0u32,
            }),
    {
        GlassStyle {
            background: Color(0),
            border: Color(0),
            highlight: Color(0),
            corner_radius: 8,
            border_thickness: 0,
        }
    }

    /// The style of a hovered button.
    pub fn button_hover() -> (s: GlassStyle)
        ensures
            s == (GlassStyle {
                background: Color(colors::GLASS_BG_HOVER),
                border: Color(0x20FFFFFFu32),
                highlight: Color(0x10FFFFFFu32),
                corner_radius: 8u32,
                border_thickness: 1u32,
            }),
    {
        GlassStyle {
            background: Color(colors::GLASS_BG_HOVER),
            border: Color(0x20FFFFFF),
            highlight: Color(0x10FFFFFF),
            corner_radius: 8,
            border_thickness: 1,
        }
    }

    /// The style of a pressed button.
    pub fn button_active() -> (s: GlassStyle)
        ensures
            s == (GlassStyle {
                background: Color(colors::GLASS_BG_ACTIVE),
                border: Color(colors::ACCENT),
                highlight: Color(0x05FFFFFFu32),
                corner_radius: 8u32,
                border_thickness: 1u32,
            }),
    {
        GlassStyle {
            background: Color(colors::GLASS_BG_ACTIVE),
            border: Color(colors::ACCENT),
            highlight: Color(0x05FFFFFF),
            corner_radius: 8,
            border_thickness: 1,
        }
    }
}

/// Whether the solid fill of `rect`, clipped to `size` and to a buffer of
/// `len` pixels, writes the pixel at column `x`, row `y`.
pub open spec fn rect_covers(rect: Rect, size: Size, len: int, x: int, y: int) -> bool {
    &&& rect.x <= x < rect.x + rect.width
    &&& rect.y <= y < rect.y + rect.height
    &&& 0 <= x < size.width
    &&& 0 <= y < size.height
    &&& y * size.width + x < len
}

/// The pixel at flat index `i` after a direct (non-blending) fill of `rect`
/// with `c` over the buffer contents `pre`.
pub open spec fn solid_rect_pixel(pre: Seq<u32>, rect: Rect, size: Size, c: u32, i: int) -> u32 {
    let w = size.width as int;
    if w > 0 && rect_covers(rect, size, pre.len() as int, i % w, i / w) {
        c
    } else {
        pre[i]
    }
}

/// The pixel at flat index `i` after an alpha-blending fill of `rect` with
/// `c` over the buffer contents `pre`.
pub open spec fn blend_rect_pixel(pre: Seq<u32>, rect: Rect, size: Size, c: u32, i: int) -> u32 {
    let w = size.width as int;
    if w > 0 && rect_covers(rect, size, pre.len() as int, i % w, i / w) {
        blend_spec(pre[i], c)
    } else {
        pre[i]
    }
}

/// Same as [`solid_rect_pixel`], but only rows strictly before `ybound`
/// (counted from the top of `rect`) have been filled yet.
pub open spec fn solid_rect_pixel_upto(
    pre: Seq<u32>,
    rect: Rect,
    size: Size,
    c: u32,
    i: int,
    ybound: int,
) -> u32 {
    let w = size.width as int;
    if w > 0 && rect_covers(rect, size, pre.len() as int, i % w, i / w) && i / w - rect.y
        < ybound {
        c
    } else {
        pre[i]
    }
}

/// Same as [`blend_rect_pixel`], but only rows strictly before `ybound`
/// (counted from the top of `rect`) have been filled yet.
pub open spec fn blend_rect_pixel_upto(
    pre: Seq<u32>,
    rect: Rect,
    size: Size,
    c: u32,
    i: int,
    ybound: int,
) -> u32 {
    let w = size.width as int;
    if w > 0 && rect_covers(rect, size, pre.len() as int, i % w, i / w) && i / w - rect.y
        < ybound {
        blend_spec(pre[i], c)
    } else {
        pre[i]
    }
}

/// Flat indices of distinct in-row coordinates are distinct; the coordinates
/// of a flat index are recovered by division and remainder.
proof fn lemma_row_major(w: int, x: int, y: int)
    requires
        w > 0,
        0 <= x < w,
        0 <= y,
    ensures
        (y * w + x) / w == y,
        (y * w + x) % w == x,
        y * w + x >= 0,
{
    vstd::arithmetic::div_mod::lemma_fundamental_div_mod_converse(y * w + x, w, y, x);
    assert(y * w + x >= 0) by (nonlinear_arith)
        requires
            w > 0,
            0 <= x,
            0 <= y,
    ;
}


/// The flat index of an in-range coordinate pair fits comfortably in `i64`.
proof fn lemma_px_bounds(sy: int, sx: int, w: int)
    by (nonlinear_arith)
    requires
        0 <= sy < 0x8000_0000,
        0 <= sx < 0x8000_0000,
        0 <= w < 0x8000_0000,
    ensures
        0 <= sy * w + sx < 0x4000_0000_8000_0000,
{
}


/// Integer square root, defined by counting up: the largest `s` with
/// `s * s <= v` (and `0` for negative `v`).
pub open spec fn sqrt_floor(v: int) -> int
    decreases v,
{
    if v <= 0 {
        0
    } else {
        let s = sqrt_floor(v - 1);
        if (s + 1) * (s + 1) <= v {
            s + 1
        } else {
            s
        }
    }
}

/// The least `s` with `v <= s * s` (for `v >= 0`).
pub open spec fn sqrt_ceil(v: int) -> int {
    let s = sqrt_floor(v);
    if s * s == v {
        s
    } else {
        s + 1
    }
}

/// `sqrt_floor(v)` squares to at most `v`, and is the largest such value.
pub proof fn lemma_sqrt_floor_bounds(v: int)
    requires
        v >= 0,
    ensures
        0 <= sqrt_floor(v),
        sqrt_floor(v) * sqrt_floor(v) <= v,
        v < (sqrt_floor(v) + 1) * (sqrt_floor(v) + 1),
    decreases v,
{
    if v > 0 {
        lemma_sqrt_floor_bounds(v - 1);
        let p = sqrt_floor(v - 1);
        if (p + 1) * (p + 1) <= v {
            assert(v < (p + 2) * (p + 2)) by (nonlinear_arith)
                requires
                    p >= 0,
                    v - 1 < (p + 1) * (p + 1),
            ;
        }
    }
}

/// Any `s` bracketing `v` between consecutive squares is `sqrt_floor(v)`.
pub proof fn lemma_sqrt_floor_unique(v: int, s: int)
    requires
        v >= 0,
        s >= 0,
        s * s <= v,
        v < (s + 1) * (s + 1),
    ensures
        s == sqrt_floor(v),
{
    lemma_sqrt_floor_bounds(v);
    let t = sqrt_floor(v);
    if s < t {
        assert((s + 1) * (s + 1) <= t * t) by (nonlinear_arith)
            requires
                0 <= s + 1 <= t,
        ;
    }
    if t < s {
        assert((t + 1) * (t + 1) <= s * s) by (nonlinear_arith)
            requires
                0 <= t + 1 <= s,
        ;
    }
}

/// Executable integer square root (floor), by counting up.
fn isqrt_floor(v: u64) -> (s: u64)
    requires
        v < 0x1_0000_0000,
    ensures
        s == sqrt_floor(v as int),
        s * s <= v,
        v < (s + 1) * (s + 1),
{
    let mut s: u64 = 0;
    loop
        invariant_except_break
            0 <= s <= 0xFFFF,
            s * s <= v,
            v < 0x1_0000_0000,
        ensures
            0 <= s,
            s * s <= v,
            v < (s + 1) * (s + 1),
        decreases 0x1_0000 - s,
    {
        proof {
            assert((s + 1) * (s + 1) <= 0x1_0000_0000) by (nonlinear_arith)
                requires
                    0 <= s <= 0xFFFF,
            ;
        }
        let sq = (s + 1) * (s + 1);
        if sq <= v {
            proof {
                assert(s + 1 <= 0xFFFF) by (nonlinear_arith)
                    requires
                        (s + 1) * (s + 1) <= v,
                        v < 0x1_0000_0000,
                        s >= 0,
                ;
            }
            s = s + 1;
        } else {
            break ;
        }
    }
    proof {
        lemma_sqrt_floor_unique(v as int, s as int);
    }
    s
}

/// Horizontal inset of a rounded corner at vertical distance `distance`
/// from the corner's outer edge: `radius - sqrt(radius^2 - distance^2)`
/// truncated to an integer (the ceiling of the square root, so the inset
/// is never wider than the real value), and the full `radius` past the
/// arc.
pub open spec fn inset_spec(radius: int, distance: int) -> int {
    if distance >= radius {
        radius
    } else {
        radius - sqrt_ceil(radius * radius - distance * distance)
    }
}

/// The corner inset never exceeds the radius.
pub proof fn lemma_inset_bounds(radius: int, distance: int)
    requires
        0 <= radius,
        0 <= distance,
    ensures
        0 <= inset_spec(radius, distance) <= radius,
{
    if distance < radius {
        let v = radius * radius - distance * distance;
        assert(1 <= v <= radius * radius) by (nonlinear_arith)
            requires
                0 <= distance < radius,
                v == radius * radius - distance * distance,
        ;
        lemma_sqrt_floor_bounds(v);
        let f = sqrt_floor(v);
        assert(f <= radius) by (nonlinear_arith)
            requires
                f >= 0,
                radius >= 0,
                f * f <= v,
                v <= radius * radius,
        ;
        if f * f != v {
            assert(f < radius) by (nonlinear_arith)
                requires
                    f >= 0,
                    radius >= 0,
                    f * f <= v - 1,
                    v <= radius * radius,
                    f <= radius,
            ;
        }
        assert(sqrt_ceil(v) >= 1) by {
            lemma_sqrt_floor_bounds(v);
        }
    }
}

/// Per-row horizontal inset of the rounded-rectangle fill: follows the top
/// arc for the first `radius` rows and the bottom arc for the last.
pub open spec fn row_inset(rect: Rect, radius: int, ry: int) -> int {
    if ry < radius {
        inset_spec(radius, radius - 1 - ry)
    } else if ry >= rect.height - radius {
        inset_spec(radius, ry - (rect.height - radius))
    } else {
        0
    }
}


/// Whether the rounded fill of `rect` writes the pixel at column `x`,
/// row `y`: the row must lie in the clipped rect, `x` must lie between the
/// row's corner insets, and (as the rasterizer fills whole rows at a time)
/// the full clipped row must fit in the buffer.
pub open spec fn rounded_covers(
    rect: Rect,
    size: Size,
    radius: int,
    len: int,
    x: int,
    y: int,
) -> bool {
    let ry = y - rect.y;
    let ins = row_inset(rect, radius, ry);
    let xs = if rect.x + ins > 0 {
        rect.x + ins
    } else {
        0
    };
    let xe = if rect.x + rect.width - ins < size.width {
        rect.x + rect.width - ins
    } else {
        size.width as int
    };
    &&& 0 <= ry < rect.height
    &&& 0 <= y < size.height
    &&& xs <= x < xe
    &&& y * size.width + xe <= len
}

/// The pixel at flat index `i` after the rounded fill of `rect` with `c`
/// over the buffer contents `pre`.
pub open spec fn rounded_pixel(
    pre: Seq<u32>,
    rect: Rect,
    size: Size,
    radius: int,
    c: u32,
    i: int,
) -> u32 {
    let w = size.width as int;
    if w > 0 && rounded_covers(rect, size, radius, pre.len() as int, i % w, i / w) {
        blend_spec(pre[i], c)
    } else {
        pre[i]
    }
}

/// Same as [`rounded_pixel`], but only rows strictly before `ybound`
/// (counted from the top of `rect`) have been filled yet.
pub open spec fn rounded_pixel_upto(
    pre: Seq<u32>,
    rect: Rect,
    size: Size,
    radius: int,
    c: u32,
    i: int,
    ybound: int,
) -> u32 {
    let w = size.width as int;
    if w > 0 && rounded_covers(rect, size, radius, pre.len() as int, i % w, i / w) && i / w
        - rect.y < ybound {
        blend_spec(pre[i], c)
    } else {
        pre[i]
    }
}


/// Whether column `x`, row `y` lies inside the clip region of `size`.
pub open spec fn px_in_clip(size: Size, x: int, y: int) -> bool {
    &&& 0 <= x < size.width
    &&& 0 <= y < size.height
}

/// The square that quadrant `q` of a corner arc with center `(cx, cy)` and
/// radius `r` may touch: the arc bends away from the rectangle's interior,
/// so each quadrant stays on its own side of the center.
pub open spec fn arc_box(q: u8, cx: int, cy: int, r: int, x: int, y: int) -> bool {
    if q == 0 {
        cx - r <= x <= cx && cy - r <= y <= cy
    } else if q == 1 {
        cx <= x <= cx + r && cy - r <= y <= cy
    } else if q == 2 {
        cx - r <= x <= cx && cy <= y <= cy + r
    } else if q == 3 {
        cx <= x <= cx + r && cy <= y <= cy + r
    } else {
        false
    }
}

/// The region that the border stroke of `rect` with corner radius `r` may
/// touch: the rectangle widened by the reach of the corner arcs.
pub open spec fn stroke_box(rect: Rect, r: int, x: int, y: int) -> bool {
    &&& rect.x - 2 * r - 1 <= x < rect.x + rect.width + 2 * r + 1
    &&& rect.y - 2 * r - 1 <= y < rect.y + rect.height + 2 * r + 1
}

/// Whether column `x`, row `y` lies inside `rect` itself.
pub open spec fn px_in_rect(rect: Rect, x: int, y: int) -> bool {
    &&& rect.x <= x < rect.x + rect.width
    &&& rect.y <= y < rect.y + rect.height
}


/// The per-row inset always lies between `0` and `radius`.
pub proof fn lemma_row_inset_bounds(rect: Rect, radius: int, ry: int)
    requires
        0 <= radius,
        0 <= ry,
    ensures
        0 <= row_inset(rect, radius, ry) <= radius,
{
    if ry < radius {
        lemma_inset_bounds(radius, radius - 1 - ry);
    } else if ry >= rect.height - radius {
        lemma_inset_bounds(radius, ry - (rect.height - radius));
    }
}

/// The rounded footprint of a fill lies inside `rect` and inside the clip
/// region: the fill never writes elsewhere.
pub proof fn lemma_rounded_covers_in_rect(
    rect: Rect,
    size: Size,
    radius: int,
    len: int,
    x: int,
    y: int,
)
    requires
        0 <= radius,
        rounded_covers(rect, size, radius, len, x, y),
    ensures
        px_in_rect(rect, x, y),
        px_in_clip(size, x, y),
{
    lemma_row_inset_bounds(rect, radius, y - rect.y);
}

/// A pixel outside the rounded footprint keeps its previous value under
/// the rounded fill: the fill writes nothing outside the footprint.
pub proof fn lemma_rounded_pixel_frame(
    pre: Seq<u32>,
    rect: Rect,
    size: Size,
    radius: int,
    c: u32,
    i: int,
)
    requires
        0 <= i < pre.len(),
        !(size.width > 0 && rounded_covers(
            rect,
            size,
            radius,
            pre.len() as int,
            i % (size.width as int),
            i / (size.width as int),
        )),
    ensures
        rounded_pixel(pre, rect, size, radius, c, i) == pre[i],
{
}


/// Whether column `x`, row `y` lies in the vertical band of columns that
/// `rect` spans (and inside the clip): panels confine their drawing to
/// their own column band.
pub open spec fn in_column_band(rect: Rect, size: Size, x: int, y: int) -> bool {
    &&& rect.x <= x < rect.x + rect.width
    &&& px_in_clip(size, x, y)
}


/// The buffer after blending `c` into the single pixel at `(x, y)`:
/// off-clip and out-of-buffer positions leave it unchanged.
pub open spec fn blend_at(pre: Seq<u32>, size: Size, x: int, y: int, c: u32) -> Seq<u32> {
    let idx = y * size.width + x;
    if px_in_clip(size, x, y) && idx < pre.len() {
        pre.update(idx, blend_spec(pre[idx], c))
    } else {
        pre
    }
}

/// The buffer after blending `c` at each point of `pts`, in order. A
/// pixel listed twice is blended twice.
pub open spec fn blend_trace(pre: Seq<u32>, size: Size, pts: Seq<(int, int)>, c: u32) -> Seq<u32>
    decreases pts.len(),
{
    if pts.len() == 0 {
        pre
    } else {
        blend_trace(blend_at(pre, size, pts[0].0, pts[0].1, c), size, pts.drop_first(), c)
    }
}

/// Blending along a trace never changes the buffer's length.
pub proof fn lemma_blend_trace_len(pre: Seq<u32>, size: Size, pts: Seq<(int, int)>, c: u32)
    ensures
        blend_trace(pre, size, pts, c).len() == pre.len(),
    decreases pts.len(),
{
    if pts.len() > 0 {
        lemma_blend_trace_len(blend_at(pre, size, pts[0].0, pts[0].1, c), size, pts.drop_first(), c);
    }
}

/// A trace split in two is the second part applied after the first.
pub proof fn lemma_blend_trace_concat(
    pre: Seq<u32>,
    size: Size,
    a: Seq<(int, int)>,
    b: Seq<(int, int)>,
    c: u32,
)
    ensures
        blend_trace(pre, size, a + b, c) == blend_trace(blend_trace(pre, size, a, c), size, b, c),
    decreases a.len(),
{
    if a.len() == 0 {
        assert(a + b =~= b);
    } else {
        assert((a + b)[0] == a[0]);
        assert((a + b).drop_first() =~= a.drop_first() + b);
        lemma_blend_trace_concat(blend_at(pre, size, a[0].0, a[0].1, c), size, a.drop_first(), b, c);
    }
}

/// A pixel whose coordinates no in-clip trace point carries keeps its
/// value.
pub proof fn lemma_blend_trace_frame(
    pre: Seq<u32>,
    size: Size,
    pts: Seq<(int, int)>,
    c: u32,
    i: int,
)
    requires
        0 <= i < pre.len(),
        size.width > 0,
        forall|k: int|
            0 <= k < pts.len() ==> !(px_in_clip(size, pts[k].0, pts[k].1) && pts[k].0 == i % (
            size.width as int) && pts[k].1 == i / (size.width as int)),
    ensures
        blend_trace(pre, size, pts, c)[i] == pre[i],
    decreases pts.len(),
{
    if pts.len() > 0 {
        let p = pts[0];
        let next = blend_at(pre, size, p.0, p.1, c);
        let idx = p.1 * size.width + p.0;
        if px_in_clip(size, p.0, p.1) && idx < pre.len() {
            lemma_row_major(size.width as int, p.0, p.1);
            assert(next[i] == pre[i]);
        }
        assert forall|k: int|
            0 <= k < pts.drop_first().len() implies !(px_in_clip(
            size,
            pts.drop_first()[k].0,
            pts.drop_first()[k].1,
        ) && pts.drop_first()[k].0 == i % (size.width as int) && pts.drop_first()[k].1 == i / (
        size.width as int)) by {
            assert(pts.drop_first()[k] == pts[k + 1]);
        }
        lemma_blend_trace_frame(next, size, pts.drop_first(), c, i);
    }
}

/// With a zero-width clip no trace point can land, so nothing changes.
pub proof fn lemma_blend_trace_no_clip(pre: Seq<u32>, size: Size, pts: Seq<(int, int)>, c: u32)
    requires
        size.width == 0,
    ensures
        blend_trace(pre, size, pts, c) == pre,
    decreases pts.len(),
{
    if pts.len() > 0 {
        lemma_blend_trace_no_clip(pre, size, pts.drop_first(), c);
    }
}

/// The pixels of the top and bottom border edges, one column at a time
/// from `ex` up to `hi`: the top pixel, then the bottom pixel.
pub open spec fn h_edge_points(rect: Rect, ex: int, hi: int) -> Seq<(int, int)>
    decreases hi - ex,
{
    if ex >= hi {
        Seq::empty()
    } else {
        seq![
            (rect.x + ex, rect.y as int),
            (rect.x + ex, rect.y + rect.height - 1),
        ] + h_edge_points(rect, ex + 1, hi)
    }
}

/// The pixels of the left and right border edges, one row at a time from
/// `ey` up to `hi`: the left pixel, then the right pixel.
pub open spec fn v_edge_points(rect: Rect, ey: int, hi: int) -> Seq<(int, int)>
    decreases hi - ey,
{
    if ey >= hi {
        Seq::empty()
    } else {
        seq![
            (rect.x as int, rect.y + ey),
            (rect.x + rect.width - 1, rect.y + ey),
        ] + v_edge_points(rect, ey + 1, hi)
    }
}

/// The two symmetric pixels that quadrant `q` paints for offsets
/// `(a, b)` from the arc center.
pub open spec fn arc_pair(cx: int, cy: int, q: u8, a: int, b: int) -> Seq<(int, int)> {
    if q == 0 {
        seq![(cx - a, cy - b), (cx - b, cy - a)]
    } else if q == 1 {
        seq![(cx + a, cy - b), (cx + b, cy - a)]
    } else if q == 2 {
        seq![(cx - a, cy + b), (cx - b, cy + a)]
    } else {
        seq![(cx + a, cy + b), (cx + b, cy + a)]
    }
}

/// The pixels the midpoint circle recurrence visits for quadrant `q`,
/// starting from offsets `(a, b)` with decision variable `d`.
pub open spec fn arc_points(cx: int, cy: int, q: u8, a: int, b: int, d: int) -> Seq<(int, int)>
    decreases b - a + 2,
{
    if a > b || q >= 4 {
        Seq::empty()
    } else {
        arc_pair(cx, cy, q, a, b) + (if d < 0 {
            arc_points(cx, cy, q, a + 1, b, d + 4 * a + 6)
        } else {
            arc_points(cx, cy, q, a + 1, b - 1, d + 4 * (a - b) + 10)
        })
    }
}

/// Every pixel the border stroke paints, in paint order: the horizontal
/// edges, the vertical edges, then the four corner arcs.
pub open spec fn stroke_points(rect: Rect, r: int) -> Seq<(int, int)> {
    h_edge_points(rect, r, rect.width - r) + v_edge_points(rect, r, rect.height - r) + arc_points(
        rect.x + r,
        rect.y + r,
        0,
        0,
        r,
        3 - 2 * r,
    ) + arc_points(rect.x + rect.width - r - 1, rect.y + r, 1, 0, r, 3 - 2 * r) + arc_points(
        rect.x + r,
        rect.y + rect.height - r - 1,
        2,
        0,
        r,
        3 - 2 * r,
    ) + arc_points(
        rect.x + rect.width - r - 1,
        rect.y + rect.height - r - 1,
        3,
        0,
        r,
        3 - 2 * r,
    )
}

/// The horizontal-edge pixels sit between the corner insets on the top
/// and bottom rows.
pub proof fn lemma_h_edge_points_box(rect: Rect, ex: int, hi: int)
    ensures
        forall|k: int|
            0 <= k < h_edge_points(rect, ex, hi).len() ==> {
                let p = #[trigger] h_edge_points(rect, ex, hi)[k];
                rect.x + ex <= p.0 < rect.x + hi && (p.1 == rect.y || p.1 == rect.y + rect.height
                    - 1)
            },
    decreases hi - ex,
{
    if ex < hi {
        lemma_h_edge_points_box(rect, ex + 1, hi);
        assert forall|k: int| 0 <= k < h_edge_points(rect, ex, hi).len() implies {
            let p = #[trigger] h_edge_points(rect, ex, hi)[k];
            rect.x + ex <= p.0 < rect.x + hi && (p.1 == rect.y || p.1 == rect.y + rect.height - 1)
        } by {
            if k >= 2 {
                assert(h_edge_points(rect, ex, hi)[k] == h_edge_points(rect, ex + 1, hi)[k - 2]);
            }
        }
    }
}

/// The vertical-edge pixels sit between the corner insets on the left
/// and right columns.
pub proof fn lemma_v_edge_points_box(rect: Rect, ey: int, hi: int)
    ensures
        forall|k: int|
            0 <= k < v_edge_points(rect, ey, hi).len() ==> {
                let p = #[trigger] v_edge_points(rect, ey, hi)[k];
                rect.y + ey <= p.1 < rect.y + hi && (p.0 == rect.x || p.0 == rect.x + rect.width
                    - 1)
            },
    decreases hi - ey,
{
    if ey < hi {
        lemma_v_edge_points_box(rect, ey + 1, hi);
        assert forall|k: int| 0 <= k < v_edge_points(rect, ey, hi).len() implies {
            let p = #[trigger] v_edge_points(rect, ey, hi)[k];
            rect.y + ey <= p.1 < rect.y + hi && (p.0 == rect.x || p.0 == rect.x + rect.width - 1)
        } by {
            if k >= 2 {
                assert(v_edge_points(rect, ey, hi)[k] == v_edge_points(rect, ey + 1, hi)[k - 2]);
            }
        }
    }
}

/// The arc pixels stay inside the quadrant's quarter of the
/// circumscribing square.
pub proof fn lemma_arc_points_box(cx: int, cy: int, q: u8, a: int, b: int, d: int, r: int)
    requires
        0 <= a,
        b <= r,
    ensures
        forall|k: int|
            0 <= k < arc_points(cx, cy, q, a, b, d).len() ==> arc_box(
                q,
                cx,
                cy,
                r,
                #[trigger] arc_points(cx, cy, q, a, b, d)[k].0,
                arc_points(cx, cy, q, a, b, d)[k].1,
            ),
    decreases b - a + 2,
{
    if a <= b && q < 4 {
        let nxt = if d < 0 {
            arc_points(cx, cy, q, a + 1, b, d + 4 * a + 6)
        } else {
            arc_points(cx, cy, q, a + 1, b - 1, d + 4 * (a - b) + 10)
        };
        if d < 0 {
            lemma_arc_points_box(cx, cy, q, a + 1, b, d + 4 * a + 6, r);
        } else {
            lemma_arc_points_box(cx, cy, q, a + 1, b - 1, d + 4 * (a - b) + 10, r);
        }
        assert forall|k: int| 0 <= k < arc_points(cx, cy, q, a, b, d).len() implies arc_box(
            q,
            cx,
            cy,
            r,
            #[trigger] arc_points(cx, cy, q, a, b, d)[k].0,
            arc_points(cx, cy, q, a, b, d)[k].1,
        ) by {
            if k >= 2 {
                assert(arc_points(cx, cy, q, a, b, d)[k] == nxt[k - 2]);
            } else {
                assert(arc_points(cx, cy, q, a, b, d)[k] == arc_pair(cx, cy, q, a, b)[k]);
            }
        }
    }
}


/// The whole buffer after a rounded fill of `rect` with `c`.
pub open spec fn rounded_fill_layer(
    pre: Seq<u32>,
    size: Size,
    rect: Rect,
    radius: int,
    c: u32,
) -> Seq<u32> {
    Seq::new(pre.len(), |i: int| rounded_pixel(pre, rect, size, radius, c, i))
}

/// The whole buffer after an alpha-blending fill of `rect` with `c`.
pub open spec fn blend_rect_layer(pre: Seq<u32>, size: Size, rect: Rect, c: u32) -> Seq<u32> {
    Seq::new(pre.len(), |i: int| blend_rect_pixel(pre, rect, size, c, i))
}

/// The whole buffer after a direct (non-blending) fill of `rect` with `c`.
pub open spec fn solid_rect_layer(pre: Seq<u32>, size: Size, rect: Rect, c: u32) -> Seq<u32> {
    Seq::new(pre.len(), |i: int| solid_rect_pixel(pre, rect, size, c, i))
}

/// Whether a glass surface on `rect` draws its top highlight strip: the
/// interior must be wider than the two corner insets, and the strip's
/// position must be a representable pixel coordinate.
pub open spec fn highlight_applies(rect: Rect, radius: int) -> bool {
    &&& rect.width > 2 * radius
    &&& rect.x + radius <= 0x7FFF_FFFF
    &&& rect.y + 1 <= 0x7FFF_FFFF
}

/// The one-pixel-tall top highlight strip of a glass surface on `rect`:
/// one row under the top edge, inset by `radius` on both sides.
pub open spec fn highlight_rect(rect: Rect, radius: int) -> Rect {
    Rect {
        x: (rect.x + radius) as i32,
        y: (rect.y + 1) as i32,
        width: (rect.width - 2 * radius) as u32,
        height: 1u32,
    }
}

/// The whole buffer after drawing one glass surface: the rounded fill of
/// the background, then (for a bordered style) the border blended along
/// the stroke trace, then (for a style with a visible highlight) the
/// highlight strip blended over the top.
pub open spec fn draw_rect_spec(pre: Seq<u32>, size: Size, rect: Rect, style: GlassStyle) -> Seq<
    u32,
> {
    let radius = style.corner_radius as int;
    let filled = rounded_fill_layer(pre, size, rect, radius, style.background.0);
    let stroked = if style.border_thickness > 0 {
        blend_trace(filled, size, stroke_points(rect, radius), style.border.0)
    } else {
        filled
    };
    if alpha_of(style.highlight.0) > 0 && highlight_applies(rect, radius) {
        blend_rect_layer(stroked, size, highlight_rect(rect, radius), style.highlight.0)
    } else {
        stroked
    }
}


/// A rectangle from mathematical pixel coordinates.
pub open spec fn px_rect(x: int, y: int, w: u32, h: u32) -> Rect {
    Rect { x: x as i32, y: y as i32, width: w, height: h }
}

/// The value of [`GlassStyle::bar`].
pub open spec fn bar_style_spec() -> GlassStyle {
    GlassStyle {
        background: Color(colors::GLASS_BG),
        border: Color(colors::GLASS_BORDER),
        highlight: Color(colors::GLASS_BORDER_LIGHT),
        corner_radius: 12u32,
        border_thickness: 1u32,
    }
}

/// The value of [`GlassStyle::panel`].
pub open spec fn panel_style_spec() -> GlassStyle {
    GlassStyle {
        background: Color(colors::MENU_BG),
        border: Color(colors::GLASS_BORDER),
        highlight: Color(colors::GLASS_BORDER_LIGHT),
        corner_radius: 16u32,
        border_thickness: 1u32,
    }
}

/// Rasterizes glass surfaces into a caller-owned pixel buffer.
pub struct GlassRenderer;

impl GlassRenderer {
    /// Source-over alpha blend of `src` onto `dst`, matching [`blend_spec`]
    /// exactly.
    pub fn blend(dst: u32, src: u32) -> (out: u32)
        ensures
            out == blend_spec(dst, src),
    {
        let sa = (src >> 24) & 0xFF;
        proof {
            assert(((src >> 24) & 0xFF) <= 255 && ((src >> 16) & 0xFF) <= 255 && ((src >> 8)
                & 0xFF) <= 255 && (src & 0xFF) <= 255) by (bit_vector);
            assert(((dst >> 16) & 0xFF) <= 255 && ((dst >> 8) & 0xFF) <= 255 && (dst & 0xFF)
                <= 255) by (bit_vector);
        }
        if sa == 0 {
            return dst;
        }
        if sa == 255 {
            return src;
        }
        let sr = (src >> 16) & 0xFF;
        let sg = (src >> 8) & 0xFF;
        let sb = src & 0xFF;

        let dr = (dst >> 16) & 0xFF;
        let dg = (dst >> 8) & 0xFF;
        let db = dst & 0xFF;

        let inv_sa = 255 - sa;
        proof {
            assert(sr * sa <= 255 * 255 && dr * inv_sa <= 255 * 255 && sg * sa <= 255 * 255
                && dg * inv_sa <= 255 * 255 && sb * sa <= 255 * 255 && db * inv_sa <= 255
                * 255) by (nonlinear_arith)
                requires
                    sr <= 255,
                    sg <= 255,
                    sb <= 255,
                    dr <= 255,
                    dg <= 255,
                    db <= 255,
                    sa <= 255,
                    inv_sa <= 255,
            ;
        }
        let out_r = (sr * sa + dr * inv_sa) / 255;
        let out_g = (sg * sa + dg * inv_sa) / 255;
        let out_b = (sb * sa + db * inv_sa) / 255;

        0xFF000000 | (out_r << 16) | (out_g << 8) | out_b
    }



    /// Draws one glass surface: fills `rect` with the style's background
    /// behind rounded corners, strokes the border if the style has one, and
    /// blends the one-pixel top highlight strip if its alpha is nonzero.
    ///
    /// With no border and a transparent highlight the result is exactly the
    /// rounded fill, so nothing outside the rounded footprint is written;
    /// in general, styles whose corner radius fits inside `rect` touch only
    /// pixels of `rect`.
    pub fn draw_rect(buffer: &mut Vec<u32>, buffer_size: Size, rect: Rect, style: &GlassStyle)
        requires
            style.corner_radius <= 46340,
            rect.width < 0x8000_0000,
            rect.height < 0x8000_0000,
            buffer_size.width < 0x8000_0000,
            buffer_size.height < 0x8000_0000,
        ensures
            final(buffer)@ == draw_rect_spec(old(buffer)@, buffer_size, rect, *style),
            final(buffer).len() == old(buffer).len(),
            style.border_thickness == 0 && alpha_of(style.highlight.0) == 0 ==> forall|i: int|
                0 <= i < final(buffer).len() ==> final(buffer)[i] == rounded_pixel(
                    old(buffer)@,
                    rect,
                    buffer_size,
                    style.corner_radius as int,
                    style.background.0,
                    i,
                ),
            style.corner_radius + 1 <= rect.width && style.corner_radius + 1 <= rect.height
                && rect.height >= 2 ==> forall|i: int|
                0 <= i < final(buffer).len() && !(buffer_size.width > 0 && px_in_rect(
                    rect,
                    i % (buffer_size.width as int),
                    i / (buffer_size.width as int),
                ) && px_in_clip(
                    buffer_size,
                    i % (buffer_size.width as int),
                    i / (buffer_size.width as int),
                )) ==> final(buffer)[i] == old(buffer)[i],
    {
        let len = buffer.len();
        let ghost confined = style.corner_radius + 1 <= rect.width && style.corner_radius + 1
            <= rect.height && rect.height >= 2;

        Self::fill_rounded_rect(buffer, buffer_size, rect, style.background, style.corner_radius);
        let ghost b1 = buffer@;
        proof {
            if confined {
                assert forall|i: int|
                    0 <= i < len && !(buffer_size.width > 0 && px_in_rect(
                        rect,
                        i % (buffer_size.width as int),
                        i / (buffer_size.width as int),
                    ) && px_in_clip(
                        buffer_size,
                        i % (buffer_size.width as int),
                        i / (buffer_size.width as int),
                    )) implies b1[i] == old(buffer)@[i] by {
                    let wi = buffer_size.width as int;
                    if wi > 0 && rounded_covers(
                        rect,
                        buffer_size,
                        style.corner_radius as int,
                        len as int,
                        i % wi,
                        i / wi,
                    ) {
                        lemma_rounded_covers_in_rect(
                            rect,
                            buffer_size,
                            style.corner_radius as int,
                            len as int,
                            i % wi,
                            i / wi,
                        );
                    }
                }
            }
        }

        if style.border_thickness > 0 {
            Self::stroke_rounded_rect(buffer, buffer_size, rect, style.border, style.corner_radius);
        }
        let ghost b2 = buffer@;

        if style.highlight.alpha() > 0 {
            let hx = rect.x as i64 + style.corner_radius as i64;
            let hy = rect.y as i64 + 1;
            let hw = rect.width as i64 - 2 * (style.corner_radius as i64);
            if hw > 0 && hx <= 0x7FFF_FFFF && hy <= 0x7FFF_FFFF {
                let hrect = Rect {
                    x: hx as i32,
                    y: hy as i32,
                    width: hw as u32,
                    height: 1u32,
                };
                Self::fill_rect_blend(buffer, buffer_size, hrect, style.highlight);
                proof {
                    assert(hrect == highlight_rect(rect, style.corner_radius as int));
                    assert(buffer@ =~= blend_rect_layer(
                        b2,
                        buffer_size,
                        highlight_rect(rect, style.corner_radius as int),
                        style.highlight.0,
                    ));
                    if confined {
                        assert forall|i: int|
                            0 <= i < len && !(buffer_size.width > 0 && px_in_rect(
                                rect,
                                i % (buffer_size.width as int),
                                i / (buffer_size.width as int),
                            ) && px_in_clip(
                                buffer_size,
                                i % (buffer_size.width as int),
                                i / (buffer_size.width as int),
                            )) implies buffer@[i] == b2[i] by {
                            let wi = buffer_size.width as int;
                            assert(!rect_covers(hrect, buffer_size, len as int, i % wi, i / wi));
                        }
                    }
                }
            }
        }
        proof {
            let radius = style.corner_radius as int;
            assert(b1 =~= rounded_fill_layer(
                old(buffer)@,
                buffer_size,
                rect,
                radius,
                style.background.0,
            ));
            assert(b2 == (if style.border_thickness > 0 {
                blend_trace(b1, buffer_size, stroke_points(rect, radius), style.border.0)
            } else {
                b1
            }));
            assert(buffer@ == draw_rect_spec(old(buffer)@, buffer_size, rect, *style));
        }
    }

    /// Horizontal corner inset at vertical distance `distance` from the
    /// outer edge of a corner of radius `radius`.
    fn corner_inset(radius: i32, distance: i32) -> (r: i32)
        requires
            0 <= distance,
            0 <= radius <= 46340,
        ensures
            r == inset_spec(radius as int, distance as int),
            0 <= r <= radius,
    {
        if distance >= radius {
            return radius;
        }
        proof {
            assert(radius * radius < 0x8000_0000 && distance * distance < 0x8000_0000)
                by (nonlinear_arith)
                requires
                    0 <= distance < radius <= 46340,
            ;
        }
        let rr = (radius as u64) * (radius as u64);
        let dd = (distance as u64) * (distance as u64);
        proof {
            assert(dd <= rr && rr < 0x1_0000_0000) by (nonlinear_arith)
                requires
                    0 <= distance < radius <= 46340,
                    rr == radius * radius,
                    dd == distance * distance,
            ;
        }
        let v = rr - dd;
        let f = isqrt_floor(v);
        proof {
            assert(f <= 0xFFFF) by (nonlinear_arith)
                requires
                    f * f <= v,
                    v < 0x1_0000_0000,
                    f >= 0,
            ;
            lemma_inset_bounds(radius as int, distance as int);
        }
        let c = if f * f == v {
            f
        } else {
            f + 1
        };
        radius - (c as i32)
    }

    /// Fills `rect` with `color`, rounding the four corners by `radius`:
    /// each row is inset on both sides by the corner inset for that row,
    /// clipped to `size`, and written (blending by the color's alpha) only
    /// if the whole clipped row fits in the buffer.
    #[verifier::loop_isolation(false)]
    pub(crate) fn fill_rounded_rect(
        buffer: &mut Vec<u32>,
        size: Size,
        rect: Rect,
        color: Color,
        radius: u32,
    )
        requires
            radius <= 46340,
            rect.width < 0x8000_0000,
            rect.height < 0x8000_0000,
            size.width < 0x8000_0000,
            size.height < 0x8000_0000,
        ensures
            final(buffer).len() == old(buffer).len(),
            forall|i: int|
                0 <= i < final(buffer).len() ==> final(buffer)[i] == rounded_pixel(
                    old(buffer)@,
                    rect,
                    size,
                    radius as int,
                    color.0,
                    i,
                ),
    {
        if size.width == 0 {
            return ;
        }
        let w = size.width as i64;
        let h = size.height as i64;
        let len = buffer.len();
        let cu = color.as_u32();
        let alpha = color.alpha();
        let r = radius as i32;
        let mut y: u32 = 0;
        while y < rect.height
            invariant
                0 <= y <= rect.height,
                buffer.len() == len,
                forall|i: int|
                    0 <= i < len ==> buffer[i] == rounded_pixel_upto(
                        old(buffer)@,
                        rect,
                        size,
                        radius as int,
                        color.0,
                        i,
                        y as int,
                    ),
            decreases rect.height - y,
        {
            let sy = rect.y as i64 + y as i64;
            if sy >= 0 && sy < h && alpha > 0 {
                let inset: i32 = if (y as i64) < (r as i64) {
                    Self::corner_inset(r, r - 1 - (y as i32))
                } else if (y as i64) >= (rect.height as i64 - r as i64) {
                    Self::corner_inset(r, ((y as i64) - (rect.height as i64 - r as i64)) as i32)
                } else {
                    0
                };
                assert(inset == row_inset(rect, radius as int, y as int));
                let t0 = rect.x as i64 + inset as i64;
                let xs = if t0 > 0 {
                    t0
                } else {
                    0
                };
                let t1 = rect.x as i64 + rect.width as i64 - inset as i64;
                let xe = if t1 < w {
                    t1
                } else {
                    w
                };
                if xs < xe {
                    proof {
                        lemma_px_bounds(sy as int, xe as int, w as int);
                    }
                    let row_end = sy * w + xe;
                    if (row_end as u64) <= (len as u64) {
                        let mut xx = xs;
                        while xx < xe
                            invariant
                                xs <= xx <= xe,
                                buffer.len() == len,
                                forall|i: int|
                                    0 <= i < len && !(i / (size.width as int) == sy && xs <= i % (
                                    size.width as int) < xx) ==> buffer[i] == rounded_pixel_upto(
                                        old(buffer)@,
                                        rect,
                                        size,
                                        radius as int,
                                        color.0,
                                        i,
                                        y as int,
                                    ),
                                forall|i: int|
                                    0 <= i < len && i / (size.width as int) == sy && xs <= i % (
                                    size.width as int) < xx ==> buffer[i] == rounded_pixel(
                                        old(buffer)@,
                                        rect,
                                        size,
                                        radius as int,
                                        color.0,
                                        i,
                                    ),
                            decreases xe - xx,
                        {
                            proof {
                                lemma_px_bounds(sy as int, xx as int, w as int);
                                lemma_row_major(w as int, xx as int, sy as int);
                            }
                            let idx = sy * w + xx;
                            proof {
                                assert(idx < row_end) by (nonlinear_arith)
                                    requires
                                        idx == sy * w + xx,
                                        row_end == sy * w + xe,
                                        xx < xe,
                                ;
                            }
                            let iu = idx as usize;
                            let prev = buffer[iu];
                            let val = if alpha == 255 {
                                cu
                            } else {
                                Self::blend(prev, cu)
                            };
                            buffer.set(iu, val);
                            proof {
                                let wi = size.width as int;
                                let syi = sy as int;
                                let sxi = xx as int;
                                assert forall|i: int|
                                    0 <= i < len && i / wi == syi && xs <= i % wi < xx
                                        + 1 implies buffer[i] == rounded_pixel(
                                    old(buffer)@,
                                    rect,
                                    size,
                                    radius as int,
                                    color.0,
                                    i,
                                ) by {
                                    vstd::arithmetic::div_mod::lemma_fundamental_div_mod(i, wi);
                                    if i % wi == sxi {
                                        assert(i == syi * wi + sxi) by (nonlinear_arith)
                                            requires
                                                i == wi * (i / wi) + i % wi,
                                                i / wi == syi,
                                                i % wi == sxi,
                                        ;
                                    }
                                }
                                assert forall|i: int|
                                    0 <= i < len && !(i / wi == syi && xs <= i % wi < xx
                                        + 1) implies buffer[i] == rounded_pixel_upto(
                                    old(buffer)@,
                                    rect,
                                    size,
                                    radius as int,
                                    color.0,
                                    i,
                                    y as int,
                                ) by {
                                }
                            }
                            xx = xx + 1;
                        }
                    }
                }
            }
            proof {
                assert forall|i: int| 0 <= i < len implies buffer[i] == rounded_pixel_upto(
                    old(buffer)@,
                    rect,
                    size,
                    radius as int,
                    color.0,
                    i,
                    y as int + 1,
                ) by {
                    let wi = size.width as int;
                    if rounded_covers(rect, size, radius as int, len as int, i % wi, i / wi) {
                        lemma_row_major(wi, i % wi, i / wi);
                    }
                }
            }
            y = y + 1;
        }
    }


    /// Blends one pixel at `(px, py)` into the buffer; off-clip or
    /// out-of-buffer positions are left untouched.
    /// Blends one pixel at `(px, py)` into the buffer; off-clip or
    /// out-of-buffer positions are left untouched.
    fn put_px(buffer: &mut Vec<u32>, size: Size, px: i64, py: i64, color: u32)
        requires
            size.width < 0x8000_0000,
            size.height < 0x8000_0000,
        ensures
            final(buffer)@ == blend_at(old(buffer)@, size, px as int, py as int, color),
            final(buffer).len() == old(buffer).len(),
    {
        if px < 0 || py < 0 || px >= size.width as i64 || py >= size.height as i64 {
            return ;
        }
        proof {
            lemma_px_bounds(py as int, px as int, size.width as int);
        }
        let idx = py * (size.width as i64) + px;
        if (idx as u64) < (buffer.len() as u64) {
            let iu = idx as usize;
            let prev = buffer[iu];
            buffer.set(iu, Self::blend(prev, color));
        }
    }

    /// Draws one quadrant of a circle of radius `r` around `(cx, cy)` by
    /// midpoint stepping, blending `color` at exactly the pixels of
    /// [`arc_points`]. Touches only the quadrant's quarter of the
    /// circumscribing square.
    #[verifier::loop_isolation(false)]
    fn draw_corner_arc(
        buffer: &mut Vec<u32>,
        size: Size,
        cx: i64,
        cy: i64,
        r: i32,
        color: u32,
        quadrant: u8,
    )
        requires
            0 <= r <= 46340,
            -0x1_0000_0000_0000 <= cx <= 0x1_0000_0000_0000,
            -0x1_0000_0000_0000 <= cy <= 0x1_0000_0000_0000,
            size.width < 0x8000_0000,
            size.height < 0x8000_0000,
        ensures
            final(buffer)@ == blend_trace(
                old(buffer)@,
                size,
                arc_points(cx as int, cy as int, quadrant, 0, r as int, 3 - 2 * (r as int)),
                color,
            ),
            final(buffer).len() == old(buffer).len(),
    {
        proof {
            lemma_blend_trace_len(
                old(buffer)@,
                size,
                arc_points(cx as int, cy as int, quadrant, 0, r as int, 3 - 2 * (r as int)),
                color,
            );
        }
        if quadrant >= 4 {
            return ;
        }
        let len = buffer.len();
        let mut x: i32 = 0;
        let mut y: i32 = r;
        let mut d: i64 = 3 - 2 * (r as i64);
        while x <= y
            invariant
                0 <= x <= r + 1,
                -1 <= y <= r,
                x <= y + 2,
                quadrant < 4,
                -200000 - x * 200000 <= d <= 3 + x * 200000,
                buffer.len() == len,
                blend_trace(
                    old(buffer)@,
                    size,
                    arc_points(cx as int, cy as int, quadrant, 0, r as int, 3 - 2 * (r as int)),
                    color,
                ) == blend_trace(
                    buffer@,
                    size,
                    arc_points(cx as int, cy as int, quadrant, x as int, y as int, d as int),
                    color,
                ),
            decreases y - x + 2,
        {
            let ghost pre_iter = buffer@;
            let ghost rem = arc_points(
                cx as int,
                cy as int,
                quadrant,
                x as int,
                y as int,
                d as int,
            );
            let (dx0, dy0, dx1, dy1): (i64, i64, i64, i64) = if quadrant == 0 {
                (-(x as i64), -(y as i64), -(y as i64), -(x as i64))
            } else if quadrant == 1 {
                (x as i64, -(y as i64), y as i64, -(x as i64))
            } else if quadrant == 2 {
                (-(x as i64), y as i64, -(y as i64), x as i64)
            } else {
                (x as i64, y as i64, y as i64, x as i64)
            };
            let px0 = cx + dx0;
            let py0 = cy + dy0;
            Self::put_px(buffer, size, px0, py0, color);
            let px1 = cx + dx1;
            let py1 = cy + dy1;
            Self::put_px(buffer, size, px1, py1, color);
            proof {
                let pr = arc_pair(cx as int, cy as int, quadrant, x as int, y as int);
                let nxt = if d < 0 {
                    arc_points(
                        cx as int,
                        cy as int,
                        quadrant,
                        x + 1,
                        y as int,
                        d + 4 * (x as int) + 6,
                    )
                } else {
                    arc_points(
                        cx as int,
                        cy as int,
                        quadrant,
                        x + 1,
                        y - 1,
                        d + 4 * ((x as int) - (y as int)) + 10,
                    )
                };
                assert(rem == pr + nxt);
                assert((px0 as int, py0 as int) == pr[0]);
                assert((px1 as int, py1 as int) == pr[1]);
                let s1 = blend_at(pre_iter, size, pr[0].0, pr[0].1, color);
                let s2 = blend_at(s1, size, pr[1].0, pr[1].1, color);
                assert(buffer@ == s2);
                assert((pr + nxt)[0] == pr[0]);
                assert((pr + nxt).drop_first() =~= seq![pr[1]] + nxt);
                assert((seq![pr[1]] + nxt)[0] == pr[1]);
                assert((seq![pr[1]] + nxt).drop_first() =~= nxt);
                assert(blend_trace(pre_iter, size, rem, color) == blend_trace(
                    s1,
                    size,
                    seq![pr[1]] + nxt,
                    color,
                ));
                assert(blend_trace(s1, size, seq![pr[1]] + nxt, color) == blend_trace(
                    s2,
                    size,
                    nxt,
                    color,
                ));
            }
            if d < 0 {
                d = d + 4 * (x as i64) + 6;
            } else {
                d = d + 4 * ((x as i64) - (y as i64)) + 10;
                y = y - 1;
            }
            x = x + 1;
        }
    }

    /// Strokes the border of `rect`: the four straight edges, inset by
    /// `radius` from each corner, plus the four corner arcs — blending the
    /// border color at exactly the pixels of [`stroke_points`], in that
    /// order. Touches only the rectangle widened by the arcs' reach, and,
    /// whenever the radius fits inside the rectangle, only the rectangle
    /// itself.
    #[verifier::loop_isolation(false)]
    pub(crate) fn stroke_rounded_rect(
        buffer: &mut Vec<u32>,
        size: Size,
        rect: Rect,
        color: Color,
        radius: u32,
    )
        requires
            radius <= 46340,
            rect.width < 0x8000_0000,
            rect.height < 0x8000_0000,
            size.width < 0x8000_0000,
            size.height < 0x8000_0000,
        ensures
            final(buffer)@ == blend_trace(
                old(buffer)@,
                size,
                stroke_points(rect, radius as int),
                color.0,
            ),
            final(buffer).len() == old(buffer).len(),
            forall|i: int|
                0 <= i < final(buffer).len() && !(size.width > 0 && stroke_box(
                    rect,
                    radius as int,
                    i % (size.width as int),
                    i / (size.width as int),
                ) && px_in_clip(size, i % (size.width as int), i / (size.width as int)))
                ==> final(buffer)[i] == old(buffer)[i],
            radius + 1 <= rect.width && radius + 1 <= rect.height ==> forall|i: int|
                0 <= i < final(buffer).len() && !(size.width > 0 && px_in_rect(
                    rect,
                    i % (size.width as int),
                    i / (size.width as int),
                ) && px_in_clip(size, i % (size.width as int), i / (size.width as int)))
                ==> final(buffer)[i] == old(buffer)[i],
    {
        let len = buffer.len();
        let r = radius as i32;
        let cu = color.as_u32();
        let ghost b0 = buffer@;
        let ghost ri = radius as int;

        // Horizontal edges (top and bottom).
        let top_y = rect.y as i64;
        let bot_y = rect.y as i64 + rect.height as i64 - 1;
        let x_hi = rect.width as i64 - r as i64;
        let mut ex = r as i64;
        while ex < x_hi
            invariant
                r <= ex,
                ex <= x_hi || ex == r as i64,
                buffer.len() == len,
                blend_trace(b0, size, h_edge_points(rect, ri, x_hi as int), cu) == blend_trace(
                    buffer@,
                    size,
                    h_edge_points(rect, ex as int, x_hi as int),
                    cu,
                ),
            decreases x_hi - ex,
        {
            let ghost pre_iter = buffer@;
            let ghost rem = h_edge_points(rect, ex as int, x_hi as int);
            let px = rect.x as i64 + ex;
            Self::put_px(buffer, size, px, top_y, cu);
            Self::put_px(buffer, size, px, bot_y, cu);
            proof {
                let p0 = (px as int, top_y as int);
                let p1 = (px as int, bot_y as int);
                let nxt = h_edge_points(rect, ex + 1, x_hi as int);
                assert(rem == seq![p0, p1] + nxt);
                let s1 = blend_at(pre_iter, size, p0.0, p0.1, cu);
                let s2 = blend_at(s1, size, p1.0, p1.1, cu);
                assert(buffer@ == s2);
                assert((seq![p0, p1] + nxt)[0] == p0);
                assert((seq![p0, p1] + nxt).drop_first() =~= seq![p1] + nxt);
                assert((seq![p1] + nxt)[0] == p1);
                assert((seq![p1] + nxt).drop_first() =~= nxt);
                assert(blend_trace(pre_iter, size, rem, cu) == blend_trace(
                    s1,
                    size,
                    seq![p1] + nxt,
                    cu,
                ));
                assert(blend_trace(s1, size, seq![p1] + nxt, cu) == blend_trace(s2, size, nxt, cu));
            }
            ex = ex + 1;
        }
        let ghost b1 = buffer@;
        proof {
            assert(h_edge_points(rect, ri, x_hi as int) == h_edge_points(
                rect,
                ri,
                rect.width - ri,
            ));
            assert(b1 == blend_trace(b0, size, h_edge_points(rect, ri, rect.width - ri), cu));
        }

        // Vertical edges (left and right).
        let left_x = rect.x as i64;
        let right_x = rect.x as i64 + rect.width as i64 - 1;
        let y_hi = rect.height as i64 - r as i64;
        let mut ey = r as i64;
        while ey < y_hi
            invariant
                r <= ey,
                ey <= y_hi || ey == r as i64,
                buffer.len() == len,
                blend_trace(b1, size, v_edge_points(rect, ri, y_hi as int), cu) == blend_trace(
                    buffer@,
                    size,
                    v_edge_points(rect, ey as int, y_hi as int),
                    cu,
                ),
            decreases y_hi - ey,
        {
            let ghost pre_iter = buffer@;
            let ghost rem = v_edge_points(rect, ey as int, y_hi as int);
            let py = rect.y as i64 + ey;
            Self::put_px(buffer, size, left_x, py, cu);
            Self::put_px(buffer, size, right_x, py, cu);
            proof {
                let p0 = (left_x as int, py as int);
                let p1 = (right_x as int, py as int);
                let nxt = v_edge_points(rect, ey + 1, y_hi as int);
                assert(rem == seq![p0, p1] + nxt);
                let s1 = blend_at(pre_iter, size, p0.0, p0.1, cu);
                let s2 = blend_at(s1, size, p1.0, p1.1, cu);
                assert(buffer@ == s2);
                assert((seq![p0, p1] + nxt)[0] == p0);
                assert((seq![p0, p1] + nxt).drop_first() =~= seq![p1] + nxt);
                assert((seq![p1] + nxt)[0] == p1);
                assert((seq![p1] + nxt).drop_first() =~= nxt);
                assert(blend_trace(pre_iter, size, rem, cu) == blend_trace(
                    s1,
                    size,
                    seq![p1] + nxt,
                    cu,
                ));
                assert(blend_trace(s1, size, seq![p1] + nxt, cu) == blend_trace(s2, size, nxt, cu));
            }
            ey = ey + 1;
        }
        let ghost b2 = buffer@;
        proof {
            assert(b2 == blend_trace(b1, size, v_edge_points(rect, ri, rect.height - ri), cu));
        }

        // Corner arcs.
        let cx_l = rect.x as i64 + r as i64;
        let cx_r = rect.x as i64 + rect.width as i64 - r as i64 - 1;
        let cy_t = rect.y as i64 + r as i64;
        let cy_b = rect.y as i64 + rect.height as i64 - r as i64 - 1;
        let ghost arc0 = arc_points(cx_l as int, cy_t as int, 0, 0, ri, 3 - 2 * ri);
        let ghost arc1 = arc_points(cx_r as int, cy_t as int, 1, 0, ri, 3 - 2 * ri);
        let ghost arc2 = arc_points(cx_l as int, cy_b as int, 2, 0, ri, 3 - 2 * ri);
        let ghost arc3 = arc_points(cx_r as int, cy_b as int, 3, 0, ri, 3 - 2 * ri);
        Self::draw_corner_arc(buffer, size, cx_l, cy_t, r, cu, 0);
        Self::draw_corner_arc(buffer, size, cx_r, cy_t, r, cu, 1);
        Self::draw_corner_arc(buffer, size, cx_l, cy_b, r, cu, 2);
        Self::draw_corner_arc(buffer, size, cx_r, cy_b, r, cu, 3);

        proof {
            let he = h_edge_points(rect, ri, rect.width - ri);
            let ve = v_edge_points(rect, ri, rect.height - ri);
            lemma_blend_trace_concat(b0, size, he, ve, cu);
            lemma_blend_trace_concat(b0, size, he + ve, arc0, cu);
            lemma_blend_trace_concat(b0, size, he + ve + arc0, arc1, cu);
            lemma_blend_trace_concat(b0, size, he + ve + arc0 + arc1, arc2, cu);
            lemma_blend_trace_concat(b0, size, he + ve + arc0 + arc1 + arc2, arc3, cu);
            assert(buffer@ == blend_trace(b0, size, stroke_points(rect, ri), cu));

            // The frame conditions follow from where the trace's points lie.
            lemma_h_edge_points_box(rect, ri, rect.width - ri);
            lemma_v_edge_points_box(rect, ri, rect.height - ri);
            lemma_arc_points_box(cx_l as int, cy_t as int, 0, 0, ri, 3 - 2 * ri, ri);
            lemma_arc_points_box(cx_r as int, cy_t as int, 1, 0, ri, 3 - 2 * ri, ri);
            lemma_arc_points_box(cx_l as int, cy_b as int, 2, 0, ri, 3 - 2 * ri, ri);
            lemma_arc_points_box(cx_r as int, cy_b as int, 3, 0, ri, 3 - 2 * ri, ri);
            let pts = stroke_points(rect, ri);
            assert forall|k: int|
                0 <= k < pts.len() implies stroke_box(rect, ri, #[trigger] pts[k].0, pts[k].1) && (
            ri + 1 <= rect.width && ri + 1 <= rect.height ==> px_in_rect(
                rect,
                pts[k].0,
                pts[k].1,
            )) by {
                let n0 = he.len();
                let n1 = n0 + ve.len();
                let n2 = n1 + arc0.len();
                let n3 = n2 + arc1.len();
                let n4 = n3 + arc2.len();
                if k < n0 {
                    assert(pts[k] == he[k]);
                } else if k < n1 {
                    assert(pts[k] == ve[k - n0]);
                } else if k < n2 {
                    assert(pts[k] == arc0[k - n1]);
                } else if k < n3 {
                    assert(pts[k] == arc1[k - n2]);
                } else if k < n4 {
                    assert(pts[k] == arc2[k - n3]);
                } else {
                    assert(pts[k] == arc3[k - n4]);
                }
            }
            if size.width > 0 {
                assert forall|i: int|
                    0 <= i < len && !(stroke_box(rect, ri, i % (size.width as int), i / (
                    size.width as int)) && px_in_clip(
                        size,
                        i % (size.width as int),
                        i / (size.width as int),
                    )) implies buffer[i] == b0[i] by {
                    lemma_blend_trace_frame(b0, size, pts, cu, i);
                }
                if ri + 1 <= rect.width && ri + 1 <= rect.height {
                    assert forall|i: int|
                        0 <= i < len && !(px_in_rect(rect, i % (size.width as int), i / (
                        size.width as int)) && px_in_clip(
                            size,
                            i % (size.width as int),
                            i / (size.width as int),
                        )) implies buffer[i] == b0[i] by {
                        lemma_blend_trace_frame(b0, size, pts, cu, i);
                    }
                }
            } else {
                lemma_blend_trace_no_clip(b0, size, pts, cu);
            }
        }
    }

    /// Fills `rect` with `color`, overwriting pixels directly (no blending),
    /// clipped to `size` and to the buffer.
    #[verifier::loop_isolation(false)]
    pub(crate) fn fill_rect_solid(
        buffer: &mut Vec<u32>,
        size: Size,
        rect: Rect,
        color: u32,
    )
        requires
            rect.width < 0x8000_0000,
            rect.height < 0x8000_0000,
            size.width < 0x8000_0000,
            size.height < 0x8000_0000,
        ensures
            final(buffer).len() == old(buffer).len(),
            forall|i: int|
                0 <= i < final(buffer).len() ==> final(buffer)[i] == solid_rect_pixel(
                    old(buffer)@,
                    rect,
                    size,
                    color,
                    i,
                ),
    {
        if size.width == 0 {
            return ;
        }
        let w = size.width as i64;
        let h = size.height as i64;
        let len = buffer.len();
        let mut y: u32 = 0;
        while y < rect.height
            invariant
                0 <= y <= rect.height,
                buffer.len() == len,
                forall|i: int|
                    0 <= i < len ==> buffer[i] == solid_rect_pixel_upto(
                        old(buffer)@,
                        rect,
                        size,
                        color,
                        i,
                        y as int,
                    ),
            decreases rect.height - y,
        {
            let sy = rect.y as i64 + y as i64;
            if sy >= 0 && sy < h {
                let mut x: u32 = 0;
                while x < rect.width
                    invariant
                        0 <= x <= rect.width,
                        0 <= sy < h,
                        sy == rect.y + y,
                        y < rect.height,
                        buffer.len() == len,
                        forall|i: int|
                            0 <= i < len && !(i / (size.width as int) == sy && rect.x <= i % (
                            size.width as int) < rect.x + x) ==> buffer[i]
                                == solid_rect_pixel_upto(
                                old(buffer)@,
                                rect,
                                size,
                                color,
                                i,
                                y as int,
                            ),
                        forall|i: int|
                            0 <= i < len && i / (size.width as int) == sy && rect.x <= i % (
                            size.width as int) < rect.x + x ==> buffer[i] == solid_rect_pixel(
                                old(buffer)@,
                                rect,
                                size,
                                color,
                                i,
                            ),
                    decreases rect.width - x,
                {
                    let sx = rect.x as i64 + x as i64;
                    if sx >= 0 && sx < w {
                        proof {
                            lemma_px_bounds(sy as int, sx as int, w as int);
                            lemma_row_major(w as int, sx as int, sy as int);
                        }
                        let idx = sy * w + sx;
                        if (idx as u64) < (len as u64) {
                            let iu = idx as usize;
                            buffer.set(iu, color);
                        }
                    }
                    proof {
                        let wi = size.width as int;
                        let syi = sy as int;
                        let sxi = sx as int;
                        if 0 <= sxi && sxi < wi {
                            lemma_row_major(wi, sxi, syi);
                        }
                        assert forall|i: int|
                            0 <= i < len && i / wi == syi && rect.x <= i % wi < rect.x + x
                                + 1 implies buffer[i] == solid_rect_pixel(
                            old(buffer)@,
                            rect,
                            size,
                            color,
                            i,
                        ) by {
                            vstd::arithmetic::div_mod::lemma_fundamental_div_mod(i, wi);
                            if i % wi == rect.x + x {
                                assert(i == syi * wi + sxi) by (nonlinear_arith)
                                    requires
                                        i == wi * (i / wi) + i % wi,
                                        i / wi == syi,
                                        i % wi == sxi,
                                ;
                            }
                        }
                        assert forall|i: int|
                            0 <= i < len && !(i / wi == syi && rect.x <= i % wi < rect.x + x
                                + 1) implies buffer[i] == solid_rect_pixel_upto(
                            old(buffer)@,
                            rect,
                            size,
                            color,
                            i,
                            y as int,
                        ) by {
                        }
                    }
                    x = x + 1;
                }
            }
            proof {
                assert forall|i: int| 0 <= i < len implies buffer[i] == solid_rect_pixel_upto(
                    old(buffer)@,
                    rect,
                    size,
                    color,
                    i,
                    y as int + 1,
                ) by {
                    let wi = size.width as int;
                    if wi > 0 && rect_covers(rect, size, len as int, i % wi, i / wi) {
                        lemma_row_major(wi, i % wi, i / wi);
                    }
                }
            }
            y = y + 1;
        }
    }

    /// Fills `rect` with `color`, alpha-blending each covered pixel, clipped
    /// to `size` and to the buffer.
    #[verifier::loop_isolation(false)]
    pub(crate) fn fill_rect_blend(
        buffer: &mut Vec<u32>,
        size: Size,
        rect: Rect,
        color: Color,
    )
        requires
            rect.width < 0x8000_0000,
            rect.height < 0x8000_0000,
            size.width < 0x8000_0000,
            size.height < 0x8000_0000,
        ensures
            final(buffer).len() == old(buffer).len(),
            forall|i: int|
                0 <= i < final(buffer).len() ==> final(buffer)[i] == blend_rect_pixel(
                    old(buffer)@,
                    rect,
                    size,
                    color.0,
                    i,
                ),
    {
        if size.width == 0 {
            return ;
        }
        let w = size.width as i64;
        let h = size.height as i64;
        let len = buffer.len();
        let color_u32 = color.as_u32();
        let mut y: u32 = 0;
        while y < rect.height
            invariant
                0 <= y <= rect.height,
                buffer.len() == len,
                forall|i: int|
                    0 <= i < len ==> buffer[i] == blend_rect_pixel_upto(
                        old(buffer)@,
                        rect,
                        size,
                        color.0,
                        i,
                        y as int,
                    ),
            decreases rect.height - y,
        {
            let sy = rect.y as i64 + y as i64;
            if sy >= 0 && sy < h {
                let mut x: u32 = 0;
                while x < rect.width
                    invariant
                        0 <= x <= rect.width,
                        0 <= sy < h,
                        sy == rect.y + y,
                        y < rect.height,
                        buffer.len() == len,
                        forall|i: int|
                            0 <= i < len && !(i / (size.width as int) == sy && rect.x <= i % (
                            size.width as int) < rect.x + x) ==> buffer[i]
                                == blend_rect_pixel_upto(
                                old(buffer)@,
                                rect,
                                size,
                                color.0,
                                i,
                                y as int,
                            ),
                        forall|i: int|
                            0 <= i < len && i / (size.width as int) == sy && rect.x <= i % (
                            size.width as int) < rect.x + x ==> buffer[i] == blend_rect_pixel(
                                old(buffer)@,
                                rect,
                                size,
                                color.0,
                                i,
                            ),
                    decreases rect.width - x,
                {
                    let sx = rect.x as i64 + x as i64;
                    if sx >= 0 && sx < w {
                        proof {
                            lemma_px_bounds(sy as int, sx as int, w as int);
                            lemma_row_major(w as int, sx as int, sy as int);
                        }
                        let idx = sy * w + sx;
                        if (idx as u64) < (len as u64) {
                            let iu = idx as usize;
                            let prev = buffer[iu];
                            buffer.set(iu, Self::blend(prev, color_u32));
                        }
                    }
                    proof {
                        let wi = size.width as int;
                        let syi = sy as int;
                        let sxi = sx as int;
                        if 0 <= sxi && sxi < wi {
                            lemma_row_major(wi, sxi, syi);
                        }
                        assert forall|i: int|
                            0 <= i < len && i / wi == syi && rect.x <= i % wi < rect.x + x
                                + 1 implies buffer[i] == blend_rect_pixel(
                            old(buffer)@,
                            rect,
                            size,
                            color.0,
                            i,
                        ) by {
                            vstd::arithmetic::div_mod::lemma_fundamental_div_mod(i, wi);
                            if i % wi == rect.x + x {
                                assert(i == syi * wi + sxi) by (nonlinear_arith)
                                    requires
                                        i == wi * (i / wi) + i % wi,
                                        i / wi == syi,
                                        i % wi == sxi,
                                ;
                            }
                        }
                        assert forall|i: int|
                            0 <= i < len && !(i / wi == syi && rect.x <= i % wi < rect.x + x
                                + 1) implies buffer[i] == blend_rect_pixel_upto(
                            old(buffer)@,
                            rect,
                            size,
                            color.0,
                            i,
                            y as int,
                        ) by {
                        }
                    }
                    x = x + 1;
                }
            }
            proof {
                assert forall|i: int| 0 <= i < len implies buffer[i] == blend_rect_pixel_upto(
                    old(buffer)@,
                    rect,
                    size,
                    color.0,
                    i,
                    y as int + 1,
                ) by {
                    let wi = size.width as int;
                    if wi > 0 && rect_covers(rect, size, len as int, i % wi, i / wi) {
                        lemma_row_major(wi, i % wi, i / wi);
                    }
                }
            }
            y = y + 1;
        }
    }
}

} // verus!
