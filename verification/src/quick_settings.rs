//! The quick-settings panel: a slide-in grid of toggle tiles.

use vstd::prelude::*;

use crate::colors;
use crate::geometry::{rect_contains, Rect, Size};
use crate::glass::{draw_rect_spec, in_column_band, panel_style_spec, px_rect, solid_rect_layer, GlassRenderer, GlassStyle};
use crate::metrics;
use crate::panel::{advance_progress, panel_on_screen, slide_pos, slide_y, step_progress, PANEL_SPEED_FAST};

verus! {

/// One quick-setting toggle.
#[derive(Clone, Copy, Debug, PartialEq, Eq, Structural)]
pub enum QuickSettingType {
    Wifi,
    Bluetooth,
    Volume,
    Brightness,
    DoNotDisturb,
    AirplaneMode,
}

/// A toggle tile and its current state.
#[derive(Clone, Copy, Debug, PartialEq, Eq, Structural)]
pub struct QuickSettingItem {
    /// Which setting the tile controls.
    pub item_type: QuickSettingType,
    /// Whether the setting is switched on.
    pub active: bool,
}


/// The bars (center offsets and sizes) that make up each setting glyph.
pub open spec fn icon_bars(t: QuickSettingType) -> Seq<(i32, i32, u32, u32)> {
    match t {
        QuickSettingType::Wifi => seq![(-12i32, -8i32, 24u32, 2u32), (-8i32, -2i32, 16u32, 2u32), (-4i32, 4i32, 8u32, 2u32), (-1i32, 8i32, 2u32, 4u32)],
        QuickSettingType::Bluetooth => seq![
            (-2i32, -10i32, 4u32, 20u32),
            (2i32, -8i32, 4u32, 2u32),
            (2i32, -2i32, 4u32, 2u32),
            (2i32, 4i32, 4u32, 2u32),
        ],
        QuickSettingType::Volume => seq![
            (-8i32, -4i32, 6u32, 8u32),
            (-2i32, -8i32, 4u32, 16u32),
            (4i32, -6i32, 2u32, 12u32),
            (8i32, -8i32, 2u32, 16u32),
        ],
        QuickSettingType::Brightness => seq![
            (-4i32, -4i32, 8u32, 8u32),
            (-1i32, -10i32, 2u32, 4u32),
            (-1i32, 6i32, 2u32, 4u32),
            (-10i32, -1i32, 4u32, 2u32),
            (6i32, -1i32, 4u32, 2u32),
        ],
        QuickSettingType::DoNotDisturb => seq![(-8i32, -1i32, 16u32, 2u32)],
        QuickSettingType::AirplaneMode => seq![(-1i32, -10i32, 2u32, 20u32), (-10i32, -2i32, 20u32, 4u32), (-4i32, 6i32, 8u32, 3u32)],
    }
}

/// The buffer after filling each remaining bar, offset from `(cx, cy)`,
/// with `c`, in order.
pub open spec fn icon_layers_from(
    pre: Seq<u32>,
    size: Size,
    cx: int,
    cy: int,
    bars: Seq<(i32, i32, u32, u32)>,
    c: u32,
) -> Seq<u32>
    decreases bars.len(),
{
    if bars.len() == 0 {
        pre
    } else {
        icon_layers_from(
            solid_rect_layer(
                pre,
                size,
                px_rect(cx + bars[0].0, cy + bars[0].1, bars[0].2, bars[0].3),
                c,
            ),
            size,
            cx,
            cy,
            bars.drop_first(),
            c,
        )
    }
}

/// The buffer after drawing one setting glyph centered at `(cx, cy)`.
pub open spec fn icon_spec(pre: Seq<u32>, size: Size, cx: int, cy: int, t: QuickSettingType, c: u32) -> Seq<u32> {
    icon_layers_from(pre, size, cx, cy, icon_bars(t), c)
}

/// The quick-settings panel.
#[derive(Debug)]
pub struct QuickSettingsPanel {
    /// Resting position and size.
    pub bounds: Rect,
    /// Visibility target set by user action.
    pub visible: bool,
    /// Animation progress, `0` (hidden) to `100` (fully shown).
    pub progress: u32,
    /// Screen height; the off-screen anchor of the slide animation.
    pub screen_height: u32,
    /// The six toggle tiles.
    pub items: [QuickSettingItem; 6],
}

impl QuickSettingsPanel {
    /// Structural invariant: the bounds keep their configured size, sit in
    /// sane coordinate range, and the progress stays on its scale.
    pub open spec fn inv(self) -> bool {
        &&& self.progress <= 100
        &&& self.bounds.width == metrics::QUICK_SETTINGS_WIDTH
        &&& self.bounds.height == metrics::QUICK_SETTINGS_HEIGHT
        &&& -0x1000 <= self.bounds.x <= 0x7FFF_0000
        &&& -0x1000 <= self.bounds.y <= 0x7FFF_0000
        &&& self.screen_height < 0x8000_0000
    }

    /// A hidden panel anchored above the taskbar at the right screen edge.
    pub fn new(screen_width: u32, screen_height: u32) -> (p: QuickSettingsPanel)
        requires
            screen_width <= 0x7FFF_0000,
            screen_height <= 0x7FFF_0000,
        ensures
            p.inv(),
            p.bounds.x == screen_width - metrics::QUICK_SETTINGS_WIDTH - metrics::TASKBAR_MARGIN,
            p.bounds.y == screen_height - metrics::TASKBAR_HEIGHT - metrics::TASKBAR_MARGIN
                - metrics::QUICK_SETTINGS_HEIGHT - 8,
            p.bounds.width == metrics::QUICK_SETTINGS_WIDTH,
            p.bounds.height == metrics::QUICK_SETTINGS_HEIGHT,
            !p.visible,
            p.progress == 0,
            p.screen_height == screen_height,
            p.items@ == seq![
                QuickSettingItem { item_type: QuickSettingType::Wifi, active: true },
                QuickSettingItem { item_type: QuickSettingType::Bluetooth, active: false },
                QuickSettingItem { item_type: QuickSettingType::Volume, active: true },
                QuickSettingItem { item_type: QuickSettingType::Brightness, active: true },
                QuickSettingItem { item_type: QuickSettingType::DoNotDisturb, active: false },
                QuickSettingItem { item_type: QuickSettingType::AirplaneMode, active: false },
            ],
    {
        let taskbar_y = screen_height as i32 - metrics::TASKBAR_HEIGHT as i32
            - metrics::TASKBAR_MARGIN as i32;
        let p = QuickSettingsPanel {
            bounds: Rect {
                x: screen_width as i32 - metrics::QUICK_SETTINGS_WIDTH as i32
                    - metrics::TASKBAR_MARGIN as i32,
                y: taskbar_y - metrics::QUICK_SETTINGS_HEIGHT as i32 - 8,
                width: metrics::QUICK_SETTINGS_WIDTH,
                height: metrics::QUICK_SETTINGS_HEIGHT,
            },
            visible: false,
            progress: 0,
            screen_height,
            items: [
                QuickSettingItem { item_type: QuickSettingType::Wifi, active: true },
                QuickSettingItem { item_type: QuickSettingType::Bluetooth, active: false },
                QuickSettingItem { item_type: QuickSettingType::Volume, active: true },
                QuickSettingItem { item_type: QuickSettingType::Brightness, active: true },
                QuickSettingItem { item_type: QuickSettingType::DoNotDisturb, active: false },
                QuickSettingItem { item_type: QuickSettingType::AirplaneMode, active: false },
            ],
        };
        proof {
            assert(p.items@ =~= seq![
                QuickSettingItem { item_type: QuickSettingType::Wifi, active: true },
                QuickSettingItem { item_type: QuickSettingType::Bluetooth, active: false },
                QuickSettingItem { item_type: QuickSettingType::Volume, active: true },
                QuickSettingItem { item_type: QuickSettingType::Brightness, active: true },
                QuickSettingItem { item_type: QuickSettingType::DoNotDisturb, active: false },
                QuickSettingItem { item_type: QuickSettingType::AirplaneMode, active: false },
            ]);
        }
        p
    }

    /// Whether the panel should be rendered and hit-tested: its target is
    /// open, or some slide animation remains.
    pub fn is_visible(&self) -> (r: bool)
        ensures
            r == panel_on_screen(self.visible, self.progress as int),
    {
        self.visible || self.progress > 0
    }

    /// Sets the visibility target; the animation catches up per frame.
    pub fn set_visible(&mut self, visible: bool)
        ensures
            *final(self) == (QuickSettingsPanel { visible, ..*old(self) }),
    {
        self.visible = visible;
    }

    /// Flips the panel between on-screen and off-screen.
    pub fn toggle(&mut self)
        ensures
            *final(self) == (QuickSettingsPanel {
                visible: !panel_on_screen(old(self).visible, old(self).progress as int),
                ..*old(self)
            }),
    {
        let v = self.is_visible();
        self.set_visible(!v);
    }

    /// The panel's resting bounds.
    pub fn bounds(&self) -> (r: Rect)
        ensures
            r == self.bounds,
    {
        self.bounds
    }

    /// Consumes a click if the panel is open and the point is inside it.
    pub fn handle_click(&mut self, x: i32, y: i32) -> (consumed: bool)
        ensures
            *final(self) == *old(self),
            consumed == (old(self).visible && rect_contains(
                old(self).bounds,
                x as int,
                y as int,
            )),
    {
        if !self.visible {
            return false;
        }
        self.bounds.contains_point(crate::geometry::Point { x, y })
    }

    /// Advances the slide animation one frame toward the visibility
    /// target. Returns whether the panel was still animating.
    pub fn update_animation(&mut self) -> (animating: bool)
        requires
            old(self).inv(),
        ensures
            final(self).inv(),
            final(self).progress == step_progress(
                old(self).progress as int,
                old(self).visible,
                PANEL_SPEED_FAST as int,
            ),
            final(self).visible == old(self).visible,
            final(self).bounds == old(self).bounds,
            final(self).screen_height == old(self).screen_height,
            final(self).items == old(self).items,
            animating == (old(self).progress != (if old(self).visible {
                100u32
            } else {
                0u32
            })),
    {
        let (p, animating) = advance_progress(self.progress, self.visible, PANEL_SPEED_FAST);
        self.progress = p;
        animating
    }

    /// The buffer after drawing the toggle tiles at indexes `k` and up:
    /// for each, the tile's background square, then its glyph, colored by
    /// the tile's active state.
    pub open spec fn grid_from(self, pre: Seq<u32>, size: Size, k: int) -> Seq<u32>
        decreases 6 - k,
    {
        if k < 0 || k >= 6 {
            pre
        } else {
            let cell_x = self.bounds.x + metrics::PANEL_PADDING + (k % 3) * 92;
            let cell_y = self.bounds.y + metrics::PANEL_PADDING + (k / 3) * 92;
            let item = self.items@[k];
            let bg = if item.active {
                colors::ACCENT
            } else {
                colors::BG_MEDIUM
            };
            let icon_c = if item.active {
                colors::TEXT_ON_ACCENT
            } else {
                colors::ICON_NORMAL
            };
            let cell = solid_rect_layer(pre, size, px_rect(cell_x, cell_y, 80, 80), bg);
            let icon = icon_spec(cell, size, cell_x + 40, cell_y + 32, item.item_type, icon_c);
            self.grid_from(icon, size, k + 1)
        }
    }

    /// The panel's on-screen rectangle at the current animation progress:
    /// its resting bounds, slid vertically from the screen-bottom anchor.
    pub open spec fn animated_bounds(self) -> Rect {
        Rect {
            x: self.bounds.x,
            y: slide_pos(
                self.bounds.y as int,
                self.screen_height as int,
                self.progress as int,
            ) as i32,
            width: self.bounds.width,
            height: self.bounds.height,
        }
    }

    /// The whole buffer after drawing the panel: untouched when the panel
    /// is off-screen; otherwise the glass surface at the animated
    /// rectangle, with the settings grid on top once the slide is past
    /// its halfway point.
    pub open spec fn draw_spec(self, pre: Seq<u32>, size: Size) -> Seq<u32> {
        if !panel_on_screen(self.visible, self.progress as int) {
            pre
        } else {
            let glass = draw_rect_spec(pre, size, self.animated_bounds(), panel_style_spec());
            if self.progress > 50 {
                self.grid_from(glass, size, 0)
            } else {
                glass
            }
        }
    }

    /// Draws the panel: the glass surface at its animated position, and the
    /// settings grid once the slide is mostly done. Touches only the
    /// panel's own column band, and nothing when the panel is off-screen.
    pub fn draw(&self, buffer: &mut Vec<u32>, buffer_size: Size)
        requires
            self.inv(),
            buffer_size.width < 0x8000_0000,
            buffer_size.height < 0x8000_0000,
        ensures
            final(buffer)@ == self.draw_spec(old(buffer)@, buffer_size),
            final(buffer).len() == old(buffer).len(),
            !panel_on_screen(self.visible, self.progress as int) ==> final(buffer)@ == old(
                buffer,
            )@,
            forall|i: int|
                0 <= i < final(buffer).len() && !(buffer_size.width > 0 && in_column_band(
                    self.bounds,
                    buffer_size,
                    i % (buffer_size.width as int),
                    i / (buffer_size.width as int),
                )) ==> final(buffer)[i] == old(buffer)[i],
    {
        if !self.is_visible() {
            return ;
        }
        let ghost b0 = buffer@;
        let current_y = slide_y(self.bounds.y, self.screen_height as i32, self.progress);
        let animated = Rect {
            x: self.bounds.x,
            y: current_y as i32,
            width: self.bounds.width,
            height: self.bounds.height,
        };
        proof {
            assert(animated == self.animated_bounds());
        }
        let style = GlassStyle::panel();
        GlassRenderer::draw_rect(buffer, buffer_size, animated, &style);
        let ghost b1 = buffer@;
        proof {
            let wi = buffer_size.width as int;
            assert forall|i: int|
                0 <= i < b1.len() && !(wi > 0 && in_column_band(
                    self.bounds,
                    buffer_size,
                    i % wi,
                    i / wi,
                )) implies b1[i] == b0[i] by {}
        }
        if self.progress > 50 {
            self.draw_settings_grid(buffer, buffer_size);
        }
    }

    /// Draws the three-by-two grid of toggle tiles. Touches only the
    /// panel's column band.
    #[verifier::loop_isolation(false)]
    fn draw_settings_grid(&self, buffer: &mut Vec<u32>, buffer_size: Size)
        requires
            self.inv(),
            buffer_size.width < 0x8000_0000,
            buffer_size.height < 0x8000_0000,
        ensures
            final(buffer)@ == self.grid_from(old(buffer)@, buffer_size, 0),
            final(buffer).len() == old(buffer).len(),
            forall|i: int|
                0 <= i < final(buffer).len() && !(buffer_size.width > 0 && in_column_band(
                    self.bounds,
                    buffer_size,
                    i % (buffer_size.width as int),
                    i / (buffer_size.width as int),
                )) ==> final(buffer)[i] == old(buffer)[i],
    {
        let ghost b0 = buffer@;
        let len = buffer.len();
        let mut k: usize = 0;
        while k < 6
            invariant
                k <= 6,
                buffer.len() == len,
                b0.len() == len,
                self.grid_from(b0, buffer_size, 0) == self.grid_from(buffer@, buffer_size, k as int),
                forall|i: int|
                    0 <= i < len && !(buffer_size.width > 0 && in_column_band(
                        self.bounds,
                        buffer_size,
                        i % (buffer_size.width as int),
                        i / (buffer_size.width as int),
                    )) ==> buffer[i] == b0[i],
            decreases 6 - k,
        {
            let ghost pre_iter = buffer@;
            let col = (k % 3) as i64;
            let row = (k / 3) as i64;
            let cell_x = self.bounds.x as i64 + metrics::PANEL_PADDING as i64 + col * 92;
            let cell_y = self.bounds.y as i64 + metrics::PANEL_PADDING as i64 + row * 92;
            let item = self.items[k];
            let bg_color = if item.active {
                colors::ACCENT
            } else {
                colors::BG_MEDIUM
            };
            let ghost bk = buffer@;
            GlassRenderer::fill_rect_solid(
                buffer,
                buffer_size,
                Rect { x: cell_x as i32, y: cell_y as i32, width: 80, height: 80 },
                bg_color,
            );
            proof {
                assert(buffer@ =~= solid_rect_layer(
                    pre_iter,
                    buffer_size,
                    px_rect(cell_x as int, cell_y as int, 80, 80),
                    bg_color,
                ));
                let wi = buffer_size.width as int;
                assert forall|i: int|
                    0 <= i < len && !(wi > 0 && in_column_band(
                        self.bounds,
                        buffer_size,
                        i % wi,
                        i / wi,
                    )) implies buffer[i] == bk[i] by {}
            }
            let icon_color = if item.active {
                colors::TEXT_ON_ACCENT
            } else {
                colors::ICON_NORMAL
            };
            Self::draw_setting_icon(
                buffer,
                buffer_size,
                (cell_x + 40) as i32,
                (cell_y + 40 - 8) as i32,
                item.item_type,
                icon_color,
            );
            proof {
                assert(self.grid_from(pre_iter, buffer_size, k as int) == self.grid_from(
                    buffer@,
                    buffer_size,
                    k as int + 1,
                ));
            }
            k = k + 1;
        }
    }

    /// Draws one setting glyph centered at `(cx, cy)` out of small solid
    /// bars. Touches only columns within 12 pixels of the center.
    #[verifier::loop_isolation(false)]
    fn draw_setting_icon(
        buffer: &mut Vec<u32>,
        buffer_size: Size,
        cx: i32,
        cy: i32,
        item_type: QuickSettingType,
        color: u32,
    )
        requires
            -0x7FFF_8000 <= cx <= 0x7FFF_8000,
            -0x7FFF_8000 <= cy <= 0x7FFF_8000,
            buffer_size.width < 0x8000_0000,
            buffer_size.height < 0x8000_0000,
        ensures
            final(buffer)@ == icon_spec(
                old(buffer)@,
                buffer_size,
                cx as int,
                cy as int,
                item_type,
                color,
            ),
            final(buffer).len() == old(buffer).len(),
            forall|i: int|
                0 <= i < final(buffer).len() && !(buffer_size.width > 0 && cx - 12 <= i % (
                buffer_size.width as int) < cx + 12 && crate::glass::px_in_clip(
                    buffer_size,
                    i % (buffer_size.width as int),
                    i / (buffer_size.width as int),
                )) ==> final(buffer)[i] == old(buffer)[i],
    {
        let mut bars: Vec<(i32, i32, u32, u32)> = Vec::new();
        match item_type {
            QuickSettingType::Wifi => {
                bars.push((-12, -8, 24, 2));
                bars.push((-8, -2, 16, 2));
                bars.push((-4, 4, 8, 2));
                bars.push((-1, 8, 2, 4));
            },
            QuickSettingType::Bluetooth => {
                bars.push((-2, -10, 4, 20));
                bars.push((2, -8, 4, 2));
                bars.push((2, -2, 4, 2));
                bars.push((2, 4, 4, 2));
            },
            QuickSettingType::Volume => {
                bars.push((-8, -4, 6, 8));
                bars.push((-2, -8, 4, 16));
                bars.push((4, -6, 2, 12));
                bars.push((8, -8, 2, 16));
            },
            QuickSettingType::Brightness => {
                bars.push((-4, -4, 8, 8));
                bars.push((-1, -10, 2, 4));
                bars.push((-1, 6, 2, 4));
                bars.push((-10, -1, 4, 2));
                bars.push((6, -1, 4, 2));
            },
            QuickSettingType::DoNotDisturb => {
                bars.push((-8, -1, 16, 2));
            },
            QuickSettingType::AirplaneMode => {
                bars.push((-1, -10, 2, 20));
                bars.push((-10, -2, 20, 4));
                bars.push((-4, 6, 8, 3));
            },
        }
        proof {
            assert(bars@ =~= icon_bars(item_type));
            assert(bars@.skip(0) =~= bars@);
        }
        let ghost b0 = buffer@;
        let len = buffer.len();
        let mut k: usize = 0;
        while k < bars.len()
            invariant
                k <= bars.len(),
                buffer.len() == len,
                b0.len() == len,
                -0x7FFF_8000 <= cx <= 0x7FFF_8000,
                -0x7FFF_8000 <= cy <= 0x7FFF_8000,
                bars@ == icon_bars(item_type),
                icon_layers_from(b0, buffer_size, cx as int, cy as int, bars@, color)
                    == icon_layers_from(
                    buffer@,
                    buffer_size,
                    cx as int,
                    cy as int,
                    bars@.skip(k as int),
                    color,
                ),
                forall|j: int|
                    0 <= j < bars.len() ==> -12 <= #[trigger] bars[j].0 && bars[j].0 + bars[j].2
                        <= 12 && -12 <= bars[j].1 && bars[j].3 <= 24,
                forall|i: int|
                    0 <= i < len && !(buffer_size.width > 0 && cx - 12 <= i % (
                    buffer_size.width as int) < cx + 12 && crate::glass::px_in_clip(
                        buffer_size,
                        i % (buffer_size.width as int),
                        i / (buffer_size.width as int),
                    )) ==> buffer[i] == b0[i],
            decreases bars.len() - k,
        {
            let (dx, dy, w, h) = bars[k];
            let ghost bk = buffer@;
            GlassRenderer::fill_rect_solid(
                buffer,
                buffer_size,
                Rect { x: cx + dx, y: cy + dy, width: w, height: h },
                color,
            );
            proof {
                let rem = bars@.skip(k as int);
                assert(rem[0] == bars@[k as int]);
                assert(rem.drop_first() =~= bars@.skip(k as int + 1));
                assert(buffer@ =~= solid_rect_layer(
                    bk,
                    buffer_size,
                    px_rect(cx + bars@[k as int].0, cy + bars@[k as int].1, w, h),
                    color,
                ));
                assert(icon_layers_from(bk, buffer_size, cx as int, cy as int, rem, color)
                    == icon_layers_from(
                    buffer@,
                    buffer_size,
                    cx as int,
                    cy as int,
                    bars@.skip(k as int + 1),
                    color,
                ));
                let wi = buffer_size.width as int;
                assert forall|i: int|
                    0 <= i < len && !(wi > 0 && cx - 12 <= i % wi < cx + 12
                        && crate::glass::px_in_clip(buffer_size, i % wi, i / wi)) implies buffer[i]
                    == bk[i] by {}
            }
            k = k + 1;
        }
        proof {
            assert(bars@.skip(bars@.len() as int) =~= Seq::<(i32, i32, u32, u32)>::empty());
        }
    }
}


impl crate::panel::Panel for QuickSettingsPanel {
    open spec fn wf(&self) -> bool {
        self.inv()
    }

    open spec fn target_visible(&self) -> bool {
        self.visible
    }

    open spec fn anim_progress(&self) -> int {
        self.progress as int
    }

    open spec fn anim_speed(&self) -> int {
        PANEL_SPEED_FAST as int
    }

    fn is_visible(&self) -> bool {
        QuickSettingsPanel::is_visible(self)
    }

    fn set_visible(&mut self, visible: bool) {
        QuickSettingsPanel::set_visible(self, visible);
    }

    fn bounds(&self) -> Rect {
        QuickSettingsPanel::bounds(self)
    }

    fn handle_click(&mut self, x: i32, y: i32) -> bool {
        QuickSettingsPanel::handle_click(self, x, y)
    }

    fn update_animation(&mut self) -> bool {
        QuickSettingsPanel::update_animation(self)
    }

    fn draw(&self, buffer: &mut Vec<u32>, buffer_size: Size) {
        QuickSettingsPanel::draw(self, buffer, buffer_size);
    }
}

} // verus!
