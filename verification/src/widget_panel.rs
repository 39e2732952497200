//! The widget panel: a slide-in surface that, for now, shows a placeholder
//! "no widgets yet" glyph and message.

use vstd::prelude::*;

use crate::colors;
use crate::geometry::{rect_contains, Rect, Size};
use crate::glass::{draw_rect_spec, in_column_band, panel_style_spec, px_rect, solid_rect_layer, GlassRenderer, GlassStyle};
use crate::metrics;
use crate::panel::{advance_progress, panel_on_screen, slide_pos, slide_y, step_progress, PANEL_SPEED_FAST};

verus! {

/// The widget panel.
#[derive(Debug)]
pub struct WidgetPanel {
    /// Resting position and size.
    pub bounds: Rect,
    /// Visibility target set by user action.
    pub visible: bool,
    /// Animation progress, `0` (hidden) to `100` (fully shown).
    pub progress: u32,
    /// Screen height; the off-screen anchor of the slide animation.
    pub screen_height: u32,
}

impl WidgetPanel {
    /// Structural invariant: the bounds keep their configured size, sit in
    /// sane coordinate range, and the progress stays on its scale.
    pub open spec fn inv(self) -> bool {
        &&& self.progress <= 100
        &&& self.bounds.width == metrics::WIDGET_PANEL_WIDTH
        &&& self.bounds.height == metrics::WIDGET_PANEL_HEIGHT
        &&& -0x1000 <= self.bounds.x <= 0x7FFF_0000
        &&& -0x1000 <= self.bounds.y <= 0x7FFF_0000
        &&& self.screen_height < 0x8000_0000
    }

    /// A hidden panel anchored above the taskbar at the left screen edge.
    pub fn new(_screen_width: u32, screen_height: u32) -> (p: WidgetPanel)
        requires
            _screen_width <= 0x7FFF_0000,
            screen_height <= 0x7FFF_0000,
        ensures
            p.inv(),
            p.bounds.x == metrics::TASKBAR_MARGIN,
            p.bounds.y == screen_height - metrics::TASKBAR_HEIGHT - metrics::TASKBAR_MARGIN
                - metrics::WIDGET_PANEL_HEIGHT - 8,
            p.bounds.width == metrics::WIDGET_PANEL_WIDTH,
            p.bounds.height == metrics::WIDGET_PANEL_HEIGHT,
            !p.visible,
            p.progress == 0,
            p.screen_height == screen_height,
    {
        let taskbar_y = screen_height as i32 - metrics::TASKBAR_HEIGHT as i32
            - metrics::TASKBAR_MARGIN as i32;
        WidgetPanel {
            bounds: Rect {
                x: metrics::TASKBAR_MARGIN as i32,
                y: taskbar_y - metrics::WIDGET_PANEL_HEIGHT as i32 - 8,
                width: metrics::WIDGET_PANEL_WIDTH,
                height: metrics::WIDGET_PANEL_HEIGHT,
            },
            visible: false,
            progress: 0,
            screen_height,
        }
    }

    /// Whether the panel should be rendered and hit-tested: its target is
    /// open, or some slide animation remains.
    pub fn is_visible(&self) -> (r: bool)
        ensures
            r == panel_on_screen(self.visible, self.progress as int),
    {
        self.visible || self.progress > 0
    }

    /// Sets the visibility target; the animation catches up per frame.
    pub fn set_visible(&mut self, visible: bool)
        ensures
            *final(self) == (WidgetPanel { visible, ..*old(self) }),
    {
        self.visible = visible;
    }

    /// Flips the panel between on-screen and off-screen.
    pub fn toggle(&mut self)
        ensures
            *final(self) == (WidgetPanel {
                visible: !panel_on_screen(old(self).visible, old(self).progress as int),
                ..*old(self)
            }),
    {
        let v = self.is_visible();
        self.set_visible(!v);
    }

    /// The panel's resting bounds.
    pub fn bounds(&self) -> (r: Rect)
        ensures
            r == self.bounds,
    {
        self.bounds
    }

    /// Consumes a click if the panel is open and the point is inside it.
    pub fn handle_click(&mut self, x: i32, y: i32) -> (consumed: bool)
        ensures
            *final(self) == *old(self),
            consumed == (old(self).visible && rect_contains(
                old(self).bounds,
                x as int,
                y as int,
            )),
    {
        if !self.visible {
            return false;
        }
        self.bounds.contains_point(crate::geometry::Point { x, y })
    }

    /// Advances the slide animation one frame toward the visibility
    /// target. Returns whether the panel was still animating.
    pub fn update_animation(&mut self) -> (animating: bool)
        requires
            old(self).inv(),
        ensures
            final(self).inv(),
            final(self).progress == step_progress(
                old(self).progress as int,
                old(self).visible,
                PANEL_SPEED_FAST as int,
            ),
            final(self).visible == old(self).visible,
            final(self).bounds == old(self).bounds,
            final(self).screen_height == old(self).screen_height,
            animating == (old(self).progress != (if old(self).visible {
                100u32
            } else {
                0u32
            })),
    {
        let (p, animating) = advance_progress(self.progress, self.visible, PANEL_SPEED_FAST);
        self.progress = p;
        animating
    }

    /// The panel's on-screen rectangle at the current animation progress:
    /// its resting bounds, slid vertically from the screen-bottom anchor.
    pub open spec fn animated_bounds(self) -> Rect {
        Rect {
            x: self.bounds.x,
            y: slide_pos(
                self.bounds.y as int,
                self.screen_height as int,
                self.progress as int,
            ) as i32,
            width: self.bounds.width,
            height: self.bounds.height,
        }
    }

    /// The whole buffer after drawing the placeholder message: the glyph's
    /// four squares, then the two text lines.
    pub open spec fn empty_message_spec(self, pre: Seq<u32>, size: Size) -> Seq<u32> {
        let cx = self.bounds.x + self.bounds.width as int / 2;
        let cy = self.bounds.y + self.bounds.height as int / 2;
        let ix = cx - 24;
        let iy = cy - 40;
        let s1 = solid_rect_layer(pre, size, px_rect(ix, iy, 20, 20), colors::ICON_DISABLED);
        let s2 = solid_rect_layer(s1, size, px_rect(ix + 28, iy, 20, 20), colors::ICON_DISABLED);
        let s3 = solid_rect_layer(s2, size, px_rect(ix, iy + 28, 20, 20), colors::ICON_DISABLED);
        let s4 = solid_rect_layer(
            s3,
            size,
            px_rect(ix + 28, iy + 28, 20, 20),
            colors::ICON_DISABLED,
        );
        let s5 = solid_rect_layer(
            s4,
            size,
            px_rect(cx - 80, cy + 30, 160, 2),
            colors::TEXT_SECONDARY,
        );
        solid_rect_layer(s5, size, px_rect(cx - 60, cy + 40, 120, 2), colors::TEXT_SECONDARY)
    }

    /// The whole buffer after drawing the panel: untouched when the panel
    /// is off-screen; otherwise the glass surface at the animated
    /// rectangle, with the placeholder message on top once the slide is
    /// past its halfway point.
    pub open spec fn draw_spec(self, pre: Seq<u32>, size: Size) -> Seq<u32> {
        if !panel_on_screen(self.visible, self.progress as int) {
            pre
        } else {
            let glass = draw_rect_spec(pre, size, self.animated_bounds(), panel_style_spec());
            if self.progress > 50 {
                self.empty_message_spec(glass, size)
            } else {
                glass
            }
        }
    }

    /// Draws the panel: the glass surface at its animated position, and the
    /// placeholder message once the slide is mostly done. Touches only the
    /// panel's own column band, and nothing when the panel is off-screen.
    pub fn draw(&self, buffer: &mut Vec<u32>, buffer_size: Size)
        requires
            self.inv(),
            buffer_size.width < 0x8000_0000,
            buffer_size.height < 0x8000_0000,
        ensures
            final(buffer)@ == self.draw_spec(old(buffer)@, buffer_size),
            final(buffer).len() == old(buffer).len(),
            !panel_on_screen(self.visible, self.progress as int) ==> final(buffer)@ == old(
                buffer,
            )@,
            forall|i: int|
                0 <= i < final(buffer).len() && !(buffer_size.width > 0 && in_column_band(
                    self.bounds,
                    buffer_size,
                    i % (buffer_size.width as int),
                    i / (buffer_size.width as int),
                )) ==> final(buffer)[i] == old(buffer)[i],
    {
        if !self.is_visible() {
            return ;
        }
        let ghost b0 = buffer@;
        let current_y = slide_y(self.bounds.y, self.screen_height as i32, self.progress);
        let animated = Rect {
            x: self.bounds.x,
            y: current_y as i32,
            width: self.bounds.width,
            height: self.bounds.height,
        };
        proof {
            assert(animated == self.animated_bounds());
        }
        let style = GlassStyle::panel();
        GlassRenderer::draw_rect(buffer, buffer_size, animated, &style);
        let ghost b1 = buffer@;
        proof {
            let wi = buffer_size.width as int;
            assert forall|i: int|
                0 <= i < b1.len() && !(wi > 0 && in_column_band(
                    self.bounds,
                    buffer_size,
                    i % wi,
                    i / wi,
                )) implies b1[i] == b0[i] by {}
        }
        if self.progress > 50 {
            self.draw_empty_message(buffer, buffer_size);
        }
    }

    /// Draws the placeholder glyph (four squares) and two message lines at
    /// the panel's center — exactly the layers of
    /// [`Self::empty_message_spec`]. Touches only the panel's column band.
    fn draw_empty_message(&self, buffer: &mut Vec<u32>, buffer_size: Size)
        requires
            self.inv(),
            buffer_size.width < 0x8000_0000,
            buffer_size.height < 0x8000_0000,
        ensures
            final(buffer)@ == self.empty_message_spec(old(buffer)@, buffer_size),
            final(buffer).len() == old(buffer).len(),
            forall|i: int|
                0 <= i < final(buffer).len() && !(buffer_size.width > 0 && in_column_band(
                    self.bounds,
                    buffer_size,
                    i % (buffer_size.width as int),
                    i / (buffer_size.width as int),
                )) ==> final(buffer)[i] == old(buffer)[i],
    {
        let len = buffer.len();
        let cx = self.bounds.x as i64 + (self.bounds.width as i64) / 2;
        let cy = self.bounds.y as i64 + (self.bounds.height as i64) / 2;
        let ix = cx - 24;
        let iy = cy - 40;
        let icon_color = colors::ICON_DISABLED;
        let text_color = colors::TEXT_SECONDARY;

        let ghost b0 = buffer@;
        GlassRenderer::fill_rect_solid(
            buffer,
            buffer_size,
            Rect { x: ix as i32, y: iy as i32, width: 20, height: 20 },
            icon_color,
        );
        let ghost g1 = buffer@;
        GlassRenderer::fill_rect_solid(
            buffer,
            buffer_size,
            Rect { x: (ix + 28) as i32, y: iy as i32, width: 20, height: 20 },
            icon_color,
        );
        let ghost g2 = buffer@;
        GlassRenderer::fill_rect_solid(
            buffer,
            buffer_size,
            Rect { x: ix as i32, y: (iy + 28) as i32, width: 20, height: 20 },
            icon_color,
        );
        let ghost g3 = buffer@;
        GlassRenderer::fill_rect_solid(
            buffer,
            buffer_size,
            Rect { x: (ix + 28) as i32, y: (iy + 28) as i32, width: 20, height: 20 },
            icon_color,
        );
        let ghost g4 = buffer@;
        GlassRenderer::fill_rect_solid(
            buffer,
            buffer_size,
            Rect { x: (cx - 80) as i32, y: (cy + 30) as i32, width: 160, height: 2 },
            text_color,
        );
        let ghost g5 = buffer@;
        GlassRenderer::fill_rect_solid(
            buffer,
            buffer_size,
            Rect { x: (cx - 60) as i32, y: (cy + 40) as i32, width: 120, height: 2 },
            text_color,
        );
        proof {
            let cxi = self.bounds.x + self.bounds.width as int / 2;
            let cyi = self.bounds.y + self.bounds.height as int / 2;
            let ixi = cxi - 24;
            let iyi = cyi - 40;
            assert(g1 =~= solid_rect_layer(b0, buffer_size, px_rect(ixi, iyi, 20, 20), icon_color));
            assert(g2 =~= solid_rect_layer(
                g1,
                buffer_size,
                px_rect(ixi + 28, iyi, 20, 20),
                icon_color,
            ));
            assert(g3 =~= solid_rect_layer(
                g2,
                buffer_size,
                px_rect(ixi, iyi + 28, 20, 20),
                icon_color,
            ));
            assert(g4 =~= solid_rect_layer(
                g3,
                buffer_size,
                px_rect(ixi + 28, iyi + 28, 20, 20),
                icon_color,
            ));
            assert(g5 =~= solid_rect_layer(
                g4,
                buffer_size,
                px_rect(cxi - 80, cyi + 30, 160, 2),
                text_color,
            ));
            assert(buffer@ =~= solid_rect_layer(
                g5,
                buffer_size,
                px_rect(cxi - 60, cyi + 40, 120, 2),
                text_color,
            ));
            assert(buffer@ == self.empty_message_spec(b0, buffer_size));
            let wi = buffer_size.width as int;
            assert forall|i: int|
                0 <= i < len && !(wi > 0 && in_column_band(
                    self.bounds,
                    buffer_size,
                    i % wi,
                    i / wi,
                )) implies buffer[i] == b0[i] by {
                assert(g1[i] == b0[i]);
                assert(g2[i] == g1[i]);
                assert(g3[i] == g2[i]);
                assert(g4[i] == g3[i]);
                assert(g5[i] == g4[i]);
                assert(buffer@[i] == g5[i]);
            }
        }
    }
}

impl crate::panel::Panel for WidgetPanel {
    open spec fn wf(&self) -> bool {
        self.inv()
    }

    open spec fn target_visible(&self) -> bool {
        self.visible
    }

    open spec fn anim_progress(&self) -> int {
        self.progress as int
    }

    open spec fn anim_speed(&self) -> int {
        PANEL_SPEED_FAST as int
    }

    fn is_visible(&self) -> bool {
        WidgetPanel::is_visible(self)
    }

    fn set_visible(&mut self, visible: bool) {
        WidgetPanel::set_visible(self, visible);
    }

    fn bounds(&self) -> Rect {
        WidgetPanel::bounds(self)
    }

    fn handle_click(&mut self, x: i32, y: i32) -> bool {
        WidgetPanel::handle_click(self, x, y)
    }

    fn update_animation(&mut self) -> bool {
        WidgetPanel::update_animation(self)
    }

    fn draw(&self, buffer: &mut Vec<u32>, buffer_size: Size) {
        WidgetPanel::draw(self, buffer, buffer_size);
    }
}

} // verus!
