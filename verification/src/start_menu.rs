//! The launcher (start-menu) panel: a slide-in list of applications; a
//! click on a row records a launch action that the orchestrator retrieves
//! once.

use vstd::prelude::*;

use crate::apps::AppInfo;
use crate::colors;
use crate::geometry::{rect_contains, Rect, Size};
use crate::glass::{draw_rect_spec, in_column_band, panel_style_spec, px_rect, solid_rect_layer, GlassRenderer, GlassStyle};
use crate::metrics;
use crate::panel::{advance_progress, panel_on_screen, slide_pos, slide_y, step_progress, PANEL_SPEED_SLOW};

verus! {

/// What a click on the launcher decided.
#[derive(Debug, Clone)]
pub enum StartMenuAction {
    /// Nothing to do.
    NoAction,
    /// Launch the application at this executable path.
    LaunchApp(String),
}

/// The launcher panel.
#[derive(Debug)]
pub struct StartMenuPanel {
    /// Resting position and size.
    pub bounds: Rect,
    /// Visibility target set by user action.
    pub visible: bool,
    /// Animation progress, `0` (hidden) to `100` (fully shown).
    pub progress: u32,
    /// Screen height; the off-screen anchor of the slide animation.
    pub screen_height: u32,
    /// The launchable applications, in display order.
    pub apps: Vec<AppInfo>,
    /// Row currently hovered, if any.
    pub hover_index: Option<usize>,
    /// The pending action, taken (and cleared) once per click.
    pub last_action: StartMenuAction,
    /// Vertical scroll offset of the list, in pixels.
    pub scroll_offset: i32,
}

/// Top of the application list, relative to the panel's top edge: the
/// padding, the title row, and the separator gap.
pub open spec fn list_top_offset() -> int {
    metrics::PANEL_PADDING + 24 + 12
}

impl StartMenuPanel {
    /// Structural invariant: the bounds keep their configured size, sit in
    /// sane coordinate range, the progress stays on its scale, and the
    /// list is never scrolled above its start.
    pub open spec fn inv(self) -> bool {
        &&& self.progress <= 100
        &&& self.bounds.width == metrics::START_MENU_WIDTH
        &&& self.bounds.height == metrics::START_MENU_HEIGHT
        &&& -0x1000 <= self.bounds.x <= 0x7FFF_0000
        &&& -0x1000 <= self.bounds.y <= 0x7FFF_0000
        &&& self.screen_height < 0x8000_0000
        &&& 0 <= self.scroll_offset
    }

    /// A hidden panel centered above the taskbar.
    pub fn new(screen_width: u32, screen_height: u32) -> (p: StartMenuPanel)
        requires
            screen_width <= 0x7FFF_0000,
            screen_height <= 0x7FFF_0000,
        ensures
            p.inv(),
            screen_width >= metrics::START_MENU_WIDTH ==> p.bounds.x == (screen_width
                - metrics::START_MENU_WIDTH) / 2,
            p.bounds.y == screen_height - metrics::TASKBAR_HEIGHT - metrics::TASKBAR_MARGIN
                - metrics::START_MENU_HEIGHT - 8,
            p.bounds.width == metrics::START_MENU_WIDTH,
            p.bounds.height == metrics::START_MENU_HEIGHT,
            !p.visible,
            p.progress == 0,
            p.screen_height == screen_height,
            p.apps@ == Seq::<AppInfo>::empty(),
            p.hover_index is None,
            p.last_action is NoAction,
            p.scroll_offset == 0,
    {
        let taskbar_y = screen_height as i32 - metrics::TASKBAR_HEIGHT as i32
            - metrics::TASKBAR_MARGIN as i32;
        let x: i32 = if screen_width >= metrics::START_MENU_WIDTH {
            ((screen_width - metrics::START_MENU_WIDTH) / 2) as i32
        } else {
            let d = metrics::START_MENU_WIDTH - screen_width;
            -((d / 2) as i32)
        };
        StartMenuPanel {
            bounds: Rect {
                x,
                y: taskbar_y - metrics::START_MENU_HEIGHT as i32 - 8,
                width: metrics::START_MENU_WIDTH,
                height: metrics::START_MENU_HEIGHT,
            },
            visible: false,
            progress: 0,
            screen_height,
            apps: Vec::new(),
            hover_index: None,
            last_action: StartMenuAction::NoAction,
            scroll_offset: 0,
        }
    }

    /// Replaces the list of launchable applications.
    pub fn set_apps(&mut self, apps: Vec<AppInfo>)
        ensures
            final(self).apps == apps,
            final(self).bounds == old(self).bounds,
            final(self).visible == old(self).visible,
            final(self).progress == old(self).progress,
            final(self).screen_height == old(self).screen_height,
            final(self).hover_index == old(self).hover_index,
            final(self).last_action == old(self).last_action,
            final(self).scroll_offset == old(self).scroll_offset,
    {
        self.apps = apps;
    }

    /// Returns the pending action and clears it, so the same click never
    /// fires twice.
    pub fn take_action(&mut self) -> (r: StartMenuAction)
        ensures
            r == old(self).last_action,
            final(self).last_action is NoAction,
            final(self).bounds == old(self).bounds,
            final(self).visible == old(self).visible,
            final(self).progress == old(self).progress,
            final(self).screen_height == old(self).screen_height,
            final(self).apps == old(self).apps,
            final(self).hover_index == old(self).hover_index,
            final(self).scroll_offset == old(self).scroll_offset,
    {
        let mut r = StartMenuAction::NoAction;
        core::mem::swap(&mut r, &mut self.last_action);
        r
    }

    /// Whether the panel should be rendered and hit-tested: its target is
    /// open, or some slide animation remains.
    pub fn is_visible(&self) -> (r: bool)
        ensures
            r == panel_on_screen(self.visible, self.progress as int),
    {
        self.visible || self.progress > 0
    }

    /// Sets the visibility target; closing also resets the hover state and
    /// the scroll position.
    pub fn set_visible(&mut self, visible: bool)
        ensures
            final(self).visible == visible,
            final(self).hover_index == (if visible {
                old(self).hover_index
            } else {
                Option::<usize>::None
            }),
            final(self).scroll_offset == (if visible {
                old(self).scroll_offset
            } else {
                0
            }),
            final(self).bounds == old(self).bounds,
            final(self).progress == old(self).progress,
            final(self).screen_height == old(self).screen_height,
            final(self).apps == old(self).apps,
            final(self).last_action == old(self).last_action,
    {
        self.visible = visible;
        if !visible {
            self.hover_index = None;
            self.scroll_offset = 0;
        }
    }

    /// Flips the panel between on-screen and off-screen.
    pub fn toggle(&mut self)
        ensures
            final(self).visible == !panel_on_screen(
                old(self).visible,
                old(self).progress as int,
            ),
            final(self).progress == old(self).progress,
            final(self).bounds == old(self).bounds,
            final(self).apps == old(self).apps,
            final(self).last_action == old(self).last_action,
            final(self).screen_height == old(self).screen_height,
            final(self).hover_index == (if final(self).visible {
                old(self).hover_index
            } else {
                Option::<usize>::None
            }),
            final(self).scroll_offset == (if final(self).visible {
                old(self).scroll_offset
            } else {
                0
            }),
    {
        let v = self.is_visible();
        self.set_visible(!v);
    }

    /// The panel's resting bounds.
    pub fn bounds(&self) -> (r: Rect)
        ensures
            r == self.bounds,
    {
        self.bounds
    }

    /// The application row at `(x, y)`, if the point lies in the list area
    /// and a row is there.
    pub open spec fn app_at_point_spec(self, x: int, y: int) -> Option<int> {
        let list_y = self.bounds.y + list_top_offset();
        if x < self.bounds.x + metrics::PANEL_PADDING / 2 || x > self.bounds.x + self.bounds.width
            - metrics::PANEL_PADDING / 2 {
            Option::None
        } else if y < list_y {
            Option::None
        } else {
            let rel = y - list_y + self.scroll_offset;
            let idx = rel / (metrics::APP_ITEM_HEIGHT as int);
            if idx < self.apps.len() {
                Option::Some(idx)
            } else {
                Option::None
            }
        }
    }

    /// Finds the application row under `(x, y)`.
    fn app_at_point(&self, x: i32, y: i32) -> (r: Option<usize>)
        requires
            self.inv(),
        ensures
            match r {
                Option::Some(idx) => self.app_at_point_spec(x as int, y as int) == Option::Some(
                    idx as int,
                ),
                Option::None => self.app_at_point_spec(x as int, y as int) is None,
            },
    {
        let half_pad = (metrics::PANEL_PADDING / 2) as i64;
        let list_y = self.bounds.y as i64 + metrics::PANEL_PADDING as i64 + 24 + 12;
        if (x as i64) < self.bounds.x as i64 + half_pad || (x as i64) > self.bounds.x as i64
            + self.bounds.width as i64 - half_pad {
            return Option::None;
        }
        if (y as i64) < list_y {
            return Option::None;
        }
        let rel = (y as i64) - list_y + self.scroll_offset as i64;
        let idx = rel / (metrics::APP_ITEM_HEIGHT as i64);
        if (idx as u64) < (self.apps.len() as u64) {
            Option::Some(idx as usize)
        } else {
            Option::None
        }
    }

    /// Consumes a click if the panel is open and the point is inside it;
    /// a click on an application row records a launch action for that
    /// row's executable and starts closing the panel.
    pub fn handle_click(&mut self, x: i32, y: i32) -> (consumed: bool)
        requires
            old(self).inv(),
        ensures
            final(self).inv(),
            consumed == (old(self).visible && rect_contains(
                old(self).bounds,
                x as int,
                y as int,
            )),
            final(self).bounds == old(self).bounds,
            final(self).progress == old(self).progress,
            final(self).screen_height == old(self).screen_height,
            final(self).apps == old(self).apps,
            !consumed ==> *final(self) == *old(self),
            ({
                let hit = old(self).app_at_point_spec(x as int, y as int);
                consumed ==> match hit {
                    Option::Some(idx) => final(self).last_action matches StartMenuAction::LaunchApp(p)
                        && p@ == old(self).apps[idx].path@ && !final(self).visible
                        && final(self).hover_index is None && final(self).scroll_offset == 0,
                    Option::None => *final(self) == *old(self),
                }
            }),
    {
        if !self.visible {
            return false;
        }
        if !self.bounds.contains_point(crate::geometry::Point { x, y }) {
            return false;
        }
        let hit = self.app_at_point(x, y);
        match hit {
            Option::Some(idx) => {
                let path = self.apps[idx].path.clone();
                self.last_action = StartMenuAction::LaunchApp(path);
                self.set_visible(false);
            },
            Option::None => {},
        }
        true
    }

    /// Advances the slide animation one frame toward the visibility
    /// target. Returns whether the panel was still animating.
    pub fn update_animation(&mut self) -> (animating: bool)
        requires
            old(self).inv(),
        ensures
            final(self).inv(),
            final(self).progress == step_progress(
                old(self).progress as int,
                old(self).visible,
                PANEL_SPEED_SLOW as int,
            ),
            final(self).visible == old(self).visible,
            final(self).bounds == old(self).bounds,
            final(self).screen_height == old(self).screen_height,
            final(self).apps == old(self).apps,
            final(self).last_action == old(self).last_action,
            final(self).hover_index == old(self).hover_index,
            final(self).scroll_offset == old(self).scroll_offset,
            animating == (old(self).progress != (if old(self).visible {
                100u32
            } else {
                0u32
            })),
    {
        let (p, animating) = advance_progress(self.progress, self.visible, PANEL_SPEED_SLOW);
        self.progress = p;
        animating
    }

    /// How many application rows the list area can show at most.
    pub open spec fn visible_rows(self) -> int {
        let vh = self.bounds.height - list_top_offset() - metrics::PANEL_PADDING;
        let limit = vh / (metrics::APP_ITEM_HEIGHT as int);
        if self.apps.len() < limit {
            self.apps.len() as int
        } else {
            limit
        }
    }

    /// The buffer after drawing the list header: the title placeholder
    /// bar, then the separator line.
    pub open spec fn header_spec(self, pre: Seq<u32>, size: Size) -> Seq<u32> {
        let t = solid_rect_layer(
            pre,
            size,
            px_rect(
                self.bounds.x + metrics::PANEL_PADDING,
                self.bounds.y + metrics::PANEL_PADDING,
                100,
                3,
            ),
            colors::TEXT_PRIMARY,
        );
        solid_rect_layer(
            t,
            size,
            px_rect(
                self.bounds.x + metrics::PANEL_PADDING,
                self.bounds.y + metrics::PANEL_PADDING + 24,
                (metrics::START_MENU_WIDTH - 2 * metrics::PANEL_PADDING) as u32,
                1,
            ),
            colors::MENU_SEPARATOR,
        )
    }

    /// The buffer after drawing row `k` of the application list: nothing
    /// if the row is scrolled out of the panel; otherwise the hover
    /// highlight (for the hovered row), the icon square, the initial
    /// mark, and the name placeholder bar sized by the name length.
    pub open spec fn row_spec(self, pre: Seq<u32>, size: Size, k: int) -> Seq<u32> {
        let bx = self.bounds.x as int;
        let by = self.bounds.y as int;
        let item_y = by + list_top_offset() + k * metrics::APP_ITEM_HEIGHT - self.scroll_offset;
        if item_y + metrics::APP_ITEM_HEIGHT < by || item_y > by + self.bounds.height {
            pre
        } else {
            let hovered = match self.hover_index {
                Option::Some(h) => h == k,
                Option::None => false,
            };
            let h1 = if hovered {
                solid_rect_layer(
                    pre,
                    size,
                    px_rect(
                        bx + 8,
                        item_y,
                        (metrics::START_MENU_WIDTH - metrics::PANEL_PADDING) as u32,
                        metrics::APP_ITEM_HEIGHT,
                    ),
                    colors::MENU_ITEM_HOVER,
                )
            } else {
                pre
            };
            let icon_y = item_y + 8;
            let h2 = solid_rect_layer(
                h1,
                size,
                px_rect(bx + 16, icon_y, metrics::APP_ICON_SIZE, metrics::APP_ICON_SIZE),
                Self::app_color_spec(k),
            );
            let h3 = solid_rect_layer(
                h2,
                size,
                px_rect(bx + 32, icon_y + 16, 8, 8),
                colors::TEXT_ON_ACCENT,
            );
            let name_chars = self.apps@[k].name@.len();
            let name_w: u32 = if name_chars >= 25 {
                200u32
            } else {
                (name_chars * 8) as u32
            };
            solid_rect_layer(
                h3,
                size,
                px_rect(bx + 68, item_y + 26, name_w, 4),
                colors::TEXT_PRIMARY,
            )
        }
    }

    /// The buffer after drawing the rows at indexes `k` and up.
    pub open spec fn rows_from(self, pre: Seq<u32>, size: Size, k: int) -> Seq<u32>
        decreases self.visible_rows() - k,
    {
        if k < 0 || k >= self.visible_rows() {
            pre
        } else {
            self.rows_from(self.row_spec(pre, size, k), size, k + 1)
        }
    }

    /// The buffer after drawing the scrollbar, which appears only when
    /// the list overflows the visible area.
    pub open spec fn scrollbar_spec(self, pre: Seq<u32>, size: Size) -> Seq<u32> {
        let vh = self.bounds.height - list_top_offset() - metrics::PANEL_PADDING;
        let napps: int = if self.apps.len() > 10_000_000 {
            10_000_000
        } else {
            self.apps.len() as int
        };
        let total = napps * metrics::APP_ITEM_HEIGHT;
        if total > vh {
            let sb_h = vh * vh / total;
            let denom = total - vh;
            let num = self.scroll_offset * (vh - sb_h);
            let sb_y = self.bounds.y + list_top_offset() + num / denom;
            if sb_y <= 0x7FFF_FFFF {
                solid_rect_layer(
                    pre,
                    size,
                    px_rect(
                        self.bounds.x + metrics::START_MENU_WIDTH - 6,
                        sb_y,
                        3,
                        sb_h as u32,
                    ),
                    colors::GLASS_BORDER,
                )
            } else {
                pre
            }
        } else {
            pre
        }
    }

    /// The buffer after drawing the whole application list: the header,
    /// the rows, then the scrollbar.
    pub open spec fn app_list_spec(self, pre: Seq<u32>, size: Size) -> Seq<u32> {
        self.scrollbar_spec(self.rows_from(self.header_spec(pre, size), size, 0), size)
    }

    /// The panel's on-screen rectangle at the current animation progress:
    /// its resting bounds, slid vertically from the screen-bottom anchor.
    pub open spec fn animated_bounds(self) -> Rect {
        Rect {
            x: self.bounds.x,
            y: slide_pos(
                self.bounds.y as int,
                self.screen_height as int,
                self.progress as int,
            ) as i32,
            width: self.bounds.width,
            height: self.bounds.height,
        }
    }

    /// The whole buffer after drawing the panel: untouched when the panel
    /// is off-screen; otherwise the glass surface at the animated
    /// rectangle, with the application list on top once the slide is
    /// past its halfway point.
    pub open spec fn draw_spec(self, pre: Seq<u32>, size: Size) -> Seq<u32> {
        if !panel_on_screen(self.visible, self.progress as int) {
            pre
        } else {
            let glass = draw_rect_spec(pre, size, self.animated_bounds(), panel_style_spec());
            if self.progress > 50 {
                self.app_list_spec(glass, size)
            } else {
                glass
            }
        }
    }

    /// Draws the panel: the glass surface at its animated position, and
    /// the application list once the slide is mostly done. Touches only
    /// the panel's own column band, and nothing when the panel is
    /// off-screen.
    pub fn draw(&self, buffer: &mut Vec<u32>, buffer_size: Size)
        requires
            self.inv(),
            buffer_size.width < 0x8000_0000,
            buffer_size.height < 0x8000_0000,
        ensures
            final(buffer)@ == self.draw_spec(old(buffer)@, buffer_size),
            final(buffer).len() == old(buffer).len(),
            !panel_on_screen(self.visible, self.progress as int) ==> final(buffer)@ == old(
                buffer,
            )@,
            forall|i: int|
                0 <= i < final(buffer).len() && !(buffer_size.width > 0 && in_column_band(
                    self.bounds,
                    buffer_size,
                    i % (buffer_size.width as int),
                    i / (buffer_size.width as int),
                )) ==> final(buffer)[i] == old(buffer)[i],
    {
        if !self.is_visible() {
            return ;
        }
        let ghost b0 = buffer@;
        let current_y = slide_y(self.bounds.y, self.screen_height as i32, self.progress);
        let animated = Rect {
            x: self.bounds.x,
            y: current_y as i32,
            width: self.bounds.width,
            height: self.bounds.height,
        };
        proof {
            assert(animated == self.animated_bounds());
        }
        let style = GlassStyle::panel();
        GlassRenderer::draw_rect(buffer, buffer_size, animated, &style);
        let ghost b1 = buffer@;
        proof {
            let wi = buffer_size.width as int;
            assert forall|i: int|
                0 <= i < b1.len() && !(wi > 0 && in_column_band(
                    self.bounds,
                    buffer_size,
                    i % wi,
                    i / wi,
                )) implies b1[i] == b0[i] by {}
        }
        if self.progress > 50 {
            self.draw_app_list(buffer, buffer_size);
        }
    }

    /// The display color of an application icon, cycling through a fixed
    /// six-color palette by row index.
    pub open spec fn app_color_spec(index: int) -> u32 {
        let m = index % 6;
        if m == 0 {
            0xFF4A90D9u32
        } else if m == 1 {
            0xFF3FB950u32
        } else if m == 2 {
            0xFFE53935u32
        } else if m == 3 {
            0xFFF0B429u32
        } else if m == 4 {
            0xFF9C27B0u32
        } else {
            0xFFFF6B35u32
        }
    }

    /// Picks the icon color for the row at `index`.
    fn get_app_color(&self, index: usize) -> (r: u32)
        ensures
            r == Self::app_color_spec(index as int),
    {
        let m = index % 6;
        if m == 0 {
            0xFF4A90D9
        } else if m == 1 {
            0xFF3FB950
        } else if m == 2 {
            0xFFE53935
        } else if m == 3 {
            0xFFF0B429
        } else if m == 4 {
            0xFF9C27B0
        } else {
            0xFFFF6B35
        }
    }

    /// Draws the list header, up to one screenful of application rows, and
    /// a scrollbar when the list overflows — exactly the layers of
    /// [`Self::app_list_spec`]. Touches only the panel's column band.
    #[verifier::loop_isolation(false)]
    fn draw_app_list(&self, buffer: &mut Vec<u32>, buffer_size: Size)
        requires
            self.inv(),
            buffer_size.width < 0x8000_0000,
            buffer_size.height < 0x8000_0000,
        ensures
            final(buffer)@ == self.app_list_spec(old(buffer)@, buffer_size),
            final(buffer).len() == old(buffer).len(),
            forall|i: int|
                0 <= i < final(buffer).len() && !(buffer_size.width > 0 && in_column_band(
                    self.bounds,
                    buffer_size,
                    i % (buffer_size.width as int),
                    i / (buffer_size.width as int),
                )) ==> final(buffer)[i] == old(buffer)[i],
    {
        let len = buffer.len();
        let ghost b0 = buffer@;
        let padding = metrics::PANEL_PADDING as i64;
        let bx = self.bounds.x as i64;
        let by = self.bounds.y as i64;

        // Title placeholder bar.
        let title_y = by + padding;
        GlassRenderer::fill_rect_solid(
            buffer,
            buffer_size,
            Rect { x: (bx + padding) as i32, y: title_y as i32, width: 100, height: 3 },
            colors::TEXT_PRIMARY,
        );
        let ghost b1 = buffer@;
        proof {
            assert(b1 =~= solid_rect_layer(
                b0,
                buffer_size,
                px_rect(bx as int + padding as int, title_y as int, 100, 3),
                colors::TEXT_PRIMARY,
            ));
            let wi = buffer_size.width as int;
            assert forall|i: int|
                0 <= i < len && !(wi > 0 && in_column_band(
                    self.bounds,
                    buffer_size,
                    i % wi,
                    i / wi,
                )) implies b1[i] == b0[i] by {}
        }

        // Separator line.
        let sep_y = title_y + 24;
        GlassRenderer::fill_rect_solid(
            buffer,
            buffer_size,
            Rect {
                x: (bx + padding) as i32,
                y: sep_y as i32,
                width: (metrics::START_MENU_WIDTH - 2 * metrics::PANEL_PADDING),
                height: 1,
            },
            colors::MENU_SEPARATOR,
        );
        let ghost b2 = buffer@;
        proof {
            assert(b2 =~= solid_rect_layer(
                b1,
                buffer_size,
                px_rect(
                    bx as int + padding as int,
                    sep_y as int,
                    (metrics::START_MENU_WIDTH - 2 * metrics::PANEL_PADDING) as u32,
                    1,
                ),
                colors::MENU_SEPARATOR,
            ));
            assert(b2 == self.header_spec(b0, buffer_size));
            let wi = buffer_size.width as int;
            assert forall|i: int|
                0 <= i < len && !(wi > 0 && in_column_band(
                    self.bounds,
                    buffer_size,
                    i % wi,
                    i / wi,
                )) implies b2[i] == b1[i] by {}
        }

        // Application rows.
        let list_y = sep_y + 12;
        let item_height = metrics::APP_ITEM_HEIGHT as i64;
        let icon_size = metrics::APP_ICON_SIZE as i64;
        let visible_height = self.bounds.height as i64 - (list_y - by) - padding;
        let max_visible = (visible_height / item_height) as usize;
        proof {
            assert(max_visible as int == (self.bounds.height - list_top_offset()
                - metrics::PANEL_PADDING) / (metrics::APP_ITEM_HEIGHT as int));
        }

        let mut k: usize = 0;
        while k < self.apps.len() && k < max_visible
            invariant
                k as int <= self.visible_rows(),
                buffer.len() == len,
                self.rows_from(b2, buffer_size, 0) == self.rows_from(
                    buffer@,
                    buffer_size,
                    k as int,
                ),
                forall|i: int|
                    0 <= i < len && !(buffer_size.width > 0 && in_column_band(
                        self.bounds,
                        buffer_size,
                        i % (buffer_size.width as int),
                        i / (buffer_size.width as int),
                    )) ==> buffer[i] == b0[i],
            decreases self.apps.len() - k,
        {
            let ghost pre_iter = buffer@;
            let ghost ki = k as int;
            let item_y = list_y + (k as i64) * item_height - self.scroll_offset as i64;
            if !(item_y + item_height < by || item_y > by + self.bounds.height as i64) {
                // Hover highlight.
                let hovered = match self.hover_index {
                    Option::Some(h) => h == k,
                    Option::None => false,
                };
                if hovered {
                    let ghost bh = buffer@;
                    GlassRenderer::fill_rect_solid(
                        buffer,
                        buffer_size,
                        Rect {
                            x: (bx + padding / 2) as i32,
                            y: item_y as i32,
                            width: (metrics::START_MENU_WIDTH - metrics::PANEL_PADDING),
                            height: metrics::APP_ITEM_HEIGHT,
                        },
                        colors::MENU_ITEM_HOVER,
                    );
                    proof {
                        assert(buffer@ =~= solid_rect_layer(
                            bh,
                            buffer_size,
                            px_rect(
                                bx as int + 8,
                                item_y as int,
                                (metrics::START_MENU_WIDTH - metrics::PANEL_PADDING) as u32,
                                metrics::APP_ITEM_HEIGHT,
                            ),
                            colors::MENU_ITEM_HOVER,
                        ));
                        let wi = buffer_size.width as int;
                        assert forall|i: int|
                            0 <= i < len && !(wi > 0 && in_column_band(
                                self.bounds,
                                buffer_size,
                                i % wi,
                                i / wi,
                            )) implies buffer[i] == bh[i] by {}
                    }
                }

                // Icon placeholder square.
                let icon_x = bx + padding;
                let icon_y = item_y + (item_height - icon_size) / 2;
                let icon_color = self.get_app_color(k);
                let ghost bi = buffer@;
                GlassRenderer::fill_rect_solid(
                    buffer,
                    buffer_size,
                    Rect {
                        x: icon_x as i32,
                        y: icon_y as i32,
                        width: metrics::APP_ICON_SIZE,
                        height: metrics::APP_ICON_SIZE,
                    },
                    icon_color,
                );
                proof {
                    assert(buffer@ =~= solid_rect_layer(
                        bi,
                        buffer_size,
                        px_rect(
                            bx as int + 16,
                            icon_y as int,
                            metrics::APP_ICON_SIZE,
                            metrics::APP_ICON_SIZE,
                        ),
                        Self::app_color_spec(ki),
                    ));
                    let wi = buffer_size.width as int;
                    assert forall|i: int|
                        0 <= i < len && !(wi > 0 && in_column_band(
                            self.bounds,
                            buffer_size,
                            i % wi,
                            i / wi,
                        )) implies buffer[i] == bi[i] by {}
                }

                // Initial mark inside the icon.
                let ghost bm = buffer@;
                GlassRenderer::fill_rect_solid(
                    buffer,
                    buffer_size,
                    Rect {
                        x: (icon_x + icon_size / 2 - 4) as i32,
                        y: (icon_y + icon_size / 2 - 4) as i32,
                        width: 8,
                        height: 8,
                    },
                    colors::TEXT_ON_ACCENT,
                );
                proof {
                    assert(buffer@ =~= solid_rect_layer(
                        bm,
                        buffer_size,
                        px_rect(bx as int + 32, icon_y as int + 16, 8, 8),
                        colors::TEXT_ON_ACCENT,
                    ));
                    let wi = buffer_size.width as int;
                    assert forall|i: int|
                        0 <= i < len && !(wi > 0 && in_column_band(
                            self.bounds,
                            buffer_size,
                            i % wi,
                            i / wi,
                        )) implies buffer[i] == bm[i] by {}
                }

                // Name placeholder bar, sized by the name length.
                let name_x = icon_x + icon_size + metrics::APP_ICON_GAP as i64;
                let name_y = item_y + item_height / 2 - 2;
                let name_len = self.apps[k].name.as_str().unicode_len();
                let name_width: u32 = if name_len >= 25 {
                    200
                } else {
                    (name_len as u32) * 8
                };
                let ghost bn = buffer@;
                GlassRenderer::fill_rect_solid(
                    buffer,
                    buffer_size,
                    Rect { x: name_x as i32, y: name_y as i32, width: name_width, height: 4 },
                    colors::TEXT_PRIMARY,
                );
                proof {
                    assert(buffer@ =~= solid_rect_layer(
                        bn,
                        buffer_size,
                        px_rect(bx as int + 68, item_y as int + 26, name_width, 4),
                        colors::TEXT_PRIMARY,
                    ));
                    assert(buffer@ == self.row_spec(pre_iter, buffer_size, ki));
                    let wi = buffer_size.width as int;
                    assert forall|i: int|
                        0 <= i < len && !(wi > 0 && in_column_band(
                            self.bounds,
                            buffer_size,
                            i % wi,
                            i / wi,
                        )) implies buffer[i] == bn[i] by {}
                }
            } else {
                proof {
                    assert(buffer@ == self.row_spec(pre_iter, buffer_size, ki));
                }
            }
            proof {
                assert(self.rows_from(pre_iter, buffer_size, ki) == self.rows_from(
                    buffer@,
                    buffer_size,
                    ki + 1,
                ));
            }
            k = k + 1;
        }
        let ghost b3 = buffer@;
        proof {
            assert(k as int == self.visible_rows());
            assert(b3 == self.rows_from(b2, buffer_size, 0));
        }

        // Scrollbar, when the list overflows the visible area.
        proof {
            assert(visible_height == 432);
            assert(item_height == 56);
        }
        let napps = if self.apps.len() > 10_000_000 {
            10_000_000
        } else {
            self.apps.len()
        };
        let total_height = (napps as i64) * item_height;
        if total_height > visible_height {
            proof {
                assert(visible_height * visible_height == 186624) by (nonlinear_arith)
                    requires
                        visible_height == 432,
                ;
            }
            let sb_h = visible_height * visible_height / total_height;
            proof {
                assert(0 <= sb_h <= visible_height) by (nonlinear_arith)
                    requires
                        sb_h == (visible_height as int) * (visible_height as int) / (
                        total_height as int),
                        total_height > visible_height,
                        visible_height == 432,
                ;
            }
            let denom = total_height - visible_height;
            proof {
                assert(0 <= (self.scroll_offset as i64) * (visible_height - sb_h)
                    < 0x100_0000_0000) by (nonlinear_arith)
                    requires
                        0 <= self.scroll_offset < 0x8000_0000,
                        0 <= visible_height - sb_h <= 432,
                ;
            }
            let num = (self.scroll_offset as i64) * (visible_height - sb_h);
            let sb_y = list_y + num / denom;
            if sb_y <= 0x7FFF_FFFF {
                let ghost bs = buffer@;
                GlassRenderer::fill_rect_solid(
                    buffer,
                    buffer_size,
                    Rect {
                        x: (bx + metrics::START_MENU_WIDTH as i64 - 6) as i32,
                        y: sb_y as i32,
                        width: 3,
                        height: sb_h as u32,
                    },
                    colors::GLASS_BORDER,
                );
                proof {
                    assert(buffer@ =~= solid_rect_layer(
                        bs,
                        buffer_size,
                        px_rect(bx as int + metrics::START_MENU_WIDTH - 6, sb_y as int, 3, sb_h as u32),
                        colors::GLASS_BORDER,
                    ));
                    let wi = buffer_size.width as int;
                    assert forall|i: int|
                        0 <= i < len && !(wi > 0 && in_column_band(
                            self.bounds,
                            buffer_size,
                            i % wi,
                            i / wi,
                        )) implies buffer[i] == bs[i] by {}
                }
            }
        }
        proof {
            assert(buffer@ == self.scrollbar_spec(b3, buffer_size));
            assert(buffer@ == self.app_list_spec(b0, buffer_size));
        }
    }
}

impl crate::panel::Panel for StartMenuPanel {
    open spec fn wf(&self) -> bool {
        self.inv()
    }

    open spec fn target_visible(&self) -> bool {
        self.visible
    }

    open spec fn anim_progress(&self) -> int {
        self.progress as int
    }

    open spec fn anim_speed(&self) -> int {
        PANEL_SPEED_SLOW as int
    }

    fn is_visible(&self) -> bool {
        StartMenuPanel::is_visible(self)
    }

    fn set_visible(&mut self, visible: bool) {
        StartMenuPanel::set_visible(self, visible);
    }

    fn bounds(&self) -> Rect {
        StartMenuPanel::bounds(self)
    }

    fn handle_click(&mut self, x: i32, y: i32) -> bool {
        StartMenuPanel::handle_click(self, x, y)
    }

    fn update_animation(&mut self) -> bool {
        StartMenuPanel::update_animation(self)
    }

    fn draw(&self, buffer: &mut Vec<u32>, buffer_size: Size) {
        StartMenuPanel::draw(self, buffer, buffer_size);
    }
}

} // verus!
