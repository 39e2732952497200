//! The taskbar: three floating glass bars (widget toggle, center
//! launcher-and-windows bar, status bar), the live window list, and the
//! translation of clicks into shell actions.

use vstd::prelude::*;

use crate::colors;
use crate::geometry::{rect_contains, Rect, Size};
use crate::glass::{bar_style_spec, draw_rect_spec, in_column_band, px_rect, solid_rect_layer, GlassRenderer, GlassStyle};
use crate::metrics;

verus! {

/// One open window tracked on the taskbar.
#[derive(Debug)]
pub struct WindowEntry {
    /// Compositor window id.
    pub id: u32,
    /// Window title, as the bytes received on the wire (the title field up
    /// to its first NUL). The model deliberately carries the raw bytes;
    /// decoding them to text for display is left to the presentation
    /// boundary outside this crate.
    pub title: Vec<u8>,
    /// Whether the window is currently minimized.
    pub minimized: bool,
}

/// What a click on the taskbar asks the shell to do.
#[derive(Debug, Clone, Copy, PartialEq, Eq, Structural)]
pub enum TaskbarAction {
    /// The click hit no active zone.
    NoAction,
    /// Toggle the widget panel.
    ToggleWidgetPanel,
    /// Toggle the launcher panel.
    ToggleStartMenu,
    /// Toggle the quick-settings panel.
    ToggleQuickSettings,
    /// Minimize or restore the window with this id.
    ToggleWindow(u32),
    /// Launch the application at this index of the launcher list.
    LaunchApp(usize),
}

/// The resting place of the widget bar for a given screen.
pub open spec fn widget_bar_spec(screen_width: int, screen_height: int) -> Rect {
    Rect {
        x: metrics::TASKBAR_MARGIN as i32,
        y: (screen_height - metrics::TASKBAR_HEIGHT - metrics::TASKBAR_MARGIN) as i32,
        width: metrics::WIDGET_BAR_WIDTH,
        height: metrics::TASKBAR_HEIGHT,
    }
}

/// The resting place of the status bar: anchored at the right screen edge.
pub open spec fn status_bar_spec(screen_width: int, screen_height: int) -> Rect {
    Rect {
        x: (screen_width - metrics::STATUS_BAR_WIDTH - metrics::TASKBAR_MARGIN) as i32,
        y: (screen_height - metrics::TASKBAR_HEIGHT - metrics::TASKBAR_MARGIN) as i32,
        width: metrics::STATUS_BAR_WIDTH,
        height: metrics::TASKBAR_HEIGHT,
    }
}

/// The x position where the center bar starts: after the margin, the
/// widget bar, and one gap.
pub open spec fn center_bar_x() -> int {
    metrics::TASKBAR_MARGIN + metrics::WIDGET_BAR_WIDTH + metrics::TASKBAR_GAP
}

/// The resting place of the center bar: it fills the gap between the
/// widget and status bars, but never shrinks below its minimum width.
pub open spec fn center_bar_spec(screen_width: int, screen_height: int) -> Rect {
    let avail = status_bar_spec(screen_width, screen_height).x - metrics::TASKBAR_GAP
        - center_bar_x();
    let w: int = if avail > metrics::CENTER_BAR_MIN_WIDTH {
        avail
    } else {
        metrics::CENTER_BAR_MIN_WIDTH as int
    };
    Rect {
        x: center_bar_x() as i32,
        y: (screen_height - metrics::TASKBAR_HEIGHT - metrics::TASKBAR_MARGIN) as i32,
        width: w as u32,
        height: metrics::TASKBAR_HEIGHT,
    }
}

/// Whether some entry carries this window id.
pub open spec fn has_window(ws: Seq<WindowEntry>, id: u32) -> bool {
    exists|j: int| 0 <= j < ws.len() && ws[j].id == id
}

/// Whether no two entries share a window id.
pub open spec fn ids_unique(ws: Seq<WindowEntry>) -> bool {
    forall|j: int, k: int| 0 <= j < k < ws.len() ==> ws[j].id != ws[k].id
}

/// The window-icon slot of the center bar that contains column `x`, if
/// any: slots follow the launcher zone at a fixed pitch, and each is one
/// icon wide.
pub open spec fn window_slot_spec(nwindows: int, cx: int, x: int) -> Option<int> {
    let rel = x - cx - metrics::LAUNCHER_ZONE_WIDTH;
    if rel < 0 {
        Option::None
    } else {
        let pitch = (metrics::ICON_BUTTON_SIZE + metrics::ICON_GAP) as int;
        let k = rel / pitch;
        if rel % pitch < metrics::ICON_BUTTON_SIZE && k < nwindows {
            Option::Some(k)
        } else {
            Option::None
        }
    }
}

/// The three floating bars and the live window list.
#[derive(Debug)]
pub struct Taskbar {
    /// Left edge of the taskbar area (always `0`).
    pub x: u32,
    /// Top edge of the taskbar area; everything above is work area.
    pub y: u32,
    /// Width of the taskbar area (the full screen width).
    pub width: u32,
    /// Height of one bar.
    pub height: u32,
    /// Screen width the layout was computed for.
    pub screen_width: u32,
    /// Screen height the layout was computed for.
    pub screen_height: u32,
    /// The widget-toggle bar (left).
    pub widget_bar: Rect,
    /// The center bar: launcher zone plus window-icon slots.
    pub center_bar: Rect,
    /// The status bar (right).
    pub status_bar: Rect,
    /// The open windows, in arrival order.
    pub windows: Vec<WindowEntry>,
}

impl Taskbar {
    /// Structural invariant: the bars sit where the layout puts them for
    /// the recorded screen size, and window ids are unique.
    pub open spec fn inv(self) -> bool {
        &&& self.screen_width <= 0x7FFF_0000
        &&& self.screen_height <= 0x7FFF_0000
        &&& self.widget_bar == widget_bar_spec(
            self.screen_width as int,
            self.screen_height as int,
        )
        &&& self.center_bar == center_bar_spec(
            self.screen_width as int,
            self.screen_height as int,
        )
        &&& self.status_bar == status_bar_spec(
            self.screen_width as int,
            self.screen_height as int,
        )
        &&& self.x == 0
        &&& self.width == self.screen_width
        &&& self.height == metrics::TASKBAR_HEIGHT
        &&& self.y == (if self.screen_height >= metrics::TASKBAR_HEIGHT
            + metrics::TASKBAR_MARGIN {
            (self.screen_height - metrics::TASKBAR_HEIGHT - metrics::TASKBAR_MARGIN) as u32
        } else {
            0u32
        })
        &&& ids_unique(self.windows@)
    }

    /// An empty taskbar laid out for the given screen.
    pub fn new(screen_width: u32, screen_height: u32) -> (t: Taskbar)
        requires
            screen_width <= 0x7FFF_0000,
            screen_height <= 0x7FFF_0000,
        ensures
            t.inv(),
            t.screen_width == screen_width,
            t.screen_height == screen_height,
            t.windows@ == Seq::<WindowEntry>::empty(),
    {
        let bar_y = screen_height as i32 - metrics::TASKBAR_HEIGHT as i32
            - metrics::TASKBAR_MARGIN as i32;
        let status_x = screen_width as i32 - metrics::STATUS_BAR_WIDTH as i32
            - metrics::TASKBAR_MARGIN as i32;
        let center_x = (metrics::TASKBAR_MARGIN + metrics::WIDGET_BAR_WIDTH
            + metrics::TASKBAR_GAP) as i32;
        let avail = status_x as i64 - metrics::TASKBAR_GAP as i64 - center_x as i64;
        let center_w: u32 = if avail > metrics::CENTER_BAR_MIN_WIDTH as i64 {
            avail as u32
        } else {
            metrics::CENTER_BAR_MIN_WIDTH
        };
        Taskbar {
            x: 0,
            y: if screen_height >= metrics::TASKBAR_HEIGHT + metrics::TASKBAR_MARGIN {
                screen_height - metrics::TASKBAR_HEIGHT - metrics::TASKBAR_MARGIN
            } else {
                0
            },
            width: screen_width,
            height: metrics::TASKBAR_HEIGHT,
            screen_width,
            screen_height,
            widget_bar: Rect {
                x: metrics::TASKBAR_MARGIN as i32,
                y: bar_y,
                width: metrics::WIDGET_BAR_WIDTH,
                height: metrics::TASKBAR_HEIGHT,
            },
            center_bar: Rect {
                x: center_x,
                y: bar_y,
                width: center_w,
                height: metrics::TASKBAR_HEIGHT,
            },
            status_bar: Rect {
                x: status_x,
                y: bar_y,
                width: metrics::STATUS_BAR_WIDTH,
                height: metrics::TASKBAR_HEIGHT,
            },
            windows: Vec::new(),
        }
    }

    /// Lays the three bars out again for a new screen size, keeping the
    /// window list. Called whenever the screen dimensions change.
    pub fn calculate_bars(&mut self, screen_width: u32, screen_height: u32)
        requires
            old(self).inv(),
            screen_width <= 0x7FFF_0000,
            screen_height <= 0x7FFF_0000,
        ensures
            final(self).inv(),
            final(self).screen_width == screen_width,
            final(self).screen_height == screen_height,
            final(self).windows@ == old(self).windows@,
    {
        let bar_y = screen_height as i32 - metrics::TASKBAR_HEIGHT as i32
            - metrics::TASKBAR_MARGIN as i32;
        let status_x = screen_width as i32 - metrics::STATUS_BAR_WIDTH as i32
            - metrics::TASKBAR_MARGIN as i32;
        let center_x = (metrics::TASKBAR_MARGIN + metrics::WIDGET_BAR_WIDTH
            + metrics::TASKBAR_GAP) as i32;
        let avail = status_x as i64 - metrics::TASKBAR_GAP as i64 - center_x as i64;
        let center_w: u32 = if avail > metrics::CENTER_BAR_MIN_WIDTH as i64 {
            avail as u32
        } else {
            metrics::CENTER_BAR_MIN_WIDTH
        };
        self.screen_width = screen_width;
        self.screen_height = screen_height;
        self.x = 0;
        self.width = screen_width;
        self.height = metrics::TASKBAR_HEIGHT;
        self.y = if screen_height >= metrics::TASKBAR_HEIGHT + metrics::TASKBAR_MARGIN {
            screen_height - metrics::TASKBAR_HEIGHT - metrics::TASKBAR_MARGIN
        } else {
            0
        };
        self.widget_bar = Rect {
            x: metrics::TASKBAR_MARGIN as i32,
            y: bar_y,
            width: metrics::WIDGET_BAR_WIDTH,
            height: metrics::TASKBAR_HEIGHT,
        };
        self.center_bar = Rect { x: center_x, y: bar_y, width: center_w, height: metrics::TASKBAR_HEIGHT };
        self.status_bar = Rect {
            x: status_x,
            y: bar_y,
            width: metrics::STATUS_BAR_WIDTH,
            height: metrics::TASKBAR_HEIGHT,
        };
    }

    /// The top edge of the taskbar area.
    pub fn top(&self) -> (r: u32)
        ensures
            r == self.y,
    {
        self.y
    }

    /// The work area left for application windows: everything above the
    /// taskbar.
    pub fn get_work_area(&self, screen_width: u32) -> (r: (u32, u32, u32, u32))
        ensures
            r == (0u32, 0u32, screen_width, self.y),
    {
        (0, 0, screen_width, self.y)
    }

    /// Tracks a newly created window. Duplicate ids are ignored, so the
    /// list never holds two entries for one window.
    #[verifier::loop_isolation(false)]
    pub fn add_window(&mut self, id: u32, title: Vec<u8>) -> (added: bool)
        requires
            old(self).inv(),
        ensures
            final(self).inv(),
            added == !has_window(old(self).windows@, id),
            !added ==> final(self).windows@ == old(self).windows@,
            added ==> final(self).windows@ == old(self).windows@.push(
                WindowEntry { id, title, minimized: false },
            ),
            has_window(final(self).windows@, id),
            final(self).widget_bar == old(self).widget_bar,
            final(self).center_bar == old(self).center_bar,
            final(self).status_bar == old(self).status_bar,
            final(self).y == old(self).y,
            final(self).screen_width == old(self).screen_width,
            final(self).screen_height == old(self).screen_height,
    {
        let n = self.windows.len();
        let mut j: usize = 0;
        while j < n
            invariant
                *self == *old(self),
                j <= n,
                n == self.windows.len(),
                forall|k: int| 0 <= k < j ==> self.windows[k].id != id,
            decreases n - j,
        {
            if self.windows[j].id == id {
                assert(has_window(self.windows@, id));
                return false;
            }
            j = j + 1;
        }
        assert(!has_window(self.windows@, id));
        self.windows.push(WindowEntry { id, title, minimized: false });
        assert(self.windows@[self.windows@.len() - 1].id == id);
        assert forall|a: int, b: int|
            0 <= a < b < self.windows@.len() implies self.windows@[a].id
            != self.windows@[b].id by {
            if b < self.windows@.len() - 1 {
                assert(old(self).windows@[a].id != old(self).windows@[b].id);
            }
        }
        true
    }

    /// Forgets a destroyed window. Unknown ids are ignored; afterwards no
    /// entry carries `id`.
    #[verifier::loop_isolation(false)]
    pub fn remove_window(&mut self, id: u32) -> (removed: bool)
        requires
            old(self).inv(),
        ensures
            final(self).inv(),
            removed == has_window(old(self).windows@, id),
            !removed ==> final(self).windows@ == old(self).windows@,
            removed ==> exists|j: int|
                0 <= j < old(self).windows@.len() && old(self).windows@[j].id == id
                    && final(self).windows@ == old(self).windows@.remove(j),
            !has_window(final(self).windows@, id),
            final(self).widget_bar == old(self).widget_bar,
            final(self).center_bar == old(self).center_bar,
            final(self).status_bar == old(self).status_bar,
            final(self).y == old(self).y,
            final(self).screen_width == old(self).screen_width,
            final(self).screen_height == old(self).screen_height,
    {
        let n = self.windows.len();
        let mut j: usize = 0;
        while j < n
            invariant
                *self == *old(self),
                j <= n,
                n == self.windows.len(),
                forall|k: int| 0 <= k < j ==> self.windows[k].id != id,
            decreases n - j,
        {
            if self.windows[j].id == id {
                let ghost pre = self.windows@;
                self.windows.remove(j);
                proof {
                    assert(self.windows@ == pre.remove(j as int));
                    assert forall|k: int|
                        0 <= k < self.windows@.len() implies self.windows@[k].id != id by {
                        if k < j {
                            assert(self.windows@[k] == pre[k]);
                        } else {
                            assert(self.windows@[k] == pre[k + 1]);
                        }
                    }
                    assert forall|a: int, b: int|
                        0 <= a < b < self.windows@.len() implies self.windows@[a].id
                        != self.windows@[b].id by {
                        let pa: int = if a < j {
                            a
                        } else {
                            a + 1
                        };
                        let pb: int = if b < j {
                            b
                        } else {
                            b + 1
                        };
                        assert(self.windows@[a] == pre[pa]);
                        assert(self.windows@[b] == pre[pb]);
                    }
                }
                return true;
            }
            j = j + 1;
        }
        false
    }

    /// Marks a window minimized or restored. Unknown ids are ignored
    /// (the event may race with removal).
    #[verifier::loop_isolation(false)]
    pub fn set_window_minimized(&mut self, id: u32, minimized: bool) -> (found: bool)
        requires
            old(self).inv(),
        ensures
            final(self).inv(),
            found == has_window(old(self).windows@, id),
            !found ==> final(self).windows@ == old(self).windows@,
            found ==> exists|j: int|
                0 <= j < old(self).windows@.len() && old(self).windows@[j].id == id
                    && final(self).windows@ == old(self).windows@.update(
                    j,
                    WindowEntry { id, title: old(self).windows@[j].title, minimized },
                ),
            final(self).widget_bar == old(self).widget_bar,
            final(self).center_bar == old(self).center_bar,
            final(self).status_bar == old(self).status_bar,
            final(self).y == old(self).y,
            final(self).screen_width == old(self).screen_width,
            final(self).screen_height == old(self).screen_height,
    {
        let n = self.windows.len();
        let mut j: usize = 0;
        while j < n
            invariant
                *self == *old(self),
                j <= n,
                n == self.windows.len(),
                forall|k: int| 0 <= k < j ==> self.windows[k].id != id,
            decreases n - j,
        {
            if self.windows[j].id == id {
                let ghost pre = self.windows@;
                let e = vstd::std_specs::vec::vec_index_mut(&mut self.windows, j);
                e.minimized = minimized;
                proof {
                    assert(self.windows@ == pre.update(
                        j as int,
                        WindowEntry { id, title: pre[j as int].title, minimized },
                    ));
                    assert forall|a: int, b: int|
                        0 <= a < b < self.windows@.len() implies self.windows@[a].id
                        != self.windows@[b].id by {
                        assert(pre[a].id != pre[b].id);
                    }
                }
                return true;
            }
            j = j + 1;
        }
        false
    }

    /// Whether the window with `id` is currently minimized, or `None` if
    /// it is unknown.
    #[verifier::loop_isolation(false)]
    pub fn get_window_state(&self, id: u32) -> (r: Option<bool>)
        ensures
            match r {
                Option::Some(m) => exists|j: int|
                    0 <= j < self.windows@.len() && self.windows@[j].id == id
                        && self.windows@[j].minimized == m,
                Option::None => !has_window(self.windows@, id),
            },
    {
        let n = self.windows.len();
        let mut j: usize = 0;
        while j < n
            invariant
                j <= n,
                n == self.windows.len(),
                forall|k: int| 0 <= k < j ==> self.windows[k].id != id,
            decreases n - j,
        {
            if self.windows[j].id == id {
                return Option::Some(self.windows[j].minimized);
            }
            j = j + 1;
        }
        Option::None
    }

    /// The action a click at `(x, y)` asks for: the widget bar toggles the
    /// widget panel, the status bar toggles quick settings, the center
    /// bar's launcher zone toggles the launcher, its window-icon slots
    /// toggle their window, and everything else does nothing.
    pub open spec fn click_action_spec(self, x: int, y: int) -> TaskbarAction {
        if rect_contains(self.widget_bar, x, y) {
            TaskbarAction::ToggleWidgetPanel
        } else if rect_contains(self.status_bar, x, y) {
            TaskbarAction::ToggleQuickSettings
        } else if rect_contains(self.center_bar, x, y) {
            if x < self.center_bar.x + metrics::LAUNCHER_ZONE_WIDTH {
                TaskbarAction::ToggleStartMenu
            } else {
                match window_slot_spec(self.windows.len() as int, self.center_bar.x as int, x) {
                    Option::Some(k) => TaskbarAction::ToggleWindow(self.windows@[k].id),
                    Option::None => TaskbarAction::NoAction,
                }
            }
        } else {
            TaskbarAction::NoAction
        }
    }

    /// Translates a click into a [`TaskbarAction`], testing the bars in
    /// the fixed priority widget, status, center.
    pub fn handle_click(&self, x: i32, y: i32) -> (action: TaskbarAction)
        requires
            self.inv(),
        ensures
            action == self.click_action_spec(x as int, y as int),
    {
        let p = crate::geometry::Point { x, y };
        if self.widget_bar.contains_point(p) {
            return TaskbarAction::ToggleWidgetPanel;
        }
        if self.status_bar.contains_point(p) {
            return TaskbarAction::ToggleQuickSettings;
        }
        if self.center_bar.contains_point(p) {
            if (x as i64) < self.center_bar.x as i64 + metrics::LAUNCHER_ZONE_WIDTH as i64 {
                return TaskbarAction::ToggleStartMenu;
            }
            let rel = (x as i64) - self.center_bar.x as i64 - metrics::LAUNCHER_ZONE_WIDTH as i64;
            let pitch = (metrics::ICON_BUTTON_SIZE + metrics::ICON_GAP) as i64;
            let k = rel / pitch;
            if rel % pitch < metrics::ICON_BUTTON_SIZE as i64 && (k as u64) < (
            self.windows.len() as u64) {
                return TaskbarAction::ToggleWindow(self.windows[k as usize].id);
            }
            return TaskbarAction::NoAction;
        }
        TaskbarAction::NoAction
    }

    /// The buffer after drawing the launcher glyph: four small squares
    /// in the center bar's launcher zone.
    pub open spec fn glyph_spec(self, pre: Seq<u32>, size: Size) -> Seq<u32> {
        let gx = self.center_bar.x as int + 16;
        let gy = self.center_bar.y as int + 16;
        let s1 = solid_rect_layer(pre, size, px_rect(gx, gy, 7, 7), colors::ICON_NORMAL);
        let s2 = solid_rect_layer(s1, size, px_rect(gx + 9, gy, 7, 7), colors::ICON_NORMAL);
        let s3 = solid_rect_layer(s2, size, px_rect(gx, gy + 9, 7, 7), colors::ICON_NORMAL);
        solid_rect_layer(s3, size, px_rect(gx + 9, gy + 9, 7, 7), colors::ICON_NORMAL)
    }

    /// How many window slots the drawing pass considers.
    pub open spec fn slots_considered(self) -> int {
        if self.windows.len() > 50_000_000 {
            50_000_000
        } else {
            self.windows.len() as int
        }
    }

    /// The buffer after drawing the window-icon slots at indexes `w` and
    /// up: one square per open window whose slot fits the center bar,
    /// colored by its minimized state.
    pub open spec fn slots_from(self, pre: Seq<u32>, size: Size, w: int) -> Seq<u32>
        decreases self.slots_considered() - w,
    {
        if w < 0 || w >= self.slots_considered() {
            pre
        } else {
            let slot_x = self.center_bar.x + metrics::LAUNCHER_ZONE_WIDTH + w * (
            metrics::ICON_BUTTON_SIZE + metrics::ICON_GAP);
            let fits = slot_x + metrics::ICON_BUTTON_SIZE <= self.center_bar.x
                + self.center_bar.width;
            let c = if self.windows@[w].minimized {
                colors::BG_LIGHT
            } else {
                colors::GLASS_BG_ACTIVE
            };
            let next = if fits {
                solid_rect_layer(
                    pre,
                    size,
                    px_rect(slot_x, self.center_bar.y + 4, metrics::ICON_BUTTON_SIZE, 40),
                    c,
                )
            } else {
                pre
            };
            self.slots_from(next, size, w + 1)
        }
    }

    /// The whole buffer after drawing the taskbar: the three glass bars,
    /// the launcher glyph, then the window slots.
    pub open spec fn draw_spec(self, pre: Seq<u32>, size: Size) -> Seq<u32> {
        let s1 = draw_rect_spec(pre, size, self.widget_bar, bar_style_spec());
        let s2 = draw_rect_spec(s1, size, self.center_bar, bar_style_spec());
        let s3 = draw_rect_spec(s2, size, self.status_bar, bar_style_spec());
        self.slots_from(self.glyph_spec(s3, size), size, 0)
    }

    /// Draws the three glass bars, the launcher glyph, and one icon slot
    /// per open window that fits the center bar. Touches only the three
    /// bars' column bands.
    #[verifier::loop_isolation(false)]
    pub fn draw(&self, buffer: &mut Vec<u32>, buffer_size: Size)
        requires
            self.inv(),
            buffer_size.width < 0x8000_0000,
            buffer_size.height < 0x8000_0000,
        ensures
            final(buffer)@ == self.draw_spec(old(buffer)@, buffer_size),
            final(buffer).len() == old(buffer).len(),
            forall|i: int|
                0 <= i < final(buffer).len() && !(buffer_size.width > 0 && (in_column_band(
                    self.widget_bar,
                    buffer_size,
                    i % (buffer_size.width as int),
                    i / (buffer_size.width as int),
                ) || in_column_band(
                    self.center_bar,
                    buffer_size,
                    i % (buffer_size.width as int),
                    i / (buffer_size.width as int),
                ) || in_column_band(
                    self.status_bar,
                    buffer_size,
                    i % (buffer_size.width as int),
                    i / (buffer_size.width as int),
                ))) ==> final(buffer)[i] == old(buffer)[i],
    {
        let len = buffer.len();
        let ghost b0 = buffer@;
        let style = GlassStyle::bar();

        GlassRenderer::draw_rect(buffer, buffer_size, self.widget_bar, &style);
        let ghost b1 = buffer@;
        GlassRenderer::draw_rect(buffer, buffer_size, self.center_bar, &style);
        let ghost b2 = buffer@;
        GlassRenderer::draw_rect(buffer, buffer_size, self.status_bar, &style);
        let ghost b3 = buffer@;
        proof {
            let wi = buffer_size.width as int;
            assert forall|i: int|
                0 <= i < len && !(wi > 0 && (in_column_band(
                    self.widget_bar,
                    buffer_size,
                    i % wi,
                    i / wi,
                ) || in_column_band(self.center_bar, buffer_size, i % wi, i / wi)
                    || in_column_band(
                    self.status_bar,
                    buffer_size,
                    i % wi,
                    i / wi,
                ))) implies b3[i] == b0[i] by {
                assert(b1[i] == b0[i]);
                assert(b2[i] == b1[i]);
                assert(b3[i] == b2[i]);
            }
        }

        // Launcher glyph: four small squares in the launcher zone.
        let gx = self.center_bar.x as i64 + 16;
        let gy = self.center_bar.y as i64 + 16;
        let ghost gxi = self.center_bar.x as int + 16;
        let ghost gyi = self.center_bar.y as int + 16;
        GlassRenderer::fill_rect_solid(
            buffer,
            buffer_size,
            Rect { x: gx as i32, y: gy as i32, width: 7, height: 7 },
            colors::ICON_NORMAL,
        );
        let ghost g1 = buffer@;
        GlassRenderer::fill_rect_solid(
            buffer,
            buffer_size,
            Rect { x: (gx + 9) as i32, y: gy as i32, width: 7, height: 7 },
            colors::ICON_NORMAL,
        );
        let ghost g2 = buffer@;
        GlassRenderer::fill_rect_solid(
            buffer,
            buffer_size,
            Rect { x: gx as i32, y: (gy + 9) as i32, width: 7, height: 7 },
            colors::ICON_NORMAL,
        );
        let ghost g3 = buffer@;
        GlassRenderer::fill_rect_solid(
            buffer,
            buffer_size,
            Rect { x: (gx + 9) as i32, y: (gy + 9) as i32, width: 7, height: 7 },
            colors::ICON_NORMAL,
        );
        let ghost g4 = buffer@;
        proof {
            assert(g1 =~= solid_rect_layer(
                b3,
                buffer_size,
                px_rect(gxi, gyi, 7, 7),
                colors::ICON_NORMAL,
            ));
            assert(g2 =~= solid_rect_layer(
                g1,
                buffer_size,
                px_rect(gxi + 9, gyi, 7, 7),
                colors::ICON_NORMAL,
            ));
            assert(g3 =~= solid_rect_layer(
                g2,
                buffer_size,
                px_rect(gxi, gyi + 9, 7, 7),
                colors::ICON_NORMAL,
            ));
            assert(g4 =~= solid_rect_layer(
                g3,
                buffer_size,
                px_rect(gxi + 9, gyi + 9, 7, 7),
                colors::ICON_NORMAL,
            ));
            assert(g4 == self.glyph_spec(b3, buffer_size));
            let wi = buffer_size.width as int;
            assert forall|i: int|
                0 <= i < len && !(wi > 0 && (in_column_band(
                    self.widget_bar,
                    buffer_size,
                    i % wi,
                    i / wi,
                ) || in_column_band(self.center_bar, buffer_size, i % wi, i / wi)
                    || in_column_band(
                    self.status_bar,
                    buffer_size,
                    i % wi,
                    i / wi,
                ))) implies g4[i] == b3[i] by {
                assert(g1[i] == b3[i]);
                assert(g2[i] == g1[i]);
                assert(g3[i] == g2[i]);
                assert(g4[i] == g3[i]);
            }
        }

        // One icon slot per open window, as long as the slot fits the bar.
        let pitch = (metrics::ICON_BUTTON_SIZE + metrics::ICON_GAP) as i64;
        let nfit: usize = if self.windows.len() > 50_000_000 {
            50_000_000
        } else {
            self.windows.len()
        };
        let mut w: usize = 0;
        while w < nfit
            invariant
                w <= nfit,
                nfit as int == self.slots_considered(),
                buffer.len() == len,
                self.slots_from(g4, buffer_size, 0) == self.slots_from(
                    buffer@,
                    buffer_size,
                    w as int,
                ),
                forall|i: int|
                    0 <= i < len && !(buffer_size.width > 0 && (in_column_band(
                        self.widget_bar,
                        buffer_size,
                        i % (buffer_size.width as int),
                        i / (buffer_size.width as int),
                    ) || in_column_band(
                        self.center_bar,
                        buffer_size,
                        i % (buffer_size.width as int),
                        i / (buffer_size.width as int),
                    ) || in_column_band(
                        self.status_bar,
                        buffer_size,
                        i % (buffer_size.width as int),
                        i / (buffer_size.width as int),
                    ))) ==> buffer[i] == b0[i],
            decreases nfit - w,
        {
            let ghost pre_iter = buffer@;
            let slot_x = self.center_bar.x as i64 + metrics::LAUNCHER_ZONE_WIDTH as i64 + (
            w as i64) * pitch;
            if slot_x + metrics::ICON_BUTTON_SIZE as i64 <= self.center_bar.x as i64
                + self.center_bar.width as i64 {
                let slot_y = self.center_bar.y as i64 + 4;
                let color = if self.windows[w].minimized {
                    colors::BG_LIGHT
                } else {
                    colors::GLASS_BG_ACTIVE
                };
                let ghost bw = buffer@;
                GlassRenderer::fill_rect_solid(
                    buffer,
                    buffer_size,
                    Rect {
                        x: slot_x as i32,
                        y: slot_y as i32,
                        width: metrics::ICON_BUTTON_SIZE,
                        height: 40,
                    },
                    color,
                );
                proof {
                    assert(buffer@ =~= solid_rect_layer(
                        pre_iter,
                        buffer_size,
                        px_rect(
                            slot_x as int,
                            self.center_bar.y + 4,
                            metrics::ICON_BUTTON_SIZE,
                            40,
                        ),
                        color,
                    ));
                    let wi = buffer_size.width as int;
                    assert forall|i: int|
                        0 <= i < len && !(wi > 0 && (in_column_band(
                            self.widget_bar,
                            buffer_size,
                            i % wi,
                            i / wi,
                        ) || in_column_band(self.center_bar, buffer_size, i % wi, i / wi)
                            || in_column_band(
                            self.status_bar,
                            buffer_size,
                            i % wi,
                            i / wi,
                        ))) implies buffer[i] == bw[i] by {}
                }
            }
            proof {
                assert(self.slots_from(pre_iter, buffer_size, w as int) == self.slots_from(
                    buffer@,
                    buffer_size,
                    w as int + 1,
                ));
            }
            w = w + 1;
        }
        proof {
            assert(buffer@ == self.draw_spec(old(buffer)@, buffer_size));
        }
    }
}


/// The window list never holds two entries for one id: with unique ids,
/// any two entries carrying the same id are the same entry. Together with
/// the adding contract (duplicates are ignored) this means repeated
/// created events leave exactly one entry, and the removing contract
/// leaves none.
pub proof fn lemma_at_most_one_entry(ws: Seq<WindowEntry>, id: u32)
    requires
        ids_unique(ws),
    ensures
        forall|j: int, k: int|
            0 <= j < ws.len() && 0 <= k < ws.len() && ws[j].id == id && ws[k].id == id ==> j
                == k,
{
    assert forall|j: int, k: int|
        0 <= j < ws.len() && 0 <= k < ws.len() && ws[j].id == id && ws[k].id
            == id implies j == k by {
        if j < k {
            assert(ws[j].id != ws[k].id);
        }
        if k < j {
            assert(ws[k].id != ws[j].id);
        }
    }
}

/// On every screen at least as wide as the bars' minimum layout (margins,
/// widget bar, both gaps, minimum center bar, and status bar), the three
/// bars sit strictly left to right: the widget bar ends before the center
/// bar starts, and the center bar ends before the status bar starts.
pub proof fn lemma_bar_layout_ordered(screen_width: int, screen_height: int)
    requires
        screen_width >= metrics::TASKBAR_MARGIN + metrics::WIDGET_BAR_WIDTH + metrics::TASKBAR_GAP
            + metrics::CENTER_BAR_MIN_WIDTH + metrics::TASKBAR_GAP + metrics::STATUS_BAR_WIDTH
            + metrics::TASKBAR_MARGIN,
        screen_width <= 0x7FFF_0000,
    ensures
        widget_bar_spec(screen_width, screen_height).x + widget_bar_spec(
            screen_width,
            screen_height,
        ).width < center_bar_spec(screen_width, screen_height).x,
        center_bar_spec(screen_width, screen_height).x + center_bar_spec(
            screen_width,
            screen_height,
        ).width < status_bar_spec(screen_width, screen_height).x,
{
}


} // verus!
