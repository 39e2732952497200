//! The shell orchestrator: the authoritative model of open windows, panel
//! visibility, and animation progress, and the dispatch of pointer input
//! and lifecycle events. The process boundary (endpoints, timers) drives
//! this state machine from outside and performs the commands it returns.

use vstd::prelude::*;

use crate::apps::AppInfo;
use crate::codec;
use crate::codec::{LifecycleEvent, LifecycleKind};
use crate::geometry::{rect_contains, Size};
use crate::panel::panel_on_screen;
use crate::quick_settings::QuickSettingsPanel;
use crate::start_menu::{StartMenuAction, StartMenuPanel};
use crate::taskbar::{has_window, Taskbar, TaskbarAction, WindowEntry};
use crate::wallpaper::Wallpaper;
use crate::widget_panel::WidgetPanel;

verus! {

/// What the process boundary must do after a dispatch.
#[derive(Debug)]
pub enum ShellCommand {
    /// Nothing.
    NoCommand,
    /// Send this window-op record to the compositor.
    SendWindowOp { window_id: u32, opcode: u32 },
    /// Launch the application at this executable path.
    Launch(String),
}

/// Whether the entry carrying `id` is currently minimized; unknown ids
/// count as not minimized.
pub open spec fn window_minimized_spec(ws: Seq<WindowEntry>, id: u32) -> bool {
    exists|j: int| 0 <= j < ws.len() && ws[j].id == id && ws[j].minimized
}

/// The whole shell state.
#[derive(Debug)]
pub struct Shell {
    /// The desktop background.
    pub wallpaper: Wallpaper,
    /// The three bars and the window list.
    pub taskbar: Taskbar,
    /// The widget panel (left).
    pub widget_panel: WidgetPanel,
    /// The launcher panel (center).
    pub start_menu: StartMenuPanel,
    /// The quick-settings panel (right).
    pub quick_settings: QuickSettingsPanel,
    /// Whether the scene is stale and must be redrawn.
    pub dirty: bool,
    /// Frames rendered so far.
    pub frame_counter: u32,
    /// The screen the shell was laid out for.
    pub screen: Size,
}

impl Shell {
    /// Structural invariant: every component is well-formed for the
    /// recorded screen.
    pub open spec fn inv(self) -> bool {
        &&& self.screen.width <= 0x7FFF_0000
        &&& self.screen.height <= 0x7FFF_0000
        &&& self.taskbar.inv()
        &&& self.widget_panel.inv()
        &&& self.start_menu.inv()
        &&& self.quick_settings.inv()
        &&& self.wallpaper.bounds == (0u32, 0u32, self.screen.width, self.screen.height)
        &&& self.start_menu.last_action is NoAction
        &&& self.taskbar.screen_width == self.screen.width
        &&& self.taskbar.screen_height == self.screen.height
        &&& self.widget_panel.screen_height == self.screen.height
        &&& self.start_menu.screen_height == self.screen.height
        &&& self.quick_settings.screen_height == self.screen.height
        &&& self.widget_panel.bounds.x == crate::metrics::TASKBAR_MARGIN
        &&& self.widget_panel.bounds.y == self.screen.height - crate::metrics::TASKBAR_HEIGHT
            - crate::metrics::TASKBAR_MARGIN - crate::metrics::WIDGET_PANEL_HEIGHT - 8
        &&& self.quick_settings.bounds.x == self.screen.width
            - crate::metrics::QUICK_SETTINGS_WIDTH - crate::metrics::TASKBAR_MARGIN
        &&& self.quick_settings.bounds.y == self.screen.height - crate::metrics::TASKBAR_HEIGHT
            - crate::metrics::TASKBAR_MARGIN - crate::metrics::QUICK_SETTINGS_HEIGHT - 8
        &&& self.start_menu.bounds.y == self.screen.height - crate::metrics::TASKBAR_HEIGHT
            - crate::metrics::TASKBAR_MARGIN - crate::metrics::START_MENU_HEIGHT - 8
        &&& (self.screen.width >= crate::metrics::START_MENU_WIDTH ==> self.start_menu.bounds.x
            == (self.screen.width - crate::metrics::START_MENU_WIDTH) / 2)
    }

    /// A freshly started shell: full-screen wallpaper, empty taskbar,
    /// all panels hidden, launcher list filled, scene marked stale.
    pub fn new(screen_width: u32, screen_height: u32, apps: Vec<AppInfo>) -> (s: Shell)
        requires
            screen_width <= 0x7FFF_0000,
            screen_height <= 0x7FFF_0000,
        ensures
            s.inv(),
            s.screen == (Size { width: screen_width, height: screen_height }),
            s.taskbar.windows@ == Seq::<WindowEntry>::empty(),
            !s.widget_panel.visible && s.widget_panel.progress == 0,
            !s.start_menu.visible && s.start_menu.progress == 0,
            !s.quick_settings.visible && s.quick_settings.progress == 0,
            s.start_menu.apps == apps,
            s.start_menu.last_action is NoAction,
            s.dirty,
            s.frame_counter == 0,
    {
        let mut start_menu = StartMenuPanel::new(screen_width, screen_height);
        start_menu.set_apps(apps);
        Shell {
            wallpaper: Wallpaper::with_bounds(0, 0, screen_width, screen_height),
            taskbar: Taskbar::new(screen_width, screen_height),
            widget_panel: WidgetPanel::new(screen_width, screen_height),
            start_menu,
            quick_settings: QuickSettingsPanel::new(screen_width, screen_height),
            dirty: true,
            frame_counter: 0,
            screen: Size { width: screen_width, height: screen_height },
        }
    }

    /// Applies one window-lifecycle event to the window list and marks the
    /// scene stale: created windows are added (duplicates ignored),
    /// destroyed windows removed, minimize and restore flip the flag of
    /// the entry if it is known.
    pub fn handle_lifecycle(&mut self, ev: LifecycleEvent)
        requires
            old(self).inv(),
        ensures
            final(self).inv(),
            final(self).dirty,
            final(self).widget_panel == old(self).widget_panel,
            final(self).start_menu == old(self).start_menu,
            final(self).quick_settings == old(self).quick_settings,
            final(self).wallpaper == old(self).wallpaper,
            final(self).screen == old(self).screen,
            final(self).frame_counter == old(self).frame_counter,
            final(self).taskbar.widget_bar == old(self).taskbar.widget_bar,
            final(self).taskbar.center_bar == old(self).taskbar.center_bar,
            final(self).taskbar.status_bar == old(self).taskbar.status_bar,
            final(self).taskbar.x == old(self).taskbar.x,
            final(self).taskbar.y == old(self).taskbar.y,
            final(self).taskbar.width == old(self).taskbar.width,
            final(self).taskbar.height == old(self).taskbar.height,
            final(self).taskbar.screen_width == old(self).taskbar.screen_width,
            final(self).taskbar.screen_height == old(self).taskbar.screen_height,
            ev.kind is Created ==> (if has_window(old(self).taskbar.windows@, ev.window_id) {
                final(self).taskbar.windows@ == old(self).taskbar.windows@
            } else {
                final(self).taskbar.windows@ == old(self).taskbar.windows@.push(
                    WindowEntry { id: ev.window_id, title: ev.title, minimized: false },
                )
            }),
            ev.kind is Destroyed ==> !has_window(final(self).taskbar.windows@, ev.window_id)
                && (if has_window(old(self).taskbar.windows@, ev.window_id) {
                exists|j: int|
                    0 <= j < old(self).taskbar.windows@.len() && old(self).taskbar.windows@[j].id == ev.window_id && final(self).taskbar.windows@
                        == old(self).taskbar.windows@.remove(j)
            } else {
                final(self).taskbar.windows@ == old(self).taskbar.windows@
            }),
            ev.kind is Minimized || ev.kind is Restored ==> (if has_window(
                old(self).taskbar.windows@,
                ev.window_id,
            ) {
                exists|j: int|
                    0 <= j < old(self).taskbar.windows@.len() && old(self).taskbar.windows@[j].id == ev.window_id && final(self).taskbar.windows@
                        == old(self).taskbar.windows@.update(
                        j,
                        WindowEntry {
                            id: ev.window_id,
                            title: old(self).taskbar.windows@[j].title,
                            minimized: ev.kind is Minimized,
                        },
                    )
            } else {
                final(self).taskbar.windows@ == old(self).taskbar.windows@
            }),
    {
        match ev.kind {
            LifecycleKind::Created => {
                self.taskbar.add_window(ev.window_id, ev.title);
            },
            LifecycleKind::Destroyed => {
                self.taskbar.remove_window(ev.window_id);
            },
            LifecycleKind::Minimized => {
                self.taskbar.set_window_minimized(ev.window_id, true);
            },
            LifecycleKind::Restored => {
                self.taskbar.set_window_minimized(ev.window_id, false);
            },
        }
        self.dirty = true;
    }

    /// Decodes one inbound record and applies it if it is a well-formed
    /// lifecycle event; malformed or foreign records are dropped without
    /// changing anything. An applied event acts on the window list exactly
    /// as [`Self::handle_lifecycle`] does for the decoded fields.
    pub fn handle_lifecycle_record(&mut self, bytes: &Vec<u8>) -> (applied: bool)
        requires
            old(self).inv(),
        ensures
            final(self).inv(),
            applied == (codec::decode_lifecycle_spec(bytes@) is Some),
            !applied ==> *final(self) == *old(self),
            applied ==> final(self).dirty,
            applied ==> final(self).widget_panel == old(self).widget_panel && final(self).start_menu == old(self).start_menu && final(self).quick_settings == old(self).quick_settings && final(self).wallpaper == old(self).wallpaper && final(self).screen
                == old(self).screen && final(self).frame_counter == old(self).frame_counter,
            codec::decode_lifecycle_spec(bytes@) matches Some(dec) ==> ({
                let ws = old(self).taskbar.windows@;
                let ws2 = final(self).taskbar.windows@;
                &&& (dec.1 is Created ==> (if has_window(ws, dec.0) {
                    ws2 == ws
                } else {
                    ws2.len() == ws.len() + 1 && ws2.subrange(0, ws.len() as int) == ws
                        && ws2.last().id == dec.0 && ws2.last().title@ == dec.2
                        && !ws2.last().minimized
                }))
                &&& (dec.1 is Destroyed ==> !has_window(ws2, dec.0) && (if has_window(
                    ws,
                    dec.0,
                ) {
                    exists|j: int|
                        0 <= j < ws.len() && ws[j].id == dec.0 && ws2 == ws.remove(j)
                } else {
                    ws2 == ws
                }))
                &&& (dec.1 is Minimized || dec.1 is Restored ==> (if has_window(ws, dec.0) {
                    exists|j: int|
                        0 <= j < ws.len() && ws[j].id == dec.0 && ws2 == ws.update(
                            j,
                            WindowEntry {
                                id: dec.0,
                                title: ws[j].title,
                                minimized: dec.1 is Minimized,
                            },
                        )
                } else {
                    ws2 == ws
                }))
            }),
    {
        match codec::decode_lifecycle_event(bytes) {
            Option::Some(ev) => {
                let ghost pre = self.taskbar.windows@;
                let ghost kind = ev.kind;
                self.handle_lifecycle(ev);
                proof {
                    if kind is Created && !has_window(pre, self.taskbar.windows@.last().id) {
                        assert(self.taskbar.windows@.subrange(0, pre.len() as int) =~= pre);
                    }
                }
                true
            },
            Option::None => false,
        }
    }

    /// Dispatches a pointer press by z-order: quick settings, then the
    /// launcher, then the widget panel, each given first refusal; then the
    /// taskbar's bars. A press nothing consumes closes all open panels.
    /// Returns the outward command the press decided on.
    pub fn handle_press(&mut self, x: i32, y: i32) -> (cmd: ShellCommand)
        requires
            old(self).inv(),
        ensures
            final(self).inv(),
            final(self).dirty,
            final(self).wallpaper == old(self).wallpaper,
            final(self).screen == old(self).screen,
            final(self).frame_counter == old(self).frame_counter,
            final(self).taskbar.windows@ == old(self).taskbar.windows@,
            ({
                let qs_hit = old(self).quick_settings.visible && rect_contains(
                    old(self).quick_settings.bounds,
                    x as int,
                    y as int,
                );
                let sm_hit = old(self).start_menu.visible && rect_contains(
                    old(self).start_menu.bounds,
                    x as int,
                    y as int,
                );
                let wp_hit = old(self).widget_panel.visible && rect_contains(
                    old(self).widget_panel.bounds,
                    x as int,
                    y as int,
                );
                if qs_hit {
                    *final(self) == (Shell { dirty: true, ..*old(self) }) && cmd is NoCommand
                } else if sm_hit {
                    match old(self).start_menu.app_at_point_spec(x as int, y as int) {
                        Option::Some(idx) => !final(self).start_menu.visible && final(self).start_menu.last_action is NoAction && (cmd matches ShellCommand::Launch(
                            p,
                        ) && p@ == old(self).start_menu.apps[idx].path@) && final(self).widget_panel
                            == old(self).widget_panel && final(self).quick_settings == old(self).quick_settings,
                        Option::None => *final(self) == (Shell { dirty: true, ..*old(self) })
                            && cmd is NoCommand,
                    }
                } else if wp_hit {
                    *final(self) == (Shell { dirty: true, ..*old(self) }) && cmd is NoCommand
                } else {
                    let action = old(self).taskbar.click_action_spec(x as int, y as int);
                    match action {
                        TaskbarAction::ToggleWidgetPanel => final(self).widget_panel.visible
                            == !panel_on_screen(
                            old(self).widget_panel.visible,
                            old(self).widget_panel.progress as int,
                        ) && final(self).start_menu == old(self).start_menu && final(self).quick_settings == old(self).quick_settings && cmd is NoCommand,
                        TaskbarAction::ToggleStartMenu => final(self).start_menu.visible
                            == !panel_on_screen(
                            old(self).start_menu.visible,
                            old(self).start_menu.progress as int,
                        ) && final(self).widget_panel == old(self).widget_panel && final(self).quick_settings == old(self).quick_settings && cmd is NoCommand,
                        TaskbarAction::ToggleQuickSettings => final(self).quick_settings.visible
                            == !panel_on_screen(
                            old(self).quick_settings.visible,
                            old(self).quick_settings.progress as int,
                        ) && final(self).widget_panel == old(self).widget_panel && final(self).start_menu == old(self).start_menu && cmd is NoCommand,
                        TaskbarAction::ToggleWindow(id) => (cmd matches ShellCommand::SendWindowOp {
                            window_id,
                            opcode,
                        } && window_id == id && opcode == (if window_minimized_spec(
                            old(self).taskbar.windows@,
                            id,
                        ) {
                            codec::RESTORE_WINDOW
                        } else {
                            codec::MINIMIZE_WINDOW
                        })) && *final(self) == (Shell { dirty: true, ..*old(self) }),
                        TaskbarAction::LaunchApp(idx) => (if idx < old(self).start_menu.apps@.len() {
                            cmd matches ShellCommand::Launch(p) && p@ == old(self).start_menu.apps[idx as int].path@
                        } else {
                            cmd is NoCommand
                        }) && *final(self) == (Shell { dirty: true, ..*old(self) }),
                        TaskbarAction::NoAction => !final(self).widget_panel.visible && !final(self).start_menu.visible && !final(self).quick_settings.visible && cmd
                            is NoCommand,
                    }
                }
            }),
    {
        self.dirty = true;
        if self.quick_settings.handle_click(x, y) {
            return ShellCommand::NoCommand;
        }
        if self.start_menu.handle_click(x, y) {
            let action = self.start_menu.take_action();
            match action {
                StartMenuAction::LaunchApp(path) => {
                    return ShellCommand::Launch(path);
                },
                StartMenuAction::NoAction => {
                    return ShellCommand::NoCommand;
                },
            }
        }
        if self.widget_panel.handle_click(x, y) {
            return ShellCommand::NoCommand;
        }
        let action = self.taskbar.handle_click(x, y);
        match action {
            TaskbarAction::ToggleWidgetPanel => {
                self.widget_panel.toggle();
                ShellCommand::NoCommand
            },
            TaskbarAction::ToggleStartMenu => {
                self.start_menu.toggle();
                ShellCommand::NoCommand
            },
            TaskbarAction::ToggleQuickSettings => {
                self.quick_settings.toggle();
                ShellCommand::NoCommand
            },
            TaskbarAction::ToggleWindow(id) => {
                let minimized = match self.taskbar.get_window_state(id) {
                    Option::Some(m) => m,
                    Option::None => false,
                };
                let opcode = if minimized {
                    codec::RESTORE_WINDOW
                } else {
                    codec::MINIMIZE_WINDOW
                };
                ShellCommand::SendWindowOp { window_id: id, opcode }
            },
            TaskbarAction::LaunchApp(idx) => {
                if idx < self.start_menu.apps.len() {
                    let path = self.start_menu.apps[idx].path.clone();
                    ShellCommand::Launch(path)
                } else {
                    ShellCommand::NoCommand
                }
            },
            TaskbarAction::NoAction => {
                self.widget_panel.set_visible(false);
                self.start_menu.set_visible(false);
                self.quick_settings.set_visible(false);
                ShellCommand::NoCommand
            },
        }
    }

    /// Advances all three panel animations one frame. Returns whether any
    /// panel is still moving (and the scene must keep redrawing).
    pub fn update_animations(&mut self) -> (animating: bool)
        requires
            old(self).inv(),
        ensures
            final(self).inv(),
            final(self).widget_panel.progress == crate::panel::step_progress(
                old(self).widget_panel.progress as int,
                old(self).widget_panel.visible,
                crate::panel::PANEL_SPEED_FAST as int,
            ),
            final(self).start_menu.progress == crate::panel::step_progress(
                old(self).start_menu.progress as int,
                old(self).start_menu.visible,
                crate::panel::PANEL_SPEED_SLOW as int,
            ),
            final(self).quick_settings.progress == crate::panel::step_progress(
                old(self).quick_settings.progress as int,
                old(self).quick_settings.visible,
                crate::panel::PANEL_SPEED_FAST as int,
            ),
            final(self).widget_panel.visible == old(self).widget_panel.visible,
            final(self).start_menu.visible == old(self).start_menu.visible,
            final(self).quick_settings.visible == old(self).quick_settings.visible,
            final(self).taskbar == old(self).taskbar,
            final(self).wallpaper == old(self).wallpaper,
            final(self).dirty == old(self).dirty,
            final(self).screen == old(self).screen,
            final(self).frame_counter == old(self).frame_counter,
            animating == ((old(self).widget_panel.progress != (if old(self).widget_panel.visible {
                100u32
            } else {
                0u32
            })) || (old(self).start_menu.progress != (if old(self).start_menu.visible {
                100u32
            } else {
                0u32
            })) || (old(self).quick_settings.progress != (if old(self).quick_settings.visible {
                100u32
            } else {
                0u32
            }))),
    {
        let a = self.widget_panel.update_animation();
        let b = self.start_menu.update_animation();
        let c = self.quick_settings.update_animation();
        a || b || c
    }

    /// Renders the full scene back to front — wallpaper, panels, taskbar —
    /// into the pixel buffer, counts the frame, and clears the stale flag.
    /// The buffer afterwards is exactly the composition of the five
    /// components' draw effects, in that order.
    pub fn render(&mut self, buffer: &mut Vec<u32>)
        requires
            old(self).inv(),
        ensures
            final(self).inv(),
            final(buffer)@ == ({
                let s1 = old(self).wallpaper.draw_spec(old(buffer)@, old(self).screen);
                let s2 = old(self).widget_panel.draw_spec(s1, old(self).screen);
                let s3 = old(self).start_menu.draw_spec(s2, old(self).screen);
                let s4 = old(self).quick_settings.draw_spec(s3, old(self).screen);
                old(self).taskbar.draw_spec(s4, old(self).screen)
            }),
            final(buffer).len() == old(buffer).len(),
            !final(self).dirty,
            final(self).frame_counter == (if old(self).frame_counter == u32::MAX {
                0u32
            } else {
                (old(self).frame_counter + 1) as u32
            }),
            final(self).wallpaper == old(self).wallpaper,
            final(self).taskbar == old(self).taskbar,
            final(self).widget_panel == old(self).widget_panel,
            final(self).start_menu == old(self).start_menu,
            final(self).quick_settings == old(self).quick_settings,
            final(self).screen == old(self).screen,
    {
        let size = self.screen;
        self.wallpaper.draw(buffer, size);
        self.widget_panel.draw(buffer, size);
        self.start_menu.draw(buffer, size);
        self.quick_settings.draw(buffer, size);
        self.taskbar.draw(buffer, size);
        self.dirty = false;
        self.frame_counter = if self.frame_counter == u32::MAX {
            0
        } else {
            self.frame_counter + 1
        };
    }

    /// Whether the next frame must be rendered.
    pub fn needs_redraw(&self) -> (r: bool)
        ensures
            r == self.dirty,
    {
        self.dirty
    }
}

} // verus!
