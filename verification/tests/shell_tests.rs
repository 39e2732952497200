use firefly_shell::apps::AppInfo;
use firefly_shell::codec::{encode_lifecycle_event, LifecycleKind, MINIMIZE_WINDOW, RESTORE_WINDOW};
use firefly_shell::quick_settings::QuickSettingsPanel;
use firefly_shell::shell::{Shell, ShellCommand};
use firefly_shell::start_menu::StartMenuPanel;
use firefly_shell::taskbar::{Taskbar, TaskbarAction};
use firefly_shell::widget_panel::WidgetPanel;

fn app(name: &str, path: &str) -> AppInfo {
    AppInfo {
        id: format!("vendor.{name}"),
        name: name.to_string(),
        vendor: "vendor".to_string(),
        path: path.to_string(),
        icon_path: None,
        category: "other".to_string(),
    }
}

#[test]
fn add_window_is_idempotent_and_remove_clears() {
    let mut t = Taskbar::new(1920, 1080);
    t.add_window(7, b"A".to_vec());
    t.add_window(7, b"A".to_vec());
    assert_eq!(t.windows.len(), 1);
    assert_eq!(t.windows[0].id, 7);
    t.remove_window(7);
    assert_eq!(t.windows.len(), 0);
}

#[test]
fn remove_unknown_window_is_a_no_op() {
    let mut t = Taskbar::new(1920, 1080);
    t.add_window(1, b"one".to_vec());
    assert!(!t.remove_window(2));
    assert_eq!(t.windows.len(), 1);
}

#[test]
fn set_minimized_unknown_window_is_a_no_op() {
    let mut t = Taskbar::new(1920, 1080);
    assert!(!t.set_window_minimized(9, true));
    t.add_window(9, b"nine".to_vec());
    assert!(t.set_window_minimized(9, true));
    assert_eq!(t.get_window_state(9), Some(true));
    assert!(t.set_window_minimized(9, false));
    assert_eq!(t.get_window_state(9), Some(false));
    assert_eq!(t.get_window_state(10), None);
}

#[test]
fn bar_layout_is_ordered_left_to_right() {
    for width in [436u32, 800, 1366, 1920, 3840] {
        let t = Taskbar::new(width, 1080);
        assert!(t.widget_bar.right() < t.center_bar.x as i64, "width {width}");
        assert!(t.center_bar.right() < t.status_bar.x as i64, "width {width}");
        assert_eq!(t.widget_bar.y, t.center_bar.y);
        assert_eq!(t.center_bar.y, t.status_bar.y);
    }
}

#[test]
fn click_zones_at_full_hd() {
    let t = Taskbar::new(1920, 1080);
    let y_in_bar = 1080 - 48 - 8 + 10;
    // Inside the status bar, which starts at 1920 - 140 - 8 = 1772.
    assert_eq!(
        t.handle_click(1920 - 140 - 8 + 10, y_in_bar),
        TaskbarAction::ToggleQuickSettings
    );
    // Inside the widget bar (x in 8..64).
    assert_eq!(t.handle_click(10, y_in_bar), TaskbarAction::ToggleWidgetPanel);
    // Launcher zone at the start of the center bar (x in 76..124).
    assert_eq!(t.handle_click(80, y_in_bar), TaskbarAction::ToggleStartMenu);
    // Left margin hits nothing.
    assert_eq!(t.handle_click(4, y_in_bar), TaskbarAction::NoAction);
    // Above the bars hits nothing.
    assert_eq!(t.handle_click(10, 100), TaskbarAction::NoAction);
}

#[test]
fn window_icon_slots_toggle_their_window() {
    let mut t = Taskbar::new(1920, 1080);
    t.add_window(41, b"first".to_vec());
    t.add_window(42, b"second".to_vec());
    let y_in_bar = 1080 - 48 - 8 + 10;
    // Slot 0 starts at center_bar.x + 48 = 124, slot pitch is 44.
    assert_eq!(t.handle_click(124, y_in_bar), TaskbarAction::ToggleWindow(41));
    assert_eq!(t.handle_click(124 + 44, y_in_bar), TaskbarAction::ToggleWindow(42));
    // The 4-pixel gap between the slots hits nothing.
    assert_eq!(t.handle_click(124 + 41, y_in_bar), TaskbarAction::NoAction);
    // Beyond the last occupied slot hits nothing.
    assert_eq!(t.handle_click(124 + 2 * 44, y_in_bar), TaskbarAction::NoAction);
}

#[test]
fn opening_panel_progress_is_monotone_until_full() {
    let mut p = WidgetPanel::new(1920, 1080);
    p.set_visible(true);
    let mut last = 0u32;
    let mut steps = 0;
    loop {
        let animating = p.update_animation();
        if !animating {
            break;
        }
        assert!(p.progress > last);
        assert!(p.progress <= 100);
        last = p.progress;
        steps += 1;
        assert!(steps < 100, "animation must settle");
    }
    assert_eq!(p.progress, 100);
    // Once settled, further updates report no animation and hold at full.
    assert!(!p.update_animation());
    assert_eq!(p.progress, 100);
}

#[test]
fn is_visible_through_full_open_close_cycle() {
    let mut p = QuickSettingsPanel::new(1920, 1080);
    // At the very start: hidden.
    assert!(!p.is_visible());
    p.set_visible(true);
    assert!(p.is_visible());
    while p.update_animation() {
        assert!(p.is_visible());
    }
    assert_eq!(p.progress, 100);
    p.set_visible(false);
    // Still on-screen while the slide-out runs.
    assert!(p.is_visible());
    loop {
        let animating = p.update_animation();
        if !animating {
            break;
        }
        assert!(p.progress == 0 || p.is_visible());
    }
    // The instant after closing snaps progress to zero: off-screen.
    assert_eq!(p.progress, 0);
    assert!(!p.is_visible());
}

#[test]
fn launcher_panel_slower_speed() {
    let mut p = StartMenuPanel::new(1920, 1080);
    p.set_visible(true);
    p.update_animation();
    assert_eq!(p.progress, 12);
    p.update_animation();
    assert_eq!(p.progress, 24);
}

#[test]
fn created_event_appears_once_on_the_taskbar() {
    let mut shell = Shell::new(1920, 1080, Vec::new());
    let rec = encode_lifecycle_event(42, LifecycleKind::Created, &b"Editor".to_vec());
    assert!(shell.handle_lifecycle_record(&rec));
    assert_eq!(shell.taskbar.windows.len(), 1);
    assert_eq!(shell.taskbar.windows[0].id, 42);
    assert_eq!(shell.taskbar.windows[0].title, b"Editor".to_vec());
    assert!(!shell.taskbar.windows[0].minimized);
    // The same event again changes nothing.
    assert!(shell.handle_lifecycle_record(&rec));
    assert_eq!(shell.taskbar.windows.len(), 1);
}

#[test]
fn malformed_record_changes_nothing() {
    let mut shell = Shell::new(1920, 1080, Vec::new());
    assert!(!shell.handle_lifecycle_record(&vec![1, 2, 3]));
    assert_eq!(shell.taskbar.windows.len(), 0);
}

#[test]
fn destroyed_event_removes_the_window() {
    let mut shell = Shell::new(1920, 1080, Vec::new());
    let created = encode_lifecycle_event(5, LifecycleKind::Created, &b"win".to_vec());
    let destroyed = encode_lifecycle_event(5, LifecycleKind::Destroyed, &b"win".to_vec());
    shell.handle_lifecycle_record(&created);
    shell.handle_lifecycle_record(&destroyed);
    assert_eq!(shell.taskbar.windows.len(), 0);
}

#[test]
fn status_bar_press_toggles_quick_settings() {
    let mut shell = Shell::new(1920, 1080, Vec::new());
    let y_in_bar = 1080 - 48 - 8 + 10;
    let x = 1920 - 140 - 8 + 10;
    assert!(matches!(shell.handle_press(x, y_in_bar), ShellCommand::NoCommand));
    assert!(shell.quick_settings.visible);
    // While open, a press inside the panel is consumed and changes nothing.
    let px = shell.quick_settings.bounds.x + 10;
    let py = shell.quick_settings.bounds.y + 10;
    assert!(matches!(shell.handle_press(px, py), ShellCommand::NoCommand));
    assert!(shell.quick_settings.visible);
    // A second press on the status bar closes it again.
    assert!(matches!(shell.handle_press(x, y_in_bar), ShellCommand::NoCommand));
    assert!(!shell.quick_settings.visible);
}

#[test]
fn unconsumed_press_closes_all_panels() {
    let mut shell = Shell::new(1920, 1080, Vec::new());
    let y_in_bar = 1080 - 48 - 8 + 10;
    shell.handle_press(10, y_in_bar);
    assert!(shell.widget_panel.visible);
    // A press on the empty desktop consumes nothing and closes the panel.
    shell.handle_press(600, 300);
    assert!(!shell.widget_panel.visible);
    assert!(!shell.start_menu.visible);
    assert!(!shell.quick_settings.visible);
}

#[test]
fn window_slot_press_requests_minimize_then_restore() {
    let mut shell = Shell::new(1920, 1080, Vec::new());
    let created = encode_lifecycle_event(8, LifecycleKind::Created, &b"term".to_vec());
    shell.handle_lifecycle_record(&created);
    let y_in_bar = 1080 - 48 - 8 + 10;
    match shell.handle_press(124, y_in_bar) {
        ShellCommand::SendWindowOp { window_id, opcode } => {
            assert_eq!(window_id, 8);
            assert_eq!(opcode, MINIMIZE_WINDOW);
        }
        other => panic!("expected a window op, got {other:?}"),
    }
    // After the compositor reports the window minimized, the same press
    // asks to restore it.
    let minimized = encode_lifecycle_event(8, LifecycleKind::Minimized, &b"term".to_vec());
    shell.handle_lifecycle_record(&minimized);
    match shell.handle_press(124, y_in_bar) {
        ShellCommand::SendWindowOp { window_id, opcode } => {
            assert_eq!(window_id, 8);
            assert_eq!(opcode, RESTORE_WINDOW);
        }
        other => panic!("expected a window op, got {other:?}"),
    }
}

#[test]
fn launcher_row_press_launches_the_app() {
    let apps = vec![app("files", "/apps/vendor/files/files.app"), app("edit", "/apps/vendor/edit/edit.app")];
    let mut shell = Shell::new(1920, 1080, apps);
    let y_in_bar = 1080 - 48 - 8 + 10;
    // Open the launcher via the center bar's launcher zone.
    shell.handle_press(80, y_in_bar);
    assert!(shell.start_menu.visible);
    // The list starts 52 pixels under the panel's top edge; row one is
    // 56 pixels tall.
    let row_x = shell.start_menu.bounds.x + 100;
    let row0_y = shell.start_menu.bounds.y + 52 + 10;
    match shell.handle_press(row_x, row0_y) {
        ShellCommand::Launch(path) => assert_eq!(path, "/apps/vendor/files/files.app"),
        other => panic!("expected a launch, got {other:?}"),
    }
    // The click also started closing the launcher, and the action fires
    // only once.
    assert!(!shell.start_menu.visible);
    // Second row.
    shell.handle_press(80, y_in_bar);
    let row1_y = shell.start_menu.bounds.y + 52 + 56 + 10;
    match shell.handle_press(row_x, row1_y) {
        ShellCommand::Launch(path) => assert_eq!(path, "/apps/vendor/edit/edit.app"),
        other => panic!("expected a launch, got {other:?}"),
    }
}

#[test]
fn render_clears_the_dirty_flag_and_counts_frames() {
    let mut shell = Shell::new(64, 64, Vec::new());
    let mut buf = vec![0u32; 64 * 64];
    assert!(shell.needs_redraw());
    shell.render(&mut buf);
    assert!(!shell.needs_redraw());
    assert_eq!(shell.frame_counter, 1);
    assert_eq!(buf.len(), 64 * 64);
    // The wallpaper covered the whole screen.
    assert_eq!(buf[0], 0xFF0078D7);
}

#[test]
fn animations_settle_after_a_toggle() {
    let mut shell = Shell::new(1920, 1080, Vec::new());
    let y_in_bar = 1080 - 48 - 8 + 10;
    shell.handle_press(10, y_in_bar);
    let mut frames = 0;
    while shell.update_animations() {
        frames += 1;
        assert!(frames < 100);
    }
    assert_eq!(shell.widget_panel.progress, 100);
    assert_eq!(shell.start_menu.progress, 0);
    assert_eq!(shell.quick_settings.progress, 0);
}

#[test]
fn work_area_excludes_the_bars() {
    let t = Taskbar::new(1280, 720);
    assert_eq!(t.top(), 720 - 48 - 8);
    assert_eq!(t.get_work_area(1280), (0, 0, 1280, 720 - 48 - 8));
}

#[test]
fn panel_draw_paints_its_column_band_only() {
    let mut p = WidgetPanel::new(640, 480);
    p.set_visible(true);
    while p.update_animation() {}
    let size = firefly_shell::geometry::Size { width: 640, height: 480 };
    let mut buf = vec![0x12345678u32; 640 * 480];
    p.draw(&mut buf, size);
    // A pixel at the panel's center was painted.
    let cx = (p.bounds.x + (p.bounds.width as i32) / 2) as usize;
    let cy = (p.bounds.y + (p.bounds.height as i32) / 2) as usize;
    assert_ne!(buf[cy * 640 + cx], 0x12345678);
    // Columns outside the panel's band are untouched.
    for y in 0..480usize {
        assert_eq!(buf[y * 640 + 500], 0x12345678, "row {y}");
    }
}

#[test]
fn hidden_panel_draw_is_a_no_op() {
    let p = QuickSettingsPanel::new(640, 480);
    let size = firefly_shell::geometry::Size { width: 640, height: 480 };
    let mut buf = vec![0xAAAAAAAAu32; 640 * 480];
    p.draw(&mut buf, size);
    assert!(buf.iter().all(|&px| px == 0xAAAAAAAA));
}

#[test]
fn taskbar_draw_paints_the_bars() {
    let t = Taskbar::new(640, 480);
    let size = firefly_shell::geometry::Size { width: 640, height: 480 };
    let mut buf = vec![0u32; 640 * 480];
    t.draw(&mut buf, size);
    // The middle of the widget bar was painted.
    let y = (480 - 48 - 8 + 24) as usize;
    assert_ne!(buf[y * 640 + 36], 0);
    // The area above the bars is untouched.
    assert_eq!(buf[100 * 640 + 36], 0);
}

#[test]
fn calculate_bars_relays_out_for_a_new_screen() {
    let mut t = Taskbar::new(1920, 1080);
    t.add_window(3, b"kept".to_vec());
    t.calculate_bars(1280, 720);
    assert_eq!(t.status_bar.x, 1280 - 140 - 8);
    assert_eq!(t.widget_bar.y, 720 - 48 - 8);
    assert_eq!(t.top(), 720 - 48 - 8);
    // The window list survives a relayout.
    assert_eq!(t.windows.len(), 1);
    assert_eq!(t.windows[0].id, 3);
}

#[test]
fn panel_trait_dispatch_toggles_any_panel() {
    fn flip<P: firefly_shell::panel::Panel>(p: &mut P) -> bool {
        p.toggle();
        p.is_visible()
    }
    let mut w = WidgetPanel::new(640, 480);
    let mut q = QuickSettingsPanel::new(640, 480);
    let mut s = StartMenuPanel::new(640, 480);
    assert!(flip(&mut w));
    assert!(flip(&mut q));
    assert!(flip(&mut s));
    assert!(w.visible && q.visible && s.visible);
}
