//! Layout constants for the floating bars, panels, and menu items.

use vstd::prelude::*;

verus! {

/// Height of each floating taskbar bar.
pub const TASKBAR_HEIGHT: u32 = 48;

/// Margin between a bar and the screen edge.
pub const TASKBAR_MARGIN: u32 = 8;

/// Horizontal gap between neighbouring bars.
pub const TASKBAR_GAP: u32 = 12;

/// Corner radius of the bars.
pub const TASKBAR_RADIUS: u32 = 12;

/// Inner padding of the bars.
pub const TASKBAR_PADDING: u32 = 8;

/// Width of the widget-toggle bar (left).
pub const WIDGET_BAR_WIDTH: u32 = 56;

/// Minimum width of the center bar.
pub const CENTER_BAR_MIN_WIDTH: u32 = 200;

/// Width of the status bar (right).
pub const STATUS_BAR_WIDTH: u32 = 140;

/// Width of the launcher-toggle zone at the left of the center bar.
pub const LAUNCHER_ZONE_WIDTH: u32 = 48;

/// Side of an icon button.
pub const ICON_BUTTON_SIZE: u32 = 40;

/// Side of an icon glyph.
pub const ICON_SIZE: u32 = 24;

/// Gap between icon buttons.
pub const ICON_GAP: u32 = 4;

/// Width of the widget panel.
pub const WIDGET_PANEL_WIDTH: u32 = 380;

/// Height of the widget panel.
pub const WIDGET_PANEL_HEIGHT: u32 = 500;

/// Width of the quick-settings panel.
pub const QUICK_SETTINGS_WIDTH: u32 = 320;

/// Height of the quick-settings panel.
pub const QUICK_SETTINGS_HEIGHT: u32 = 280;

/// Width of the launcher (start-menu) panel.
pub const START_MENU_WIDTH: u32 = 400;

/// Height of the launcher (start-menu) panel.
pub const START_MENU_HEIGHT: u32 = 500;

/// Corner radius of the panels.
pub const PANEL_RADIUS: u32 = 16;

/// Inner padding of the panels.
pub const PANEL_PADDING: u32 = 16;

/// Height of one application row in the launcher list.
pub const APP_ITEM_HEIGHT: u32 = 56;

/// Side of an application icon in the launcher list.
pub const APP_ICON_SIZE: u32 = 40;

/// Gap between an application icon and its label.
pub const APP_ICON_GAP: u32 = 12;

} // verus!
