//! The shell's color palette, as packed ARGB values.

use vstd::prelude::*;

verus! {

/// Primary accent.
pub const ACCENT: u32 = 0xFFFF6B35;

/// Lighter accent.
pub const ACCENT_LIGHT: u32 = 0xFFFF8B55;

/// Darker accent.
pub const ACCENT_DARK: u32 = 0xFFE55520;

/// Desktop background fallback.
pub const DESKTOP_BG: u32 = 0xFF1A1A2E;

/// Dark background.
pub const BG_DARK: u32 = 0xFF0D0D15;

/// Medium background.
pub const BG_MEDIUM: u32 = 0xFF1E1E28;

/// Light background.
pub const BG_LIGHT: u32 = 0xFF2A2A38;

/// Glass background (semi-transparent dark).
pub const GLASS_BG: u32 = 0xD0181822;

/// Glass background, hovered.
pub const GLASS_BG_HOVER: u32 = 0xE0252535;

/// Glass background, pressed.
pub const GLASS_BG_ACTIVE: u32 = 0xF0303045;

/// Glass border.
pub const GLASS_BORDER: u32 = 0x40FFFFFF;

/// Glass top highlight.
pub const GLASS_BORDER_LIGHT: u32 = 0x30FFFFFF;

/// Menu background.
pub const MENU_BG: u32 = 0xE5181822;

/// Menu item, hovered.
pub const MENU_ITEM_HOVER: u32 = 0xFF2A2A3C;

/// Menu item, selected.
pub const MENU_ITEM_SELECTED: u32 = 0xFF3A3A4C;

/// Menu separator line.
pub const MENU_SEPARATOR: u32 = 0x30FFFFFF;

/// Primary text (white).
pub const TEXT_PRIMARY: u32 = 0xFFFFFFFF;

/// Secondary text.
pub const TEXT_SECONDARY: u32 = 0xFFAAAAAA;

/// Disabled text.
pub const TEXT_DISABLED: u32 = 0xFF666666;

/// Text drawn over the accent color.
pub const TEXT_ON_ACCENT: u32 = 0xFFFFFFFF;

/// Normal icon.
pub const ICON_NORMAL: u32 = 0xFFDDDDDD;

/// Active icon.
pub const ICON_ACTIVE: u32 = 0xFFFFFFFF;

/// Disabled icon.
pub const ICON_DISABLED: u32 = 0xFF555555;

/// Solid wallpaper color.
pub const WALLPAPER_COLOR: u32 = 0xFF0078D7;

} // verus!
