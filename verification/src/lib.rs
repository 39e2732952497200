//! Desktop shell core: wire-protocol codec, glass rasterizer, panel state
//! machines, taskbar layout and hit-testing, and the frame orchestrator.
//!
//! The shell owns the desktop background, three floating status/launcher
//! bars, and slide-in popup panels. It turns window-lifecycle notifications
//! and pointer input into a rendered, animated scene in a shared pixel
//! buffer. Everything here is pure state and pixels; the process boundary
//! (compositor endpoints, timers, spawning) lives outside this crate.

pub mod apps;
pub mod codec;
pub mod color;
pub mod colors;
pub mod geometry;
pub mod glass;
pub mod metrics;
pub mod panel;
pub mod quick_settings;
pub mod shell;
pub mod start_menu;
pub mod taskbar;
pub mod wallpaper;
pub mod widget_panel;
