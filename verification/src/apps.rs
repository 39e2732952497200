//! Value types for launchable applications, produced by the external
//! discovery collaborator and consumed read-only by the shell.

use vstd::prelude::*;

verus! {

/// One launchable application.
#[derive(Debug, Clone)]
pub struct AppInfo {
    /// Unique id, `vendor.name`.
    pub id: String,
    /// Display name.
    pub name: String,
    /// Vendor / publisher.
    pub vendor: String,
    /// Path of the executable.
    pub path: String,
    /// Path of the icon, if the application ships one.
    pub icon_path: Option<String>,
    /// Category label.
    pub category: String,
}

/// An application icon bitmap (placeholder).
#[derive(Debug, Clone)]
pub struct AppIcon {
    pub width: u32,
    pub height: u32,
    pub data: Vec<u32>,
}

impl Default for AppIcon {
    /// An empty 32-by-32 icon.
    fn default() -> (r: AppIcon)
        ensures
            r.width == 32,
            r.height == 32,
            r.data@ == Seq::<u32>::empty(),
    {
        AppIcon { width: 32, height: 32, data: Vec::new() }
    }
}

/// A process started from the shell.
#[derive(Debug, Clone)]
pub struct RunningApp {
    /// Process id returned by the platform.
    pub pid: u32,
    /// Display name.
    pub name: String,
    /// Path of the executable.
    pub path: String,
}

} // verus!
