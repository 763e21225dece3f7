//! Configuration of the shell, as plain values.
use vstd::prelude::*;

verus! {

/// Options of the bar.
#[derive(Clone, Debug, Default)]
pub struct BarConfig {
    /// The main disk to show, as a device path such as `/dev/sda1`.
    pub disk: String,
    /// Name of the battery device under the power-supply class; `None` turns the
    /// battery reader off.
    pub battery: Option<String>,
    /// Show whether caps lock is on.
    pub show_capslock: bool,
    /// Show whether num lock is on.
    pub show_numlock: bool,
}

/// One application that the launcher can start.
#[derive(Clone, Debug, Default)]
pub struct LaunchApp {
    /// Name shown to the user and searched for.
    pub name: String,
    /// Command line that starts the application.
    pub cmd: String,
    /// A longer description.
    pub description: Option<String>,
}

/// Options of the launcher's launch mode.
#[derive(Clone, Debug, Default)]
pub struct LaunchModeConfig {
    pub apps: Vec<LaunchApp>,
}

/// Options of the launcher.
#[derive(Clone, Debug, Default)]
pub struct LauncherConfig {
    pub launch_mode: LaunchModeConfig,
}

/// The whole configuration.
#[derive(Clone, Debug, Default)]
pub struct Config {
    pub bar: BarConfig,
    pub launcher: LauncherConfig,
}

impl BarConfig {
    /// Whether the battery reader runs.
    pub fn battery_enabled(&self) -> (r: bool)
        ensures
            r == (self.battery is Some),
    {
        self.battery.is_some()
    }
}

} // verus!
