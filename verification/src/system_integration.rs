//! What the application does at startup, and how it notifies the user.

use crate::settings::Settings;
use vstd::prelude::*;

verus! {

/// What is done when the application starts.
#[derive(Debug, Clone, Copy, PartialEq, Eq, Structural)]
pub struct StartupPlan {
    /// Whether the file monitor is asked to start.
    pub start_monitoring: bool,
    /// Whether the main window is shown.
    pub show_window: bool,
}

/// How a notification reaches the user.
#[derive(Debug, Clone, Copy, PartialEq, Eq, Structural)]
pub enum NotificationChannel {
    /// Through the notifications of the system.
    System,
    /// As an event to the main window.
    InApp,
}

/// The startup under `settings`: the monitor starts if downloads are
/// scanned automatically, and the window is shown unless the application
/// starts in the tray.
pub fn handle_startup(settings: &Settings) -> (plan: StartupPlan)
    ensures
        plan.start_monitoring == settings.auto_scan_downloads,
        plan.show_window == !settings.minimize_to_tray,
{
    StartupPlan {
        start_monitoring: settings.auto_scan_downloads,
        show_window: !settings.minimize_to_tray,
    }
}

/// The channel of a notification: the system's, but the window on Linux
/// and wherever the system's has just failed.
pub fn show_notification(on_linux: bool, system_failed: bool) -> (channel: NotificationChannel)
    ensures
        channel == if on_linux || system_failed {
            NotificationChannel::InApp
        } else {
            NotificationChannel::System
        },
{
    if on_linux || system_failed {
        NotificationChannel::InApp
    } else {
        NotificationChannel::System
    }
}

} // verus!
