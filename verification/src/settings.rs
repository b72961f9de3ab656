//! User settings and the platform the process runs on.

use vstd::prelude::*;

verus! {

/// Colour scheme of the user interface.
#[derive(Debug, Clone, Copy, PartialEq, Eq, Structural)]
pub enum Theme {
    Auto,
    Light,
    Dark,
}

/// How the result of a batch is shown to the user.
#[derive(Debug, Clone, Copy, PartialEq, Eq, Structural)]
pub enum NotifyMode {
    Dialog,
    Notification,
    Silent,
}

/// Where a compressed image is written.
#[derive(Debug, Clone, Copy, PartialEq, Eq, Structural)]
pub enum OutputMode {
    Alongside,
    Overwrite,
    Directory,
}

/// The operating system family, as far as shell integration differs.
#[derive(Debug, Clone, Copy, PartialEq, Eq, Structural)]
pub enum Platform {
    MacOs,
    Windows,
    Other,
}

/// The settings a user can change.
#[derive(Debug, Clone, PartialEq, Eq)]
pub struct AppSettings {
    pub api_key: String,
    pub notify_mode: NotifyMode,
    pub output_mode: OutputMode,
    pub output_directory: String,
    pub context_menu_enabled: bool,
    pub theme: Theme,
}

/// The theme of a settings file that names none.
pub fn default_theme() -> (theme: Theme)
    ensures
        theme == Theme::Auto,
{
    Theme::Auto
}

impl AppSettings {
    /// The settings of a fresh installation on `platform`.
    ///
    /// The context menu entry counts as enabled only on macOS, where the
    /// system registers the service with the application bundle itself.
    pub fn default_for(platform: Platform) -> (settings: AppSettings)
        ensures
            settings.api_key@ == Seq::<char>::empty(),
            settings.notify_mode == NotifyMode::Notification,
            settings.output_mode == OutputMode::Alongside,
            settings.output_directory@ == Seq::<char>::empty(),
            settings.context_menu_enabled == (platform == Platform::MacOs),
            settings.theme == Theme::Auto,
    {
        AppSettings {
            api_key: String::new(),
            notify_mode: NotifyMode::Notification,
            output_mode: OutputMode::Alongside,
            output_directory: String::new(),
            context_menu_enabled: platform == Platform::MacOs,
            theme: default_theme(),
        }
    }
}

} // verus!
