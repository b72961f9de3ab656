//! What the process shows of itself: whether it runs in the background, and
//! how the result of a batch reaches the user.

use vstd::prelude::*;
use vstd::string::StringExecFns;
use crate::settings::NotifyMode;
use crate::text::{decimal, decimal_string};

verus! {

/// The exit code of a background process that has finished its work.
pub const EXIT_CODE_DONE: i32 = 0;

/// The surface on which a message is shown.
#[derive(Debug, Clone, Copy, PartialEq, Eq, Structural)]
pub enum NotifySurface {
    /// A dialog inside the application window.
    Dialog,
    /// A notification of the operating system.
    System,
}

/// A message for the user, and where to show it.
#[derive(Debug, Clone, PartialEq, Eq)]
pub struct Notice {
    pub surface: NotifySurface,
    pub message: String,
}

/// A request to end the process.
#[derive(Debug, Clone, Copy, PartialEq, Eq, Structural)]
pub struct ExitRequest {
    pub code: i32,
    pub delay_ms: u64,
}

/// A launch is silent when the interface has never reported that it is ready
/// and no window is visible.
pub open spec fn silent_launch(frontend_ready: bool, window_visible: bool) -> bool {
    !frontend_ready && !window_visible
}

/// Classifies the launch that a request for compression belongs to.
pub fn is_silent_launch(frontend_ready: bool, window_visible: bool) -> (silent: bool)
    ensures
        silent == silent_launch(frontend_ready, window_visible),
{
    !frontend_ready && !window_visible
}

/// The text that tells the result of a batch.
pub open spec fn batch_message_text(successes: nat, failures: nat) -> Seq<char> {
    if failures == 0 {
        "compressed "@ + decimal(successes) + " images"@
    } else {
        "compressed: "@ + decimal(successes) + " succeeded, "@ + decimal(failures) + " failed"@
    }
}

/// Writes the text that tells the result of a batch.
pub fn batch_message(successes: u64, failures: u64) -> (message: String)
    ensures
        message@ == batch_message_text(successes as nat, failures as nat),
{
    if failures == 0 {
        let mut message = String::from_str("compressed ");
        message.append(decimal_string(successes).as_str());
        message.append(" images");
        message
    } else {
        let mut message = String::from_str("compressed: ");
        message.append(decimal_string(successes).as_str());
        message.append(" succeeded, ");
        message.append(decimal_string(failures).as_str());
        message.append(" failed");
        message
    }
}

/// The surface for the result of a batch, if it is shown at all. A process in
/// the background has no window that could hold a dialog, so `force_system`
/// overrides the user's choice; and a batch without files is not reported.
pub open spec fn batch_surface(
    successes: nat,
    failures: nat,
    mode: NotifyMode,
    force_system: bool,
) -> Option<NotifySurface> {
    if successes + failures == 0 {
        None
    } else if force_system {
        Some(NotifySurface::System)
    } else {
        match mode {
            NotifyMode::Silent => None,
            NotifyMode::Dialog => Some(NotifySurface::Dialog),
            NotifyMode::Notification => Some(NotifySurface::System),
        }
    }
}

/// Decides whether, where and with which words the result of a batch is
/// shown.
pub fn notify_batch_result(
    successes: u64,
    failures: u64,
    mode: NotifyMode,
    force_system_notification: bool,
) -> (notice: Option<Notice>)
    ensures
        match batch_surface(successes as nat, failures as nat, mode, force_system_notification) {
            Some(surface) => notice is Some && notice->0.surface == surface && notice->0.message@
                == batch_message_text(successes as nat, failures as nat),
            None => notice is None,
        },
{
    if successes == 0 && failures == 0 {
        return None;
    }
    let surface = if force_system_notification {
        NotifySurface::System
    } else {
        match mode {
            NotifyMode::Silent => {
                return None;
            },
            NotifyMode::Dialog => NotifySurface::Dialog,
            NotifyMode::Notification => NotifySurface::System,
        }
    };
    Some(Notice { surface, message: batch_message(successes, failures) })
}

/// The exit of a process that has closed its batch: only a process in the
/// background ends itself, after a pause that lets the notification appear.
pub open spec fn exit_after_batch(background: bool) -> Option<ExitRequest> {
    if background {
        Some(ExitRequest { code: EXIT_CODE_DONE, delay_ms: crate::batch::EXIT_DELAY_MS })
    } else {
        None
    }
}

/// Decides whether the process ends itself once its batch is closed.
pub fn request_exit(background: bool) -> (request: Option<ExitRequest>)
    ensures
        request == exit_after_batch(background),
{
    if background {
        Some(ExitRequest { code: EXIT_CODE_DONE, delay_ms: crate::batch::EXIT_DELAY_MS })
    } else {
        None
    }
}

/// A process in the background never shows a dialog, whatever the user has
/// configured: what it shows goes to the system's notifications.
pub proof fn lemma_background_never_shows_a_dialog(successes: nat, failures: nat, mode: NotifyMode)
    ensures
        batch_surface(successes, failures, mode, true) != Some(NotifySurface::Dialog),
        successes + failures > 0 ==> batch_surface(successes, failures, mode, true) == Some(
            NotifySurface::System,
        ),
{
}

/// The name of an event that the interface listens for.
#[derive(Debug, Clone, Copy, PartialEq, Eq, Structural)]
pub enum UiEvent {
    /// Files to list, without compressing them.
    AddFiles,
    /// Files to list and to compress at once.
    CompressFiles,
    /// Progress of one file.
    CompressProgress,
    /// A message to show in a dialog.
    ShowResultDialog,
}

/// The name under which an event is sent.
pub open spec fn event_text(event: UiEvent) -> Seq<char> {
    match event {
        UiEvent::AddFiles => "add-files"@,
        UiEvent::CompressFiles => "compress-files"@,
        UiEvent::CompressProgress => "compress-progress"@,
        UiEvent::ShowResultDialog => "show-result-dialog"@,
    }
}

impl UiEvent {
    /// The name under which this event is sent.
    pub fn name(&self) -> (name: &'static str)
        ensures
            name@ == event_text(*self),
    {
        match self {
            UiEvent::AddFiles => "add-files",
            UiEvent::CompressFiles => "compress-files",
            UiEvent::CompressProgress => "compress-progress",
            UiEvent::ShowResultDialog => "show-result-dialog",
        }
    }
}

} // verus!
