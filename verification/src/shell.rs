//! The few decisions of the shell that are not about the hotkey, the session
//! or the worker: what a tray menu entry does, how the tray names the hotkey,
//! and which window survives a request to close it.

use vstd::prelude::*;
use vstd::string::*;
use crate::session::Notification;
use crate::text::same_text;

verus! {

/// What choosing an entry of the tray menu asks for.
#[derive(Clone, Copy, Debug, PartialEq, Eq, Structural)]
pub enum TrayCommand {
    /// Leave the application.
    Quit,
    /// Show the floating overlay.
    ShowOverlay,
    /// Open the main window, which holds the settings.
    OpenSettings,
}

/// The command that the identifier of a menu entry stands for.
pub open spec fn tray_command_named(id: Seq<char>) -> Option<TrayCommand> {
    if id == "quit"@ {
        Some(TrayCommand::Quit)
    } else if id == "record"@ {
        Some(TrayCommand::ShowOverlay)
    } else if id == "settings"@ {
        Some(TrayCommand::OpenSettings)
    } else {
        None
    }
}

/// The name under which a notification is emitted.
pub open spec fn event_named(notification: Notification) -> Seq<char> {
    match notification {
        Notification::RecordingStart => "recording-start"@,
        Notification::RecordingStop => "recording-stop"@,
    }
}

/// Looks up the command that the identifier of a menu entry stands for.
pub fn tray_command(id: &str) -> (command: Option<TrayCommand>)
    ensures
        command == tray_command_named(id@),
{
    if same_text(id, "quit") {
        Some(TrayCommand::Quit)
    } else if same_text(id, "record") {
        Some(TrayCommand::ShowOverlay)
    } else if same_text(id, "settings") {
        Some(TrayCommand::OpenSettings)
    } else {
        None
    }
}

/// The identifier of the menu entry that asks for a command.
pub fn tray_id(command: TrayCommand) -> (id: &'static str)
    ensures
        id@ == match command {
            TrayCommand::Quit => "quit"@,
            TrayCommand::ShowOverlay => "record"@,
            TrayCommand::OpenSettings => "settings"@,
        },
{
    match command {
        TrayCommand::Quit => "quit",
        TrayCommand::ShowOverlay => "record",
        TrayCommand::OpenSettings => "settings",
    }
}

/// The text of the tray entry that tells the user how to record, given how
/// the hotkey is shown.
pub fn record_label(shortcut_display: &str) -> (label: String)
    ensures
        label@ == "Hold "@ + shortcut_display@ + " to Record"@,
{
    let mut label = "Hold ".to_owned();
    label.append(shortcut_display);
    label.append(" to Record");
    label
}

/// The name under which a notification is emitted.
pub fn event_name(notification: Notification) -> (name: &'static str)
    ensures
        name@ == event_named(notification),
{
    match notification {
        Notification::RecordingStart => "recording-start",
        Notification::RecordingStop => "recording-stop",
    }
}

/// Whether the overlay is to be shown when a notification goes out.
pub fn shows_overlay(notification: Notification) -> (show: bool)
    ensures
        show == (notification == Notification::RecordingStart),
{
    notification == Notification::RecordingStart
}

/// Whether a window is hidden rather than closed when the user closes it.
/// The main window is, so that its state is kept and it comes back at once.
pub fn hides_on_close(window_label: &str) -> (hides: bool)
    ensures
        hides == (window_label@ == "main-app"@),
{
    same_text(window_label, "main-app")
}

} // verus!
