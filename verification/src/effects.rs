//! What the embedding program is asked to do.

use vstd::prelude::*;

use crate::strings::Strings;

verus! {

/// The window's timers.
#[derive(Clone, Copy, Debug, PartialEq, Eq, Structural)]
pub enum TimerKind {
    Poll,
    Countdown,
    ResetPoll,
    UpdateCheck,
}

/// Where a window is put in the stacking order.
#[derive(Clone, Copy, Debug, PartialEq, Eq, Structural)]
pub enum ZOrder {
    Top,
    TopMost,
    NotTopMost,
}

/// Whose expired credentials a balloon reports.
#[derive(Clone, Copy, Debug, PartialEq, Eq, Structural)]
pub enum AuthBalloon {
    Claude,
    Codex,
    Antigravity,
}

/// Boxes that tell the user how an update went.
#[derive(Clone, Copy, Debug, PartialEq, Eq, Structural)]
pub enum UpdateMessage {
    InProgress,
    UpToDate,
    Failed,
}

/// One thing to do. A list of effects is carried out in order.
#[derive(Clone, Copy, Debug, PartialEq, Eq, Structural)]
pub enum Effect {
    /// Writes the settings file from the current state.
    SaveSettings,
    /// Stores the report of a successful poll.
    PersistSnapshot,
    /// Sizes and places the window.
    Position,
    /// Draws the popup.
    Render,
    /// Brings the tray icon up to date.
    SyncTrayIcons,
    /// Polls the providers on another thread.
    StartPoll,
    /// Tells the window that usage has changed.
    PostUsageUpdated,
    /// Tells the window that an update check is over.
    PostUpdateCheckComplete,
    /// Asks the window to close.
    PostClose,
    /// Toggles the widget once the tray message is over.
    PostTrayToggle,
    /// Plans the next countdown tick.
    ScheduleCountdown,
    /// Plans the next automatic update check.
    ScheduleUpdateCheck,
    SetTimer(TimerKind, u32),
    KillTimer(TimerKind),
    NotifyAuth(AuthBalloon),
    /// Reads the system theme and reacts to a change.
    CheckTheme,
    /// Reads the system language and reacts to a change.
    CheckLanguage,
    /// Resizes the window where its content outgrew it.
    SyncGeometry,
    /// Reads the monitor's DPI.
    RefreshDpi,
    SetDpi(u32),
    /// Ignores tray movements for this many milliseconds.
    SuppressTrayReposition(u64),
    UpdateWindowTitle,
    /// Reads the start-up entry and writes its opposite.
    ToggleStartup,
    SetZOrder(ZOrder),
    /// Shows the window in this place of the stacking order, without activating it.
    ShowWindow(ZOrder),
    /// Shows the window for the first time, without activating it.
    ShowWindowFirst,
    HideWindow,
    /// Anchors the popup to a taskbar.
    SelectTaskbar(usize),
    /// Watches for a restart of the shell.
    StartWatchdog,
    UnhookTrayEvents,
    RemoveTrayIcons,
    Quit,
    ShowContextMenu,
    /// Paints into the device context of a paint message.
    PaintContent,
    /// Marks the window's area as drawn.
    ValidateWindow,
    /// Takes the mouse for a drag.
    CaptureForDrag,
    /// Takes the mouse for a resize, which ends at once where that fails.
    CaptureForResize,
    MoveWindow { x: i32, y: i32, width: i32, height: i32 },
    /// Asks which credentials there are now.
    ReadCredentialStamps,
    /// Starts an update check.
    BeginUpdateCheck { interactive: bool },
    /// Starts installing the release that the last check found.
    BeginUpdateApply,
    BeginWingetUpdate,
    /// Asks the update service for the latest release.
    CheckForUpdates,
    /// Asks the user whether to install a release.
    PromptUpdate,
    /// Hands a release to the update service.
    InstallRelease,
    ShowUpdateMessage(UpdateMessage),
}

pub open spec fn spec_balloon_text(balloon: AuthBalloon, strings: Strings) -> (
    &'static str,
    &'static str,
) {
    match balloon {
        AuthBalloon::Claude => (strings.token_expired_title, strings.token_expired_body),
        AuthBalloon::Codex => (
            strings.codex_token_expired_title,
            strings.codex_token_expired_body,
        ),
        AuthBalloon::Antigravity => (
            strings.antigravity_token_expired_title,
            strings.antigravity_token_expired_body,
        ),
    }
}

/// Title and body of a balloon.
#[verifier::when_used_as_spec(spec_balloon_text)]
pub fn balloon_text(balloon: AuthBalloon, strings: Strings) -> (r: (&'static str, &'static str))
    ensures
        r == spec_balloon_text(balloon, strings),
{
    match balloon {
        AuthBalloon::Claude => (strings.token_expired_title, strings.token_expired_body),
        AuthBalloon::Codex => (
            strings.codex_token_expired_title,
            strings.codex_token_expired_body,
        ),
        AuthBalloon::Antigravity => (
            strings.antigravity_token_expired_title,
            strings.antigravity_token_expired_body,
        ),
    }
}

} // verus!
