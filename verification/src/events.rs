//! What the window's messages lead to.

use vstd::prelude::*;

use crate::effects::{Effect, TimerKind};
use crate::placement::TRAY_ICON_UPDATE_REPOSITION_SUPPRESS_MS;
use crate::polling::{
    poll_timer_action, poll_timer_action_of, reset_poll_due, update_display, PollTimerAction,
};
use crate::settings::LanguageId;
use crate::state::{refresh_usage_texts, same_but_shown, AppState, Preferences};
use crate::strings::{resolve_language, Languages, Strings};
use crate::time::Timestamp;

verus! {

// ---- drawing ----------------------------------------------------------------------------

/// A change of size: the window is redrawn only while the user resizes it.
pub fn window_resized(state: &Option<AppState>) -> (r: Vec<Effect>)
    ensures
        r@ == if *state matches Some(s) && s.pointer.resize_session is Some {
            seq![Effect::Render]
        } else {
            Seq::empty()
        },
{
    match state {
        Some(s) => if s.pointer.resize_session.is_some() {
            vec![Effect::Render]
        } else {
            Vec::new()
        },
        None => Vec::new(),
    }
}

/// A request to paint: a layered window has nothing to paint and only says so.
pub fn paint_requested(state: &Option<AppState>) -> (r: Effect)
    ensures
        r == if *state matches Some(s) && s.embedded {
            Effect::ValidateWindow
        } else {
            Effect::PaintContent
        },
{
    match state {
        Some(s) => if s.embedded {
            Effect::ValidateWindow
        } else {
            Effect::PaintContent
        },
        None => Effect::PaintContent,
    }
}

// ---- changes around the window ------------------------------------------------------------

/// A change that the system reports.
#[derive(Clone, Copy, Debug, PartialEq, Eq, Structural)]
pub enum EnvironmentChange {
    Display,
    Dpi(u32),
    Setting,
}

/// The DPI in the parameter of a DPI message: its low sixteen bits.
pub fn dpi_in_message(wparam: u64) -> (r: u32)
    ensures
        r == wparam % 0x1_0000,
{
    (wparam % 0x1_0000) as u32
}

pub open spec fn environment_effects(change: EnvironmentChange) -> Seq<Effect> {
    (match change {
        EnvironmentChange::Display => Seq::empty(),
        EnvironmentChange::Dpi(dpi) => seq![Effect::SetDpi(dpi)],
        EnvironmentChange::Setting => seq![Effect::CheckTheme, Effect::CheckLanguage],
    }) + seq![Effect::RefreshDpi, Effect::Position, Effect::Render]
}

/// Reacts to a change around the window: it is placed and drawn anew.
pub fn environment_changed(change: EnvironmentChange) -> (r: Vec<Effect>)
    ensures
        r@ == environment_effects(change),
{
    let mut effects: Vec<Effect> = Vec::new();
    match change {
        EnvironmentChange::Display => {},
        EnvironmentChange::Dpi(dpi) => {
            effects.push(Effect::SetDpi(dpi));
        },
        EnvironmentChange::Setting => {
            effects.push(Effect::CheckTheme);
            effects.push(Effect::CheckLanguage);
        },
    }
    effects.push(Effect::RefreshDpi);
    effects.push(Effect::Position);
    effects.push(Effect::Render);
    assert(effects@ =~= environment_effects(change));
    effects
}

/// Takes in whether the system is dark; only a change is drawn.
pub fn check_theme_change(state: &mut Option<AppState>, new_dark: bool) -> (r: Vec<Effect>)
    ensures
        (match *old(state) {
            Some(s) => *final(state) == Some(AppState { is_dark: new_dark, ..s }) && r@
                == if s.is_dark != new_dark {
                seq![Effect::Render]
            } else {
                Seq::empty()
            },
            None => *final(state) is None && r@ == Seq::<Effect>::empty(),
        }),
{
    let mut effects: Vec<Effect> = Vec::new();
    let taken: Option<AppState> = state.take();
    if let Some(mut s) = taken {
        if s.is_dark != new_dark {
            s.is_dark = new_dark;
            effects.push(Effect::Render);
        }
        *state = Some(s);
    }
    effects
}

/// The preferences with another choice of language. `system` is the language of the
/// system.
pub open spec fn with_language(
    prefs: Preferences,
    language_override: Option<LanguageId>,
    system: LanguageId,
) -> Preferences {
    Preferences {
        language_override,
        language: resolve_language(language_override, system),
        ..prefs
    }
}

/// Chooses a language and puts every text in it.
pub fn apply_language_to_state(
    state: &mut AppState,
    language_override: Option<LanguageId>,
    system: LanguageId,
    now: Timestamp,
    languages: &Languages,
)
    ensures
        same_but_shown(
            *final(state),
            (AppState { prefs: with_language(old(state).prefs, language_override, system), ..*old(
                state,
            ) }),
        ),
        final(state).shows_current(now, *languages),
{
    state.prefs.language_override = language_override;
    state.prefs.language = resolve_language(language_override, system);
    refresh_usage_texts(state, now, languages);
}

/// Whether the texts have to change to the language of the system: the user chose
/// none, and the system has another than the texts.
pub open spec fn follows_system(s: AppState, system: LanguageId) -> bool {
    s.prefs.language_override is None && s.prefs.language != system
}

/// Follows the language of the system, unless the user chose one. Tells whether the
/// texts changed.
pub fn update_language_change(
    state: &mut Option<AppState>,
    system: LanguageId,
    now: Timestamp,
    languages: &Languages,
) -> (r: bool)
    ensures
        (match (*old(state), *final(state)) {
            (Some(before), Some(after)) => r == follows_system(before, system) && if r {
                same_but_shown(
                    after,
                    (AppState { prefs: with_language(before.prefs, None, system), ..before }),
                ) && after.shows_current(now, *languages)
            } else {
                after == before
            },
            (None, None) => !r,
            _ => false,
        }),
{
    let taken: Option<AppState> = state.take();
    match taken {
        Some(mut s) => {
            let changed: bool = s.prefs.language_override.is_none() && s.prefs.language != system;
            if changed {
                apply_language_to_state(&mut s, None, system, now, languages);
            }
            *state = Some(s);
            changed
        },
        None => false,
    }
}

/// Follows the language of the system and draws a change.
pub fn check_language_change(
    state: &mut Option<AppState>,
    system: LanguageId,
    now: Timestamp,
    languages: &Languages,
) -> (r: Vec<Effect>)
    ensures
        r@ == if *old(state) matches Some(s) && follows_system(s, system) {
            seq![Effect::UpdateWindowTitle, Effect::Render]
        } else {
            Seq::empty()
        },
        (match (*old(state), *final(state)) {
            (Some(before), Some(after)) => if follows_system(before, system) {
                same_but_shown(
                    after,
                    (AppState { prefs: with_language(before.prefs, None, system), ..before }),
                ) && after.shows_current(now, *languages)
            } else {
                after == before
            },
            (None, None) => true,
            _ => false,
        }),
{
    if update_language_change(state, system, now, languages) {
        vec![Effect::UpdateWindowTitle, Effect::Render]
    } else {
        Vec::new()
    }
}

/// Once the texts follow the system they need not be changed again.
pub proof fn following_the_system_settles(s: AppState, system: LanguageId)
    ensures
        !follows_system(
            (AppState { prefs: with_language(s.prefs, None, system), ..s }),
            system,
        ),
{
}

// ---- timers and messages of the program itself ----------------------------------------------

pub open spec fn timer_effects(state: Option<AppState>, timer: TimerKind) -> Seq<Effect> {
    match timer {
        TimerKind::Poll => match poll_timer_action_of(state) {
            PollTimerAction::Nothing => Seq::empty(),
            PollTimerAction::Poll => seq![Effect::StartPoll],
            PollTimerAction::CompareCredentials(_) => seq![Effect::ReadCredentialStamps],
        },
        TimerKind::Countdown => seq![Effect::Render, Effect::ScheduleCountdown],
        TimerKind::ResetPoll => if state matches Some(s) && !s.polling.auth_error_paused_polling {
            seq![Effect::StartPoll]
        } else {
            Seq::empty()
        },
        TimerKind::UpdateCheck => seq![Effect::BeginUpdateCheck { interactive: false }],
    }
}

/// Reacts to a timer. Only the countdown changes the state, whose texts it brings up
/// to date unless the last poll failed.
pub fn timer_elapsed(
    state: &mut Option<AppState>,
    timer: TimerKind,
    now: Timestamp,
    languages: &Languages,
) -> (r: Vec<Effect>)
    ensures
        r@ == timer_effects(*old(state), timer),
        (match (*old(state), *final(state)) {
            (Some(before), Some(after)) => if timer is Countdown && before.polling.last_poll_ok {
                same_but_shown(after, before) && after.shows_current(now, *languages)
            } else {
                after == before
            },
            (None, None) => true,
            _ => false,
        }),
{
    match timer {
        TimerKind::Poll => match poll_timer_action(state) {
            PollTimerAction::Nothing => Vec::new(),
            PollTimerAction::Poll => vec![Effect::StartPoll],
            PollTimerAction::CompareCredentials(_) => vec![Effect::ReadCredentialStamps],
        },
        TimerKind::Countdown => {
            update_display(state, now, languages);
            vec![Effect::Render, Effect::ScheduleCountdown]
        },
        TimerKind::ResetPoll => if reset_poll_due(state) {
            vec![Effect::StartPoll]
        } else {
            Vec::new()
        },
        TimerKind::UpdateCheck => vec![Effect::BeginUpdateCheck { interactive: false }],
    }
}

/// While polling is paused no timer polls without looking at the credentials first.
pub proof fn paused_polling_starts_no_poll(s: AppState, timer: TimerKind)
    requires
        s.polling.auth_error_paused_polling,
    ensures
        !timer_effects(Some(s), timer).contains(Effect::StartPoll),
{
}

/// Reacts to new usage data: the window follows its content and the tray icon its
/// tooltip, and the movement of the tray that this causes is ignored.
pub fn usage_updated() -> (r: Vec<Effect>)
    ensures
        r@ == seq![
            Effect::CheckTheme,
            Effect::CheckLanguage,
            Effect::SyncGeometry,
            Effect::Render,
            Effect::ScheduleCountdown,
            Effect::SuppressTrayReposition(750),
            Effect::SyncTrayIcons,
        ],
{
    vec![
        Effect::CheckTheme,
        Effect::CheckLanguage,
        Effect::SyncGeometry,
        Effect::Render,
        Effect::ScheduleCountdown,
        Effect::SuppressTrayReposition(TRAY_ICON_UPDATE_REPOSITION_SUPPRESS_MS),
        Effect::SyncTrayIcons,
    ]
}

/// Reacts to the end of the window.
pub fn window_destroyed() -> (r: Vec<Effect>)
    ensures
        r@ == seq![Effect::UnhookTrayEvents, Effect::RemoveTrayIcons, Effect::Quit],
{
    vec![Effect::UnhookTrayEvents, Effect::RemoveTrayIcons, Effect::Quit]
}

// ---- the tray -------------------------------------------------------------------------------

/// What a click on the tray icon asks for.
#[derive(Clone, Copy, Debug, PartialEq, Eq, Structural)]
pub enum TrayAction {
    ToggleWidget,
    ShowContextMenu,
    Nothing,
}

/// Reacts to a click on the tray icon. Toggling waits until the click is over.
pub fn tray_clicked(action: TrayAction) -> (r: Option<Effect>)
    ensures
        r == (match action {
            TrayAction::ToggleWidget => Some(Effect::PostTrayToggle),
            TrayAction::ShowContextMenu => Some(Effect::ShowContextMenu),
            TrayAction::Nothing => None,
        }),
{
    match action {
        TrayAction::ToggleWidget => Some(Effect::PostTrayToggle),
        TrayAction::ShowContextMenu => Some(Effect::ShowContextMenu),
        TrayAction::Nothing => None,
    }
}

/// The kinds of tray icons.
#[derive(Clone, Copy, Debug, PartialEq, Eq, Structural)]
pub enum TrayIconKind {
    App,
}

/// A tray icon: it shows no percentage, and its tooltip is the window's title.
#[derive(Clone, Copy, Debug, PartialEq, Eq)]
pub struct TrayIconData {
    pub kind: TrayIconKind,
    pub percent: Option<u8>,
    pub tooltip: &'static str,
}

pub open spec fn tray_icons(strings: Strings) -> Seq<TrayIconData> {
    seq![
        TrayIconData { kind: TrayIconKind::App, percent: None, tooltip: strings.window_title },
    ]
}

/// The tray icons of the program: one, whatever the providers do.
pub fn app_tray_icon_data(strings: Strings) -> (r: Vec<TrayIconData>)
    ensures
        r@ == tray_icons(strings),
{
    vec![TrayIconData { kind: TrayIconKind::App, percent: None, tooltip: strings.window_title }]
}

/// The tray icons for a state.
pub fn tray_icon_data_from_state(state: &Option<AppState>, languages: &Languages) -> (r: Vec<
    TrayIconData,
>)
    ensures
        r@ == (match *state {
            Some(s) => tray_icons(languages.strings(s.prefs.language)),
            None => Seq::empty(),
        }),
{
    match state {
        Some(s) => app_tray_icon_data(languages.strings(s.prefs.language)),
        None => Vec::new(),
    }
}

// ---- what the messages are for --------------------------------------------------------------

/// Whatever changes around the window, it is placed and then drawn at the DPI of its
/// monitor; a message about the DPI brings its own first, and a changed setting is read.
pub proof fn changes_around_the_window_are_followed(change: EnvironmentChange)
    ensures
        ({
            let effects = environment_effects(change);
            let n = effects.len() as int;
            &&& n >= 3
            &&& effects[n - 3] == Effect::RefreshDpi
            &&& effects[n - 2] == Effect::Position
            &&& effects[n - 1] == Effect::Render
            &&& change matches EnvironmentChange::Dpi(dpi) ==> effects[0] == Effect::SetDpi(dpi)
            &&& change is Setting ==> effects.contains(Effect::CheckTheme) && effects.contains(
                Effect::CheckLanguage,
            )
        }),
{
    let effects = environment_effects(change);
    if change is Setting {
        assert(effects[0] == Effect::CheckTheme && effects[1] == Effect::CheckLanguage);
    }
}

/// The chosen language is the one in effect; without a choice it is the system's. Nothing
/// else of the preferences changes.
pub proof fn language_is_the_chosen_or_the_systems(
    prefs: Preferences,
    choice: Option<LanguageId>,
    system: LanguageId,
)
    ensures
        ({
            let after = with_language(prefs, choice, system);
            &&& after.language_override == choice
            &&& choice matches Some(language) ==> after.language == language
            &&& choice is None ==> after.language == system
            &&& after == (Preferences {
                language: after.language,
                language_override: after.language_override,
                ..prefs
            })
        }),
{
}

/// The texts follow the system's language only where the user chose none, and only where
/// that changes them.
pub proof fn a_chosen_language_stays(s: AppState, system: LanguageId)
    ensures
        s.prefs.language_override is Some ==> !follows_system(s, system),
        s.prefs.language_override is None ==> (follows_system(s, system) <==> s.prefs.language
            != system),
{
}

/// Each timer does its own work: the poll timer and the fast one poll unless polling is
/// paused, the countdown draws and plans its next tick, and the update check starts one
/// that the user did not ask for.
pub proof fn timers_do_their_own_work(s: AppState, timer: TimerKind)
    ensures
        ({
            let effects = timer_effects(Some(s), timer);
            let paused = s.polling.auth_error_paused_polling;
            &&& effects.contains(Effect::StartPoll) <==> (timer is Poll || timer is ResetPoll)
                && !paused
            &&& effects.contains(Effect::ReadCredentialStamps) <==> timer is Poll && paused
            &&& effects.contains(Effect::Render) <==> timer is Countdown
            &&& effects.contains(Effect::ScheduleCountdown) <==> timer is Countdown
            &&& effects.contains(Effect::BeginUpdateCheck { interactive: false })
                <==> timer is UpdateCheck
            &&& !effects.contains(Effect::BeginUpdateCheck { interactive: true })
        }),
{
    let effects = timer_effects(Some(s), timer);
    match timer {
        TimerKind::Poll => {
            assert(effects[0] == if s.polling.auth_error_paused_polling {
                Effect::ReadCredentialStamps
            } else {
                Effect::StartPoll
            });
        },
        TimerKind::Countdown => {
            assert(effects[0] == Effect::Render && effects[1] == Effect::ScheduleCountdown);
        },
        TimerKind::ResetPoll => {
            if !s.polling.auth_error_paused_polling {
                assert(effects[0] == Effect::StartPoll);
            }
        },
        TimerKind::UpdateCheck => {
            assert(effects[0] == Effect::BeginUpdateCheck { interactive: false });
        },
    }
}

/// There is one tray icon, with the window's title and no percentage.
pub proof fn tray_icon_carries_the_title(strings: Strings)
    ensures
        tray_icons(strings).len() == 1,
        tray_icons(strings)[0].tooltip == strings.window_title,
        tray_icons(strings)[0].percent is None,
{
}

} // verus!
