//! What a menu command does.

use vstd::prelude::*;

use crate::cells::CellState;
use crate::effects::{Effect, TimerKind, ZOrder};
use crate::geometry::reset_saved_position;
use crate::menu::Command;
use crate::models::QuotaFamilyId;
use crate::paint::is_family_shown;
use crate::settings::{GithubCopilotPlan, LanguageId};
use crate::state::{
    only_display_choices_change_what_is_shown, refresh_usage_texts, same_but_shown, states_of,
    AppState, CellStates, PollingState, Preferences,
};
use crate::strings::{resolve_language, Languages};
use crate::time::Timestamp;
use crate::updates::{version_action, version_action_of};

verus! {

// ---- showing the window ---------------------------------------------------------------

pub open spec fn spec_order_for(always_on_top: bool) -> ZOrder {
    if always_on_top {
        ZOrder::TopMost
    } else {
        ZOrder::NotTopMost
    }
}

/// Where a preference puts the window. Both directions are explicit, so that an older
/// order cannot stay.
#[verifier::when_used_as_spec(spec_order_for)]
pub fn order_for(always_on_top: bool) -> (r: ZOrder)
    ensures
        r == spec_order_for(always_on_top),
{
    if always_on_top {
        ZOrder::TopMost
    } else {
        ZOrder::NotTopMost
    }
}

/// Shows the window without activating it: it is placed, enters the topmost band once
/// to become visible, and leaves it unless it is to stay on top.
pub open spec fn showing_effects(always_on_top: bool) -> Seq<Effect> {
    seq![
        Effect::Position,
        Effect::ShowWindow(
            if always_on_top {
                ZOrder::TopMost
            } else {
                ZOrder::Top
            },
        ),
        Effect::Render,
        Effect::SetZOrder(ZOrder::TopMost),
    ] + if always_on_top {
        Seq::empty()
    } else {
        seq![Effect::SetZOrder(ZOrder::NotTopMost)]
    }
}

/// Effects of toggling the widget.
pub open spec fn toggle_effects(prefs: Preferences) -> Seq<Effect> {
    seq![Effect::SaveSettings] + if prefs.widget_visible {
        seq![Effect::HideWindow]
    } else {
        showing_effects(prefs.always_on_top)
    }
}

fn list_toggle_effects(prefs: Preferences) -> (r: Vec<Effect>)
    ensures
        r@ == toggle_effects(prefs),
{
    let mut effects: Vec<Effect> = vec![Effect::SaveSettings];
    if prefs.widget_visible {
        effects.push(Effect::HideWindow);
    } else {
        effects.push(Effect::Position);
        effects.push(
            Effect::ShowWindow(
                if prefs.always_on_top {
                    ZOrder::TopMost
                } else {
                    ZOrder::Top
                },
            ),
        );
        effects.push(Effect::Render);
        effects.push(Effect::SetZOrder(ZOrder::TopMost));
        if !prefs.always_on_top {
            effects.push(Effect::SetZOrder(ZOrder::NotTopMost));
        }
    }
    assert(effects@ =~= toggle_effects(prefs));
    effects
}

/// Shows a hidden widget or hides a shown one, and saves that.
pub fn toggle_widget_visibility(state: &mut Option<AppState>) -> (r: Vec<Effect>)
    ensures
        (match *old(state) {
            Some(s) => *final(state) == Some(
                AppState {
                    prefs: Preferences { widget_visible: !s.prefs.widget_visible, ..s.prefs },
                    ..s
                },
            ) && r@ == toggle_effects(s.prefs),
            None => *final(state) is None && r@ == Seq::<Effect>::empty(),
        }),
{
    let taken: Option<AppState> = state.take();
    match taken {
        Some(mut s) => {
            let effects: Vec<Effect> = list_toggle_effects(s.prefs);
            s.prefs.widget_visible = !s.prefs.widget_visible;
            *state = Some(s);
            effects
        },
        None => Vec::new(),
    }
}

// ---- preferences ------------------------------------------------------------------------

/// Shows or hides a provider; the last one that is shown stays. Hiding Copilot forgets
/// its plan.
pub open spec fn provider_toggled(prefs: Preferences, family: QuotaFamilyId) -> Preferences {
    match family {
        QuotaFamilyId::Claude => if prefs.show_codex || prefs.show_antigravity
            || prefs.show_github_copilot || !prefs.show_claude_code {
            Preferences { show_claude_code: !prefs.show_claude_code, ..prefs }
        } else {
            prefs
        },
        QuotaFamilyId::Codex => if prefs.show_claude_code || prefs.show_antigravity
            || prefs.show_github_copilot || !prefs.show_codex {
            Preferences { show_codex: !prefs.show_codex, ..prefs }
        } else {
            prefs
        },
        QuotaFamilyId::Antigravity => if prefs.show_claude_code || prefs.show_codex
            || prefs.show_github_copilot || !prefs.show_antigravity {
            Preferences { show_antigravity: !prefs.show_antigravity, ..prefs }
        } else {
            prefs
        },
        QuotaFamilyId::GithubCopilot => if prefs.show_claude_code || prefs.show_codex
            || prefs.show_antigravity || !prefs.show_github_copilot {
            Preferences {
                show_github_copilot: !prefs.show_github_copilot,
                github_copilot_plan: if prefs.show_github_copilot {
                    GithubCopilotPlan::Unknown
                } else {
                    prefs.github_copilot_plan
                },
                ..prefs
            }
        } else {
            prefs
        },
    }
}

/// Toggles a provider.
pub fn toggle_provider(prefs: &mut Preferences, family: QuotaFamilyId)
    ensures
        *final(prefs) == provider_toggled(*old(prefs), family),
{
    match family {
        QuotaFamilyId::Claude => {
            if prefs.show_codex || prefs.show_antigravity || prefs.show_github_copilot
                || !prefs.show_claude_code {
                prefs.show_claude_code = !prefs.show_claude_code;
            }
        },
        QuotaFamilyId::Codex => {
            if prefs.show_claude_code || prefs.show_antigravity || prefs.show_github_copilot
                || !prefs.show_codex {
                prefs.show_codex = !prefs.show_codex;
            }
        },
        QuotaFamilyId::Antigravity => {
            if prefs.show_claude_code || prefs.show_codex || prefs.show_github_copilot
                || !prefs.show_antigravity {
                prefs.show_antigravity = !prefs.show_antigravity;
            }
        },
        QuotaFamilyId::GithubCopilot => {
            if prefs.show_claude_code || prefs.show_codex || prefs.show_antigravity
                || !prefs.show_github_copilot {
                prefs.show_github_copilot = !prefs.show_github_copilot;
                if !prefs.show_github_copilot {
                    prefs.github_copilot_plan = GithubCopilotPlan::Unknown;
                }
            }
        },
    }
}

/// Chooses a Copilot plan, which also shows Copilot.
pub fn apply_github_copilot_plan_selection(
    show_github_copilot: &mut bool,
    github_copilot_plan: &mut GithubCopilotPlan,
    plan: GithubCopilotPlan,
)
    ensures
        *final(show_github_copilot),
        *final(github_copilot_plan) == plan,
{
    *show_github_copilot = true;
    *github_copilot_plan = plan;
}

/// The preferences that a command leads to. `system` is the language of the system.
pub open spec fn prefs_after(
    prefs: Preferences,
    command: Command,
    system: LanguageId,
) -> Preferences {
    match command {
        Command::Refresh | Command::Exit | Command::ToggleStartup | Command::VersionAction => prefs,
        Command::ResetPosition => Preferences { tray_offset: 0, manual_position: None, ..prefs },
        Command::ToggleAlwaysOnTop => Preferences { always_on_top: !prefs.always_on_top, ..prefs },
        Command::ToggleWidget => Preferences { widget_visible: !prefs.widget_visible, ..prefs },
        Command::SetInterval(frequency) => Preferences {
            poll_interval_ms: frequency.interval_ms(),
            ..prefs
        },
        Command::ToggleProvider(family) => provider_toggled(prefs, family),
        Command::SetPlan(plan) => Preferences {
            show_github_copilot: true,
            github_copilot_plan: plan,
            ..prefs
        },
        Command::SetLanguage(language) => Preferences {
            language_override: language,
            language: resolve_language(language, system),
            ..prefs
        },
        Command::SetBasis(basis) => Preferences { display_basis: basis, ..prefs },
        Command::SetDensity(density) => Preferences { display_density: density, ..prefs },
        Command::SetLayout(layout) => Preferences { popup_layout: layout, ..prefs },
        Command::SetTheme(theme) => Preferences { app_theme: theme, ..prefs },
        Command::SetVisibility(visibility) => Preferences {
            short_window_visibility: visibility,
            ..prefs
        },
        Command::SetSensitivity(sensitivity) => Preferences {
            short_window_alert_sensitivity: sensitivity,
            ..prefs
        },
    }
}

/// The preferences once a command is carried out.
pub fn preferences_after(
    prefs: Preferences,
    command: Command,
    system: LanguageId,
) -> (r: Preferences)
    ensures
        r == prefs_after(prefs, command, system),
{
    match command {
        Command::Refresh | Command::Exit | Command::ToggleStartup | Command::VersionAction => prefs,
        Command::ResetPosition => {
            let mut tray_offset: i32 = prefs.tray_offset;
            let mut manual_position: Option<(i32, i32)> = prefs.manual_position;
            reset_saved_position(&mut tray_offset, &mut manual_position);
            Preferences { tray_offset, manual_position, ..prefs }
        },
        Command::ToggleAlwaysOnTop => Preferences { always_on_top: !prefs.always_on_top, ..prefs },
        Command::ToggleWidget => Preferences { widget_visible: !prefs.widget_visible, ..prefs },
        Command::SetInterval(frequency) => Preferences {
            poll_interval_ms: frequency.interval_ms(),
            ..prefs
        },
        Command::ToggleProvider(family) => {
            let mut toggled: Preferences = prefs;
            toggle_provider(&mut toggled, family);
            toggled
        },
        Command::SetPlan(plan) => {
            let mut show_github_copilot: bool = prefs.show_github_copilot;
            let mut github_copilot_plan: GithubCopilotPlan = prefs.github_copilot_plan;
            apply_github_copilot_plan_selection(
                &mut show_github_copilot,
                &mut github_copilot_plan,
                plan,
            );
            Preferences { show_github_copilot, github_copilot_plan, ..prefs }
        },
        Command::SetLanguage(language) => Preferences {
            language_override: language,
            language: resolve_language(language, system),
            ..prefs
        },
        Command::SetBasis(basis) => Preferences { display_basis: basis, ..prefs },
        Command::SetDensity(density) => Preferences { display_density: density, ..prefs },
        Command::SetLayout(layout) => Preferences { popup_layout: layout, ..prefs },
        Command::SetTheme(theme) => Preferences { app_theme: theme, ..prefs },
        Command::SetVisibility(visibility) => Preferences {
            short_window_visibility: visibility,
            ..prefs
        },
        Command::SetSensitivity(sensitivity) => Preferences {
            short_window_alert_sensitivity: sensitivity,
            ..prefs
        },
    }
}

// ---- the command ------------------------------------------------------------------------

/// The cells' states that a command leads to: whatever is about to be polled waits.
pub open spec fn states_after(states: CellStates, command: Command) -> CellStates {
    match command {
        Command::Refresh | Command::ToggleProvider(_) => states.loading(),
        Command::SetPlan(_) => CellStates { github_copilot: CellState::Loading, ..states },
        _ => states,
    }
}

/// Whether a command changes what the texts say.
pub open spec fn spec_rebuilds_texts(command: Command) -> bool {
    match command {
        Command::Refresh | Command::ToggleProvider(_) | Command::SetPlan(_)
        | Command::SetLanguage(_) | Command::SetBasis(_) | Command::SetDensity(_)
        | Command::SetVisibility(_) | Command::SetSensitivity(_) => true,
        _ => false,
    }
}

#[verifier::when_used_as_spec(spec_rebuilds_texts)]
pub fn rebuilds_texts(command: Command) -> (r: bool)
    ensures
        r == spec_rebuilds_texts(command),
{
    match command {
        Command::Refresh | Command::ToggleProvider(_) | Command::SetPlan(_)
        | Command::SetLanguage(_) | Command::SetBasis(_) | Command::SetDensity(_)
        | Command::SetVisibility(_) | Command::SetSensitivity(_) => true,
        _ => false,
    }
}

/// The state before its texts are rebuilt.
pub open spec fn state_decided(s: AppState, command: Command, system: LanguageId) -> AppState {
    AppState {
        prefs: prefs_after(s.prefs, command, system),
        states: states_after(s.states, command),
        polling: if command is Refresh {
            PollingState { force_notify_auth_error: true, ..s.polling }
        } else {
            s.polling
        },
        ..s
    }
}

/// The state that a command leads to.
pub open spec fn obeys(
    after: AppState,
    before: AppState,
    command: Command,
    now: Timestamp,
    system: LanguageId,
    languages: Languages,
) -> bool {
    if rebuilds_texts(command) {
        same_but_shown(after, state_decided(before, command, system)) && after.shows_current(
            now,
            languages,
        )
    } else {
        after == state_decided(before, command, system)
    }
}

/// Effects of a command.
pub open spec fn command_effects(state: Option<AppState>, command: Command) -> Seq<Effect> {
    match command {
        Command::Refresh => seq![Effect::Render, Effect::StartPoll],
        Command::Exit => seq![Effect::UnhookTrayEvents, Effect::Quit],
        Command::ResetPosition => seq![Effect::SaveSettings, Effect::Position],
        Command::ToggleStartup => seq![Effect::ToggleStartup],
        Command::ToggleAlwaysOnTop => match state {
            Some(s) => seq![
                Effect::SaveSettings,
                Effect::SetZOrder(order_for(!s.prefs.always_on_top)),
            ],
            None => Seq::empty(),
        },
        Command::ToggleWidget => match state {
            Some(s) => toggle_effects(s.prefs),
            None => Seq::empty(),
        },
        Command::VersionAction => seq![
            match state {
                Some(s) => version_action_of(s.install_channel, s.update_status),
                None => Effect::BeginUpdateCheck { interactive: true },
            },
        ],
        Command::SetInterval(frequency) => seq![
            Effect::SaveSettings,
            Effect::SetTimer(TimerKind::Poll, frequency.interval_ms()),
        ],
        Command::ToggleProvider(_) | Command::SetPlan(_) => seq![
            Effect::SaveSettings,
            Effect::Position,
            Effect::Render,
            Effect::SyncTrayIcons,
            Effect::StartPoll,
        ],
        Command::SetLanguage(_) => (if state is Some {
            seq![Effect::UpdateWindowTitle]
        } else {
            Seq::empty()
        }) + seq![Effect::SaveSettings, Effect::Render],
        Command::SetBasis(_) => seq![Effect::SaveSettings, Effect::Render, Effect::SyncTrayIcons],
        Command::SetDensity(_) | Command::SetLayout(_) | Command::SetVisibility(_)
        | Command::SetSensitivity(_) => seq![
            Effect::SaveSettings,
            Effect::Position,
            Effect::Render,
        ],
        Command::SetTheme(_) => seq![Effect::SaveSettings, Effect::Render],
    }
}

/// Lists what a command leaves to do.
fn list_effects(state: &Option<AppState>, command: Command) -> (r: Vec<Effect>)
    ensures
        r@ == command_effects(*state, command),
{
    match command {
        Command::Refresh => vec![Effect::Render, Effect::StartPoll],
        Command::Exit => vec![Effect::UnhookTrayEvents, Effect::Quit],
        Command::ResetPosition => vec![Effect::SaveSettings, Effect::Position],
        Command::ToggleStartup => vec![Effect::ToggleStartup],
        Command::ToggleAlwaysOnTop => match state {
            Some(s) => vec![
                Effect::SaveSettings,
                Effect::SetZOrder(order_for(!s.prefs.always_on_top)),
            ],
            None => Vec::new(),
        },
        Command::ToggleWidget => match state {
            Some(s) => list_toggle_effects(s.prefs),
            None => Vec::new(),
        },
        Command::VersionAction => vec![version_action(state)],
        Command::SetInterval(frequency) => vec![
            Effect::SaveSettings,
            Effect::SetTimer(TimerKind::Poll, frequency.interval_ms()),
        ],
        Command::ToggleProvider(_) | Command::SetPlan(_) => vec![
            Effect::SaveSettings,
            Effect::Position,
            Effect::Render,
            Effect::SyncTrayIcons,
            Effect::StartPoll,
        ],
        Command::SetLanguage(_) => if state.is_some() {
            let effects: Vec<Effect> = vec![
                Effect::UpdateWindowTitle,
                Effect::SaveSettings,
                Effect::Render,
            ];
            assert(effects@ =~= command_effects(*state, command));
            effects
        } else {
            let effects: Vec<Effect> = vec![Effect::SaveSettings, Effect::Render];
            assert(effects@ =~= command_effects(*state, command));
            effects
        },
        Command::SetBasis(_) => vec![Effect::SaveSettings, Effect::Render, Effect::SyncTrayIcons],
        Command::SetDensity(_) | Command::SetLayout(_) | Command::SetVisibility(_)
        | Command::SetSensitivity(_) => vec![
            Effect::SaveSettings,
            Effect::Position,
            Effect::Render,
        ],
        Command::SetTheme(_) => vec![Effect::SaveSettings, Effect::Render],
    }
}

fn decide_states(states: CellStates, command: Command) -> (r: CellStates)
    ensures
        r == states_after(states, command),
{
    match command {
        Command::Refresh | Command::ToggleProvider(_) => states.loading(),
        Command::SetPlan(_) => CellStates { github_copilot: CellState::Loading, ..states },
        _ => states,
    }
}

fn apply_command(
    s: &mut AppState,
    command: Command,
    now: Timestamp,
    system: LanguageId,
    languages: &Languages,
)
    ensures
        obeys(*final(s), *old(s), command, now, system, *languages),
{
    let ghost before = *s;
    s.prefs = preferences_after(s.prefs, command, system);
    s.states = decide_states(s.states, command);
    if let Command::Refresh = command {
        s.polling.force_notify_auth_error = true;
    }
    assert(*s == state_decided(before, command, system));
    if rebuilds_texts(command) {
        refresh_usage_texts(s, now, languages);
    }
}

/// Carries out a menu command on the state and lists what is left to do.
pub fn run_command(
    state: &mut Option<AppState>,
    command: Command,
    now: Timestamp,
    system: LanguageId,
    languages: &Languages,
) -> (r: Vec<Effect>)
    ensures
        r@ == command_effects(*old(state), command),
        (match (*old(state), *final(state)) {
            (Some(before), Some(after)) => obeys(
                after,
                before,
                command,
                now,
                system,
                *languages,
            ),
            (None, None) => true,
            _ => false,
        }),
{
    let effects: Vec<Effect> = list_effects(state, command);
    let taken: Option<AppState> = state.take();
    if let Some(mut s) = taken {
        apply_command(&mut s, command, now, system, languages);
        *state = Some(s);
    }
    effects
}

// ---- laws -----------------------------------------------------------------------------

/// No command hides the last provider.
pub proof fn some_provider_stays_shown(prefs: Preferences, command: Command, system: LanguageId)
    requires
        prefs.shows_a_provider(),
    ensures
        prefs_after(prefs, command, system).shows_a_provider(),
{
}

/// Every command keeps it so that a known Copilot plan is one of a shown Copilot.
pub proof fn known_plan_stays_shown(prefs: Preferences, command: Command, system: LanguageId)
    requires
        prefs.github_copilot_plan is Unknown || prefs.show_github_copilot,
    ensures
        ({
            let after = prefs_after(prefs, command, system);
            after.github_copilot_plan is Unknown || after.show_github_copilot
        }),
{
}

/// Whatever a command changes in the preferences is saved.
pub proof fn every_change_is_saved(s: AppState, command: Command, system: LanguageId)
    requires
        prefs_after(s.prefs, command, system) != s.prefs,
    ensures
        command_effects(Some(s), command).contains(Effect::SaveSettings),
{
    let effects = command_effects(Some(s), command);
    if command is SetLanguage {
        assert(effects[1] == Effect::SaveSettings);
    } else {
        assert(effects[0] == Effect::SaveSettings);
    }
}

/// Whatever a command makes wait is polled.
pub proof fn waiting_cells_are_polled(state: Option<AppState>, command: Command, states: CellStates)
    requires
        states_after(states, command) != states,
    ensures
        command_effects(state, command).contains(Effect::StartPoll),
{
    let effects = command_effects(state, command);
    if command is Refresh {
        assert(effects[1] == Effect::StartPoll);
    } else {
        assert(effects[4] == Effect::StartPoll);
    }
}

/// Toggling a provider twice shows what was shown.
pub proof fn toggling_a_provider_twice_restores_it(prefs: Preferences, family: QuotaFamilyId)
    requires
        prefs.shows_a_provider(),
    ensures
        ({
            let twice = provider_toggled(provider_toggled(prefs, family), family);
            &&& twice.show_claude_code == prefs.show_claude_code
            &&& twice.show_codex == prefs.show_codex
            &&& twice.show_antigravity == prefs.show_antigravity
            &&& twice.show_github_copilot == prefs.show_github_copilot
        }),
{
}

/// Staying on top and showing the widget undo themselves.
pub proof fn toggling_twice_restores_the_preferences(prefs: Preferences, system: LanguageId)
    ensures
        ({
            let command = Command::ToggleAlwaysOnTop;
            prefs_after(prefs_after(prefs, command, system), command, system) == prefs
        }),
        ({
            let command = Command::ToggleWidget;
            prefs_after(prefs_after(prefs, command, system), command, system) == prefs
        }),
{
}

/// A theme changes colors only: the window keeps its place and size, and the texts
/// stay.
pub proof fn theme_changes_only_colors(
    after: AppState,
    before: AppState,
    theme: crate::settings::AppTheme,
    now: Timestamp,
    system: LanguageId,
    languages: Languages,
)
    requires
        obeys(after, before, Command::SetTheme(theme), now, system, languages),
    ensures
        after == (AppState {
            prefs: Preferences { app_theme: theme, ..before.prefs },
            ..before
        }),
        !command_effects(Some(before), Command::SetTheme(theme)).contains(Effect::Position),
{
}

/// A choice that is made takes effect, and it is the only thing that changes.
pub proof fn choice_takes_effect_and_nothing_else_changes(
    prefs: Preferences,
    command: Command,
    system: LanguageId,
)
    ensures
        ({
            let after = prefs_after(prefs, command, system);
            match command {
                Command::SetBasis(basis) => after.display_basis == basis && after == (Preferences {
                    display_basis: after.display_basis,
                    ..prefs
                }),
                Command::SetDensity(density) => after.display_density == density && after == (
                Preferences { display_density: after.display_density, ..prefs }),
                Command::SetLayout(layout) => after.popup_layout == layout && after == (
                Preferences { popup_layout: after.popup_layout, ..prefs }),
                Command::SetTheme(theme) => after.app_theme == theme && after == (Preferences {
                    app_theme: after.app_theme,
                    ..prefs
                }),
                Command::SetVisibility(visibility) => after.short_window_visibility == visibility
                    && after == (Preferences {
                    short_window_visibility: after.short_window_visibility,
                    ..prefs
                }),
                Command::SetSensitivity(sensitivity) => after.short_window_alert_sensitivity
                    == sensitivity && after == (Preferences {
                    short_window_alert_sensitivity: after.short_window_alert_sensitivity,
                    ..prefs
                }),
                Command::SetInterval(frequency) => after.poll_interval_ms
                    == frequency.interval_ms() && after == (Preferences {
                    poll_interval_ms: after.poll_interval_ms,
                    ..prefs
                }),
                Command::SetPlan(plan) => after.github_copilot_plan == plan
                    && after.show_github_copilot && after == (Preferences {
                    github_copilot_plan: after.github_copilot_plan,
                    show_github_copilot: true,
                    ..prefs
                }),
                Command::SetLanguage(Some(language)) => after.language == language
                    && after.language_override == Some(language) && after == (Preferences {
                    language: after.language,
                    language_override: after.language_override,
                    ..prefs
                }),
                Command::SetLanguage(None) => after.language == system
                    && after.language_override is None && after == (Preferences {
                    language: after.language,
                    language_override: after.language_override,
                    ..prefs
                }),
                Command::ResetPosition => after.manual_position is None && after.tray_offset == 0
                    && after == (Preferences { manual_position: None, tray_offset: 0, ..prefs }),
                Command::ToggleAlwaysOnTop => after.always_on_top != prefs.always_on_top && after
                    == (Preferences { always_on_top: after.always_on_top, ..prefs }),
                Command::ToggleWidget => after.widget_visible != prefs.widget_visible && after == (
                Preferences { widget_visible: after.widget_visible, ..prefs }),
                Command::ToggleProvider(_) => after == (Preferences {
                    show_claude_code: after.show_claude_code,
                    show_codex: after.show_codex,
                    show_antigravity: after.show_antigravity,
                    show_github_copilot: after.show_github_copilot,
                    github_copilot_plan: after.github_copilot_plan,
                    ..prefs
                }),
                Command::Refresh | Command::Exit | Command::ToggleStartup
                | Command::VersionAction => after == prefs,
            }
        }),
{
}

/// Toggling a provider shows it where it was hidden and hides it where another stays; no
/// other provider changes.
pub proof fn toggling_changes_the_chosen_provider_only(
    prefs: Preferences,
    family: QuotaFamilyId,
    id: QuotaFamilyId,
)
    ensures
        ({
            let after = provider_toggled(prefs, family);
            let another = exists|other: QuotaFamilyId|
                other != family && is_family_shown(prefs, other);
            &&& id != family ==> is_family_shown(after, id) == is_family_shown(prefs, id)
            &&& !is_family_shown(prefs, family) ==> is_family_shown(after, family)
            &&& is_family_shown(prefs, family) ==> (is_family_shown(after, family) <==> !another)
            &&& family is GithubCopilot && !after.show_github_copilot
                ==> after.github_copilot_plan is Unknown
            &&& !(family is GithubCopilot) ==> after.github_copilot_plan
                == prefs.github_copilot_plan
        }),
{
    let claude = QuotaFamilyId::Claude;
    let codex = QuotaFamilyId::Codex;
    let antigravity = QuotaFamilyId::Antigravity;
    let copilot = QuotaFamilyId::GithubCopilot;
    assert(is_family_shown(prefs, claude) == prefs.show_claude_code);
    assert(is_family_shown(prefs, codex) == prefs.show_codex);
    assert(is_family_shown(prefs, antigravity) == prefs.show_antigravity);
    assert(is_family_shown(prefs, copilot) == prefs.show_github_copilot);
}

/// What is shown stays up to date under every command: where a command does not rebuild
/// the texts, it changes nothing that they tell.
pub proof fn commands_keep_what_is_shown_current(
    after: AppState,
    before: AppState,
    command: Command,
    now: Timestamp,
    system: LanguageId,
    languages: Languages,
)
    requires
        before.shows_current(now, languages),
        obeys(after, before, command, now, system, languages),
    ensures
        after.shows_current(now, languages),
{
    if !rebuilds_texts(command) {
        assert(after.states == before.states && after.data == before.data && after.shown
            == before.shown);
        assert(after.prefs.language == before.prefs.language);
        only_display_choices_change_what_is_shown(
            before.states,
            before.data,
            before.prefs,
            after.prefs,
            now,
            languages.strings(before.prefs.language),
        );
    }
}

/// Whatever changes the popup is drawn, and whatever can change its size is placed first;
/// a new interval starts at once.
pub proof fn changes_reach_the_screen(s: AppState, command: Command)
    ensures
        ({
            let effects = command_effects(Some(s), command);
            &&& command is Refresh || command is ToggleProvider || command is SetPlan
                || command is SetLanguage || command is SetBasis || command is SetDensity
                || command is SetLayout || command is SetTheme || command is SetVisibility
                || command is SetSensitivity ==> effects.contains(Effect::Render)
            &&& command is ToggleProvider || command is SetPlan || command is SetDensity
                || command is SetLayout || command is SetVisibility || command is SetSensitivity
                || command is ResetPosition ==> effects.contains(Effect::Position)
            &&& command matches Command::SetInterval(frequency) ==> effects.contains(
                Effect::SetTimer(TimerKind::Poll, frequency.interval_ms()),
            )
            &&& effects.contains(Effect::Quit) <==> command is Exit
            &&& effects.contains(Effect::StartPoll) <==> command is Refresh
                || command is ToggleProvider || command is SetPlan
            &&& effects.contains(Effect::ToggleStartup) <==> command is ToggleStartup
            &&& command is SetLanguage ==> effects.contains(Effect::UpdateWindowTitle)
        }),
{
    let effects = command_effects(Some(s), command);
    match command {
        Command::Refresh => {
            assert(effects[0] == Effect::Render && effects[1] == Effect::StartPoll);
        },
        Command::Exit => {
            assert(effects[1] == Effect::Quit);
        },
        Command::ResetPosition => {
            assert(effects[1] == Effect::Position);
        },
        Command::ToggleStartup => {
            assert(effects[0] == Effect::ToggleStartup);
        },
        Command::SetInterval(frequency) => {
            assert(effects[1] == Effect::SetTimer(TimerKind::Poll, frequency.interval_ms()));
        },
        Command::ToggleProvider(_) | Command::SetPlan(_) => {
            assert(effects[1] == Effect::Position && effects[2] == Effect::Render && effects[4]
                == Effect::StartPoll);
        },
        Command::SetLanguage(_) => {
            assert(effects[0] == Effect::UpdateWindowTitle && effects[2] == Effect::Render);
        },
        Command::SetBasis(_) | Command::SetTheme(_) => {
            assert(effects[1] == Effect::Render);
        },
        Command::SetDensity(_) | Command::SetLayout(_) | Command::SetVisibility(_)
        | Command::SetSensitivity(_) => {
            assert(effects[1] == Effect::Position && effects[2] == Effect::Render);
        },
        _ => {},
    }
}

/// A shown widget is hidden and a hidden one is shown; it ends on top exactly where it is
/// to stay there.
pub proof fn toggled_widget_is_shown_or_hidden(prefs: Preferences)
    ensures
        ({
            let effects = toggle_effects(prefs);
            let shows = exists|i: int|
                0 <= i < effects.len() && #[trigger] effects[i] is ShowWindow;
            &&& effects.contains(Effect::HideWindow) <==> prefs.widget_visible
            &&& shows <==> !prefs.widget_visible
            &&& !prefs.widget_visible ==> effects.last() == Effect::SetZOrder(
                if prefs.always_on_top {
                    ZOrder::TopMost
                } else {
                    ZOrder::NotTopMost
                },
            ) && effects.contains(Effect::Position) && effects.contains(Effect::Render)
            &&& effects.contains(Effect::SaveSettings)
        }),
{
    let effects = toggle_effects(prefs);
    assert(effects[0] == Effect::SaveSettings);
    if prefs.widget_visible {
        assert(effects[1] == Effect::HideWindow);
    } else {
        assert(effects[1] == Effect::Position);
        assert(effects[2] is ShowWindow);
        assert(effects[3] == Effect::Render);
        assert forall|i: int| 0 <= i < effects.len() implies #[trigger] effects[i]
            != Effect::HideWindow by {}
    }
}

/// Staying on top is put into effect with the preference.
pub proof fn window_order_follows_the_preference(s: AppState, system: LanguageId)
    ensures
        ({
            let command = Command::ToggleAlwaysOnTop;
            let after = prefs_after(s.prefs, command, system);
            command_effects(Some(s), command).last() == Effect::SetZOrder(
                if after.always_on_top {
                    ZOrder::TopMost
                } else {
                    ZOrder::NotTopMost
                },
            )
        }),
{
}

/// A command that has the providers polled anew shows the cells waiting that the poll will
/// fill: a new plan Copilot's alone, any other those of every provider. No other command
/// touches the states.
pub proof fn cells_wait_for_the_poll_that_is_asked_for(
    s: AppState,
    command: Command,
    id: QuotaFamilyId,
)
    requires
        !(id is GithubCopilot),
    ensures
        ({
            let after = states_after(s.states, command);
            let polls = command_effects(Some(s), command).contains(Effect::StartPoll);
            &&& polls ==> after.github_copilot is Loading
            &&& polls && !(command is SetPlan) ==> states_of(after, id).session is Loading
                && states_of(after, id).weekly is Loading
            &&& !polls ==> after == s.states
            &&& command is SetPlan ==> polls && states_of(after, id) == states_of(s.states, id)
            &&& command is Refresh || command is ToggleProvider ==> polls
            &&& after.codex_banked_reset_count == s.states.codex_banked_reset_count
        }),
{
    let effects = command_effects(Some(s), command);
    match command {
        Command::Refresh => assert(effects[1] == Effect::StartPoll),
        Command::ToggleProvider(_) => assert(effects[4] == Effect::StartPoll),
        Command::SetPlan(_) => assert(effects[4] == Effect::StartPoll),
        _ => assert(!effects.contains(Effect::StartPoll)),
    }
}

/// A refresh that the user asks for reports credentials that fail, even where that was
/// reported before; no other command changes anything of the polling, and none what is
/// known of an update, of the mouse or of the system.
pub proof fn only_a_refresh_asks_for_a_report(s: AppState, command: Command, system: LanguageId)
    ensures
        ({
            let after = state_decided(s, command, system);
            &&& command is Refresh ==> after.polling.force_notify_auth_error
                && after.polling.retry_count == s.polling.retry_count
                && after.polling.auth_error_paused_polling == s.polling.auth_error_paused_polling
            &&& !(command is Refresh) ==> after.polling == s.polling
            &&& after.update_status == s.update_status
            &&& after.pointer == s.pointer
            &&& after.is_dark == s.is_dark
            &&& after.install_channel == s.install_channel
            &&& after.data == s.data
        }),
{
}

/// A widget that is shown comes to the front at once: above all other windows where it is
/// to stay there, and else above the others until one of them is used.
pub proof fn shown_widget_comes_to_the_front(prefs: Preferences)
    requires
        !prefs.widget_visible,
    ensures
        ({
            let effects = toggle_effects(prefs);
            &&& prefs.always_on_top <==> effects.contains(Effect::ShowWindow(ZOrder::TopMost))
            &&& !prefs.always_on_top <==> effects.contains(Effect::ShowWindow(ZOrder::Top))
            &&& !effects.contains(Effect::ShowWindow(ZOrder::NotTopMost))
            &&& effects.last() == Effect::SetZOrder(
                if prefs.always_on_top {
                    ZOrder::TopMost
                } else {
                    ZOrder::NotTopMost
                },
            )
        }),
{
    let effects = toggle_effects(prefs);
    assert(effects[0] == Effect::SaveSettings);
    assert(effects[1] == Effect::Position);
    assert(effects[2] is ShowWindow);
    assert(effects[3] == Effect::Render);
    assert(effects[4] == Effect::SetZOrder(ZOrder::TopMost));
}

} // verus!
