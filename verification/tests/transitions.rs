//! What commands, messages, polls and the mouse do to the state.

use usage_monitor::cells::CellState;
use usage_monitor::commands::{run_command, toggle_widget_visibility};
use usage_monitor::effects::{balloon_text, AuthBalloon, Effect, TimerKind, UpdateMessage, ZOrder};
use usage_monitor::events::{
    check_language_change, check_theme_change, dpi_in_message, environment_changed,
    paint_requested, timer_elapsed, tray_clicked, tray_icon_data_from_state, usage_updated,
    window_destroyed, window_resized, EnvironmentChange, TrayAction,
};
use usage_monitor::geometry::{HorizontalResizeEdge, Rect};
use usage_monitor::menu::{
    command_for_id, command_id, context_menu, default_preferences, menu_input, Command, MenuStep,
    PollFrequency, IDM_APP_THEME_LIGHT, IDM_EXIT, IDM_LANG_JAPANESE, IDM_MODEL_ANTIGRAVITY,
    IDM_VERSION_ACTION,
};
use usage_monitor::models::{QuotaFamilyId, UsageData, UsageSection};
use usage_monitor::numbers::Quantity;
use usage_monitor::placement::{
    first_window_size, position_at_taskbar, suppress_tray_reposition_for, tray_location_changed,
    usage_geometry_needs_sync, window_dpi, TrayMotion, WorkAreas,
};
use usage_monitor::pointer::{
    client_point, cursor_shape, dropped_on_taskbar, end_drag, end_resize, place_dropped,
    pointer_moved, pointer_pressed, ClientCursor, CursorShape,
};
use usage_monitor::poll::{PollError, PollReport, ProviderPollOutcome};
use usage_monitor::polling::{
    apply_provider_poll_update, auth_watch_mode, backoff_ms, cached_reset_times, credentials_read,
    finish_failed_poll, finish_successful_poll, poll_request, poll_timer_action,
    schedule_countdown_timer, watched_stamps, PollTimerAction,
};
use usage_monitor::settings::{
    AppTheme, DisplayBasis, DisplayDensity, Features, GithubCopilotPlan, LanguageId, PopupLayout,
};
use usage_monitor::settings_file::SettingsFile;
use usage_monitor::startup::initial_state;
use usage_monitor::state::{
    AppState, CredentialWatchMode, InstallChannel, ReleaseDescriptor, UpdateStatus,
};
use usage_monitor::strings::{Languages, Strings};
use usage_monitor::time::Timestamp;
use usage_monitor::updates::{
    auto_update_check_due, begin_update_apply, begin_update_check, finish_update_apply,
    finish_update_check, finish_winget_update, offered_release, schedule_auto_update_check,
    update_failed_text, update_prompt_answered, update_prompt_text, version_action_label,
    UpdateCheckResult,
};

fn q(percent: i32) -> Quantity {
    Quantity::whole(percent)
}

fn noon() -> Timestamp {
    Timestamp { ticks: 1_700_000_000 * 10_000_000 }
}

fn after(secs: i64) -> Timestamp {
    Timestamp { ticks: noon().ticks + secs * 10_000_000 }
}

fn languages() -> Languages {
    let mut languages = Languages::default();
    languages.english.code = "en";
    languages.english.native_name = "English";
    languages.english.update_via_winget = "Update via WinGet to";
    languages.english.strings = Strings {
        window_title: "Usage",
        loading: "Loading",
        fetch_failed: "Fetch failed",
        authentication_expired: "Sign-in expired",
        authentication_problem: "Check sign-in",
        credentials_unavailable: "No credentials",
        not_available: "Not available",
        token_expired_title: "Sign in again",
        token_expired_body: "The sign-in has expired.",
        check_for_updates: "Check for updates",
        update_to: "Update to",
        update_prompt_now: "Install {version} now?",
        update_failed: "Update failed",
        refresh: "Refresh",
        exit: "Exit",
        ..Strings::default()
    };
    languages.japanese.code = "ja";
    languages.japanese.native_name = "日本語";
    languages.japanese.strings = Strings {
        window_title: "使用量",
        loading: "読み込み中",
        ..Strings::default()
    };
    languages
}

fn features() -> Features {
    Features { antigravity: true, self_update: true }
}

fn first_state() -> AppState {
    initial_state(
        &SettingsFile::default(),
        LanguageId::English,
        InstallChannel::Portable,
        true,
        noon(),
        &languages(),
    )
}

fn run(state: &mut Option<AppState>, command: Command) -> Vec<Effect> {
    run_command(state, command, noon(), LanguageId::English, &languages())
}

fn session_usage(percent: i32) -> UsageData {
    let mut usage = UsageData::default();
    usage.set_session(UsageSection { percentage: q(percent), resets_at: Some(after(3_600)) });
    usage
}

fn report(claude_code: ProviderPollOutcome) -> PollReport {
    PollReport {
        claude_code,
        codex: ProviderPollOutcome::Disabled,
        antigravity: ProviderPollOutcome::Disabled,
        github_copilot: ProviderPollOutcome::Disabled,
    }
}

// ---- commands ---------------------------------------------------------------------------

#[test]
fn refresh_waits_for_data_and_notifies_again() {
    let mut state = Some(first_state());
    finish_successful_poll(
        &mut state,
        &report(ProviderPollOutcome::Success { usage: session_usage(10) }),
        false,
        noon(),
        &languages(),
    );
    let effects = run(&mut state, Command::Refresh);
    assert_eq!(effects, vec![Effect::Render, Effect::StartPoll]);
    let s = state.unwrap();
    assert_eq!(s.states.claude.session, CellState::Loading);
    assert_eq!(s.shown.claude.session.percent, None);
    assert_eq!(s.shown.claude.session.text, "Loading");
    assert!(s.polling.force_notify_auth_error);
    assert!(s.data.is_some());
}

#[test]
fn the_last_provider_cannot_be_hidden() {
    let mut state = Some(first_state());
    run(&mut state, Command::ToggleProvider(QuotaFamilyId::Claude));
    assert!(state.as_ref().unwrap().prefs.show_claude_code);
    run(&mut state, Command::ToggleProvider(QuotaFamilyId::Codex));
    run(&mut state, Command::ToggleProvider(QuotaFamilyId::Claude));
    let s = state.as_ref().unwrap();
    assert!(!s.prefs.show_claude_code);
    assert!(s.prefs.show_codex);
}

#[test]
fn hiding_copilot_forgets_its_plan() {
    let mut state = Some(first_state());
    run(&mut state, Command::SetPlan(GithubCopilotPlan::Max));
    assert!(state.as_ref().unwrap().prefs.show_github_copilot);
    assert_eq!(state.as_ref().unwrap().prefs.github_copilot_plan, GithubCopilotPlan::Max);
    run(&mut state, Command::ToggleProvider(QuotaFamilyId::GithubCopilot));
    assert!(!state.as_ref().unwrap().prefs.show_github_copilot);
    assert_eq!(state.as_ref().unwrap().prefs.github_copilot_plan, GithubCopilotPlan::Unknown);
}

#[test]
fn toggling_a_provider_twice_shows_what_was_shown() {
    let mut state = Some(first_state());
    run(&mut state, Command::ToggleProvider(QuotaFamilyId::Antigravity));
    assert!(state.as_ref().unwrap().prefs.show_antigravity);
    run(&mut state, Command::ToggleProvider(QuotaFamilyId::Antigravity));
    assert!(!state.as_ref().unwrap().prefs.show_antigravity);
}

#[test]
fn a_theme_is_saved_and_drawn_without_moving_the_window() {
    let mut state = Some(first_state());
    let effects = run(&mut state, Command::SetTheme(AppTheme::Light));
    assert_eq!(effects, vec![Effect::SaveSettings, Effect::Render]);
    assert_eq!(state.unwrap().prefs.app_theme, AppTheme::Light);
}

#[test]
fn display_choices_are_saved_placed_and_drawn() {
    for command in [
        Command::SetDensity(DisplayDensity::Detailed),
        Command::SetLayout(PopupLayout::Standard),
    ] {
        let mut state = Some(first_state());
        assert_eq!(
            run(&mut state, command),
            vec![Effect::SaveSettings, Effect::Position, Effect::Render]
        );
    }
    let mut state = Some(first_state());
    assert_eq!(
        run(&mut state, Command::SetBasis(DisplayBasis::RemainingAllowance)),
        vec![Effect::SaveSettings, Effect::Render, Effect::SyncTrayIcons]
    );
    assert_eq!(state.unwrap().prefs.display_basis, DisplayBasis::RemainingAllowance);
}

#[test]
fn a_frequency_sets_the_timer() {
    let mut state = Some(first_state());
    assert_eq!(
        run(&mut state, Command::SetInterval(PollFrequency::OneHour)),
        vec![Effect::SaveSettings, Effect::SetTimer(TimerKind::Poll, 3_600_000)]
    );
    assert_eq!(state.unwrap().prefs.poll_interval_ms, 3_600_000);
}

#[test]
fn a_language_changes_the_title_and_the_texts() {
    let mut state = Some(first_state());
    assert_eq!(state.as_ref().unwrap().shown.claude.session.text, "Loading");
    assert_eq!(
        run(&mut state, Command::SetLanguage(Some(LanguageId::Japanese))),
        vec![Effect::UpdateWindowTitle, Effect::SaveSettings, Effect::Render]
    );
    let s = state.unwrap();
    assert_eq!(s.prefs.language, LanguageId::Japanese);
    assert_eq!(s.shown.claude.session.text, "読み込み中");
}

#[test]
fn staying_on_top_is_explicit_in_both_directions() {
    let mut state = Some(first_state());
    assert_eq!(
        run(&mut state, Command::ToggleAlwaysOnTop),
        vec![Effect::SaveSettings, Effect::SetZOrder(ZOrder::TopMost)]
    );
    assert_eq!(
        run(&mut state, Command::ToggleAlwaysOnTop),
        vec![Effect::SaveSettings, Effect::SetZOrder(ZOrder::NotTopMost)]
    );
    assert_eq!(run(&mut None, Command::ToggleAlwaysOnTop), vec![]);
}

#[test]
fn hiding_and_showing_the_widget() {
    let mut state = Some(first_state());
    assert_eq!(
        toggle_widget_visibility(&mut state),
        vec![Effect::SaveSettings, Effect::HideWindow]
    );
    assert_eq!(
        run(&mut state, Command::ToggleWidget),
        vec![
            Effect::SaveSettings,
            Effect::Position,
            Effect::ShowWindow(ZOrder::Top),
            Effect::Render,
            Effect::SetZOrder(ZOrder::TopMost),
            Effect::SetZOrder(ZOrder::NotTopMost),
        ]
    );
    assert!(state.unwrap().prefs.widget_visible);
}

#[test]
fn resetting_the_position_forgets_the_place() {
    let mut state = Some(first_state());
    state.as_mut().unwrap().prefs.manual_position = Some((1, 2));
    state.as_mut().unwrap().prefs.tray_offset = 7;
    assert_eq!(
        run(&mut state, Command::ResetPosition),
        vec![Effect::SaveSettings, Effect::Position]
    );
    assert_eq!(state.as_ref().unwrap().prefs.manual_position, None);
    assert_eq!(state.unwrap().prefs.tray_offset, 0);
}

#[test]
fn exit_start_up_and_version() {
    let mut state = Some(first_state());
    assert_eq!(run(&mut state, Command::Exit), vec![Effect::UnhookTrayEvents, Effect::Quit]);
    assert_eq!(run(&mut state, Command::ToggleStartup), vec![Effect::ToggleStartup]);
    assert_eq!(
        run(&mut state, Command::VersionAction),
        vec![Effect::BeginUpdateCheck { interactive: true }]
    );
    state.as_mut().unwrap().update_status =
        UpdateStatus::Available(ReleaseDescriptor { latest_version: "2.0".to_string() });
    assert_eq!(run(&mut state, Command::VersionAction), vec![Effect::BeginUpdateApply]);
    state.as_mut().unwrap().install_channel = InstallChannel::Winget;
    assert_eq!(run(&mut state, Command::VersionAction), vec![Effect::BeginWingetUpdate]);
}

// ---- the menu ---------------------------------------------------------------------------

#[test]
fn ids_are_read_as_commands() {
    assert_eq!(command_for_id(1, features()), Some(Command::Refresh));
    assert_eq!(command_for_id(IDM_EXIT, features()), Some(Command::Exit));
    assert_eq!(
        command_for_id(IDM_LANG_JAPANESE, features()),
        Some(Command::SetLanguage(Some(LanguageId::Japanese)))
    );
    assert_eq!(
        command_for_id(IDM_APP_THEME_LIGHT, features()),
        Some(Command::SetTheme(AppTheme::Light))
    );
    assert_eq!(command_for_id(9_999, features()), None);
    let none = Features { antigravity: false, self_update: false };
    assert_eq!(command_for_id(IDM_MODEL_ANTIGRAVITY, none), None);
    assert_eq!(command_for_id(IDM_VERSION_ACTION, none), None);
    assert_eq!(command_id(0x7_0001), 1);
}

#[test]
fn every_menu_entry_is_a_known_command() {
    let languages = languages();
    for features in [features(), Features { antigravity: false, self_update: false }] {
        let input = menu_input(&Some(first_state()), true, features);
        for step in context_menu(input, &languages) {
            if let MenuStep::Item { id, .. } = step {
                assert!(command_for_id(id, features).is_some(), "id {id} is not understood");
            }
        }
    }
}

#[test]
fn the_menu_opens_and_closes_its_submenus() {
    let input = menu_input(&None, false, features());
    assert_eq!(input.prefs, default_preferences());
    let steps = context_menu(input, &languages());
    assert_eq!(
        steps[0],
        MenuStep::Item { id: 1, label: "Refresh", checked: false }
    );
    assert_eq!(
        steps[steps.len() - 1],
        MenuStep::Item { id: 2, label: "Exit", checked: false }
    );
    let mut depth = 0;
    for step in &steps {
        match step {
            MenuStep::Open { .. } => depth += 1,
            MenuStep::Close => depth -= 1,
            MenuStep::Radio { first, last, selected } => {
                assert!(first <= selected && selected <= last);
            }
            _ => {}
        }
        assert!((0..=3).contains(&depth));
    }
    assert_eq!(depth, 0);
    assert_eq!(
        steps.iter().filter(|s| matches!(s, MenuStep::Radio { .. })).count(),
        9
    );
}

#[test]
fn an_unknown_interval_marks_fifteen_minutes() {
    let mut state = first_state();
    state.prefs.poll_interval_ms = 1_234;
    let steps = context_menu(menu_input(&Some(state), false, features()), &languages());
    assert!(steps.contains(&MenuStep::Radio { first: 10, last: 13, selected: 12 }));
}

// ---- messages ---------------------------------------------------------------------------

#[test]
fn messages_of_the_system() {
    assert_eq!(dpi_in_message(0x0090_0090), 144);
    assert_eq!(
        environment_changed(EnvironmentChange::Dpi(144)),
        vec![Effect::SetDpi(144), Effect::RefreshDpi, Effect::Position, Effect::Render]
    );
    assert_eq!(
        environment_changed(EnvironmentChange::Setting),
        vec![
            Effect::CheckTheme,
            Effect::CheckLanguage,
            Effect::RefreshDpi,
            Effect::Position,
            Effect::Render,
        ]
    );
    assert_eq!(
        environment_changed(EnvironmentChange::Display),
        vec![Effect::RefreshDpi, Effect::Position, Effect::Render]
    );
    assert_eq!(
        window_destroyed(),
        vec![Effect::UnhookTrayEvents, Effect::RemoveTrayIcons, Effect::Quit]
    );
    assert_eq!(tray_clicked(TrayAction::ToggleWidget), Some(Effect::PostTrayToggle));
    assert_eq!(tray_clicked(TrayAction::ShowContextMenu), Some(Effect::ShowContextMenu));
    assert_eq!(tray_clicked(TrayAction::Nothing), None);
    assert_eq!(usage_updated()[5], Effect::SuppressTrayReposition(750));
}

#[test]
fn only_a_layered_window_skips_painting() {
    let mut state = first_state();
    assert_eq!(paint_requested(&None), Effect::PaintContent);
    state.embedded = true;
    assert_eq!(paint_requested(&Some(state)), Effect::ValidateWindow);
}

#[test]
fn theme_and_language_follow_the_system() {
    let mut state = Some(first_state());
    assert_eq!(check_theme_change(&mut state, true), vec![]);
    assert_eq!(check_theme_change(&mut state, false), vec![Effect::Render]);
    assert!(!state.as_ref().unwrap().is_dark);
    assert_eq!(
        check_language_change(&mut state, LanguageId::Japanese, noon(), &languages()),
        vec![Effect::UpdateWindowTitle, Effect::Render]
    );
    assert_eq!(
        check_language_change(&mut state, LanguageId::Japanese, noon(), &languages()),
        vec![]
    );
    run(&mut state, Command::SetLanguage(Some(LanguageId::English)));
    assert_eq!(
        check_language_change(&mut state, LanguageId::Japanese, noon(), &languages()),
        vec![]
    );
    let icons = tray_icon_data_from_state(&state, &languages());
    assert_eq!(icons[0].tooltip, "Usage");
    assert!(tray_icon_data_from_state(&None, &languages()).is_empty());
}

#[test]
fn timers_of_a_paused_poll_look_at_the_credentials_first() {
    let mut state = Some(first_state());
    assert_eq!(
        timer_elapsed(&mut state, TimerKind::Poll, noon(), &languages()),
        vec![Effect::StartPoll]
    );
    state.as_mut().unwrap().polling.auth_error_paused_polling = true;
    assert_eq!(
        timer_elapsed(&mut state, TimerKind::Poll, noon(), &languages()),
        vec![Effect::ReadCredentialStamps]
    );
    assert_eq!(timer_elapsed(&mut state, TimerKind::ResetPoll, noon(), &languages()), vec![]);
    assert_eq!(
        timer_elapsed(&mut state, TimerKind::Countdown, noon(), &languages()),
        vec![Effect::Render, Effect::ScheduleCountdown]
    );
    assert_eq!(
        timer_elapsed(&mut state, TimerKind::UpdateCheck, noon(), &languages()),
        vec![Effect::BeginUpdateCheck { interactive: false }]
    );
}

// ---- polling ----------------------------------------------------------------------------

#[test]
fn a_poll_asks_the_shown_providers() {
    let request = poll_request(&Some(first_state()));
    assert!(request.claude_code);
    assert!(!request.codex);
    assert!(poll_request(&None).claude_code);
}

#[test]
fn a_successful_poll_shows_its_values() {
    let mut state = Some(first_state());
    let effects = finish_successful_poll(
        &mut state,
        &report(ProviderPollOutcome::Success { usage: session_usage(42) }),
        false,
        noon(),
        &languages(),
    );
    assert_eq!(
        effects,
        vec![
            Effect::PersistSnapshot,
            Effect::KillTimer(TimerKind::ResetPoll),
            Effect::PostUsageUpdated,
        ]
    );
    let s = state.unwrap();
    assert_eq!(s.shown.claude.session.percent, Some(q(42)));
    assert_eq!(s.states.claude.weekly, CellState::NotAvailable);
    assert_eq!(s.states.codex.session, CellState::NotAvailable);
    assert!(s.polling.last_poll_ok);
}

#[test]
fn a_failed_poll_never_shows_old_values() {
    let mut state = Some(first_state());
    finish_successful_poll(
        &mut state,
        &report(ProviderPollOutcome::Success { usage: session_usage(42) }),
        false,
        noon(),
        &languages(),
    );
    let effects = finish_failed_poll(
        &mut state,
        &report(ProviderPollOutcome::Error { error: PollError::RequestFailed }),
        None,
        noon(),
        &languages(),
    );
    assert_eq!(
        effects,
        vec![
            Effect::KillTimer(TimerKind::ResetPoll),
            Effect::SetTimer(TimerKind::Poll, 30_000),
            Effect::PostUsageUpdated,
        ]
    );
    let s = state.as_ref().unwrap();
    assert_eq!(s.shown.claude.session.percent, None);
    assert_eq!(s.shown.claude.session.text, "Fetch failed");
    assert_eq!(s.polling.retry_count, 1);
    assert!(s.data.as_ref().unwrap().family(QuotaFamilyId::Claude).is_some());
    let again = finish_failed_poll(
        &mut state,
        &report(ProviderPollOutcome::Error { error: PollError::RequestFailed }),
        None,
        noon(),
        &languages(),
    );
    assert_eq!(again[1], Effect::SetTimer(TimerKind::Poll, 60_000));
}

#[test]
fn expired_credentials_pause_polling_until_they_change() {
    let mut state = Some(first_state());
    let request = poll_request(&state);
    let mode = auth_watch_mode(PollError::TokenExpired, request).unwrap();
    assert_eq!(mode, CredentialWatchMode::ActiveSource);
    let effects = finish_failed_poll(
        &mut state,
        &report(ProviderPollOutcome::Error { error: PollError::TokenExpired }),
        Some((mode, vec![1, 2])),
        noon(),
        &languages(),
    );
    assert_eq!(effects[3], Effect::SetTimer(TimerKind::Poll, 900_000));
    assert_eq!(effects[4], Effect::NotifyAuth(AuthBalloon::Claude));
    assert_eq!(
        balloon_text(AuthBalloon::Claude, languages().english.strings),
        ("Sign in again", "The sign-in has expired.")
    );
    assert_eq!(poll_timer_action(&state), PollTimerAction::CompareCredentials(mode));
    let known = watched_stamps(&state);
    assert!(!credentials_read(&mut state, mode, &known, vec![1, 2]));
    assert!(credentials_read(&mut state, mode, &known, vec![1, 3]));
    assert_eq!(watched_stamps(&state), vec![1, 3]);
}

#[test]
fn which_failures_pause_polling() {
    let mut request = poll_request(&None);
    assert_eq!(auth_watch_mode(PollError::RequestFailed, request), None);
    assert_eq!(
        auth_watch_mode(PollError::NoCredentials, request),
        Some(CredentialWatchMode::AllSources)
    );
    request.claude_code = false;
    request.antigravity = true;
    assert_eq!(
        auth_watch_mode(PollError::AuthRequired, request),
        Some(CredentialWatchMode::Antigravity)
    );
    request.antigravity = false;
    request.github_copilot = true;
    assert_eq!(auth_watch_mode(PollError::AuthRequired, request), None);
    assert_eq!(auth_watch_mode(PollError::NoCredentials, request), None);
}

#[test]
fn retries_double_and_stay_in_a_timer() {
    assert_eq!(backoff_ms(1), 30_000);
    assert_eq!(backoff_ms(2), 60_000);
    assert_eq!(backoff_ms(5), 480_000);
    assert_eq!(backoff_ms(40), u32::MAX);
    assert_eq!(backoff_ms(u32::MAX), u32::MAX);
}

#[test]
fn one_providers_outcome_leaves_the_others_alone() {
    let mut state = first_state();
    apply_provider_poll_update(
        &mut state,
        QuotaFamilyId::Codex,
        &ProviderPollOutcome::Success { usage: session_usage(5) },
        noon(),
        &languages(),
    );
    assert_eq!(state.states.codex.session, CellState::Ready);
    assert_eq!(state.states.claude.session, CellState::Loading);
    assert_eq!(state.shown.codex.session.percent, Some(q(5)));
}

#[test]
fn the_countdown_waits_for_the_soonest_change() {
    let mut state = Some(first_state());
    assert_eq!(
        schedule_countdown_timer(&state, false, &vec![]),
        vec![Effect::KillTimer(TimerKind::Countdown), Effect::KillTimer(TimerKind::ResetPoll)]
    );
    finish_successful_poll(
        &mut state,
        &report(ProviderPollOutcome::Success { usage: session_usage(42) }),
        false,
        noon(),
        &languages(),
    );
    let cached = &state.as_ref().unwrap().data;
    assert_eq!(cached_reset_times(cached)[0], Some(after(3_600)));
    assert!(cached_reset_times(&None).is_empty());
    assert_eq!(
        schedule_countdown_timer(&state, true, &vec![9_000, 4_000, 70_000]),
        vec![
            Effect::SetTimer(TimerKind::ResetPoll, 5_000),
            Effect::SetTimer(TimerKind::Countdown, 4_000),
        ]
    );
    assert_eq!(
        schedule_countdown_timer(&state, false, &vec![3]),
        vec![Effect::SetTimer(TimerKind::Countdown, 1_000)]
    );
    assert_eq!(
        schedule_countdown_timer(&state, false, &vec![]),
        vec![Effect::SetTimer(TimerKind::Countdown, 60_000)]
    );
}

// ---- updates ----------------------------------------------------------------------------

#[test]
fn an_update_check_runs_once_and_answers_who_asked() {
    let mut state = Some(first_state());
    assert_eq!(begin_update_check(&mut state, true), vec![Effect::CheckForUpdates]);
    assert_eq!(
        begin_update_check(&mut state, true),
        vec![Effect::ShowUpdateMessage(UpdateMessage::InProgress)]
    );
    assert_eq!(begin_update_check(&mut state, false), vec![]);
    let release = ReleaseDescriptor { latest_version: "2.0".to_string() };
    assert_eq!(
        finish_update_check(&mut state, UpdateCheckResult::Available(release), 77, true),
        vec![Effect::SaveSettings, Effect::PromptUpdate, Effect::PostUpdateCheckComplete]
    );
    assert_eq!(state.as_ref().unwrap().prefs.last_update_check_unix, Some(77));
    assert_eq!(offered_release(&state).unwrap().latest_version, "2.0");
    assert_eq!(
        finish_update_check(&mut state, UpdateCheckResult::Failed, 78, true)[1],
        Effect::ShowUpdateMessage(UpdateMessage::Failed)
    );
    assert_eq!(
        finish_update_check(&mut state, UpdateCheckResult::UpToDate, 79, false),
        vec![Effect::SaveSettings, Effect::PostUpdateCheckComplete]
    );
    assert!(offered_release(&state).is_none());
}

#[test]
fn an_installation_closes_the_program_or_offers_again() {
    let mut state = Some(first_state());
    let release = ReleaseDescriptor { latest_version: "2.0".to_string() };
    let (effects, installing) = begin_update_apply(&mut state, release);
    assert_eq!(effects, vec![Effect::InstallRelease]);
    assert_eq!(
        finish_update_apply(&mut state, installing.unwrap(), false),
        vec![
            Effect::ShowUpdateMessage(UpdateMessage::Failed),
            Effect::PostUpdateCheckComplete,
        ]
    );
    assert_eq!(offered_release(&state).unwrap().latest_version, "2.0");
    assert_eq!(finish_winget_update(true), vec![Effect::PostClose]);
    assert_eq!(
        finish_winget_update(false),
        vec![Effect::ShowUpdateMessage(UpdateMessage::Failed)]
    );
    assert_eq!(update_prompt_answered(InstallChannel::Portable, false), None);
    assert_eq!(
        update_prompt_answered(InstallChannel::Winget, true),
        Some(Effect::BeginWingetUpdate)
    );
}

#[test]
fn update_texts_and_times() {
    let languages = languages();
    let release = ReleaseDescriptor { latest_version: "2.0".to_string() };
    assert_eq!(
        update_prompt_text(languages.english.strings, &release),
        "Install 2.0 now?"
    );
    assert_eq!(
        update_failed_text(languages.english.strings, "no network"),
        "Update failed.\n\nno network"
    );
    assert_eq!(
        version_action_label(
            &languages,
            LanguageId::English,
            InstallChannel::Portable,
            &UpdateStatus::Idle,
            "1.9",
        ),
        "v1.9 - Check for updates"
    );
    assert_eq!(
        version_action_label(
            &languages,
            LanguageId::English,
            InstallChannel::Winget,
            &UpdateStatus::Available(release),
            "1.9",
        ),
        "v1.9 - Update via WinGet to v2.0"
    );
    assert!(auto_update_check_due(None, 5));
    assert!(!auto_update_check_due(Some(100), 100 + 86_399));
    assert!(auto_update_check_due(Some(100), 100 + 86_400));
    let mut state = Some(first_state());
    state.as_mut().unwrap().prefs.last_update_check_unix = Some(100);
    assert_eq!(
        schedule_auto_update_check(&state, 100 + 86_399),
        vec![
            Effect::KillTimer(TimerKind::UpdateCheck),
            Effect::SetTimer(TimerKind::UpdateCheck, 1_000),
        ]
    );
}

// ---- the mouse --------------------------------------------------------------------------

#[test]
fn client_points_are_signed() {
    assert_eq!(client_point(0x0014_0005), (5, 20));
    assert_eq!(client_point(0xFFFF_FFFE), (-2, -1));
}

#[test]
fn a_resize_starts_at_the_edge_and_keeps_the_other_one() {
    let mut state = Some(first_state());
    let rect = Rect { left: 100, top: 200, right: 500, bottom: 239 };
    let at = ClientCursor { x: 1, y: 5, client_width: 400 };
    assert_eq!(cursor_shape(&state, Some(at), 96, 96), Some(CursorShape::ResizeHorizontally));
    assert_eq!(
        pointer_pressed(&mut state, at, Some((101, 205)), Some(rect), 96, 96),
        vec![Effect::CaptureForResize]
    );
    let session = state.as_ref().unwrap().pointer.resize_session.unwrap();
    assert_eq!(session.edge, HorizontalResizeEdge::Left);
    assert_eq!(window_resized(&state), vec![Effect::Render]);
    assert_eq!(
        pointer_moved(&state, Some((51, 205)), Some(400), Some(1920), 96, 96),
        Some(Effect::MoveWindow { x: 50, y: 200, width: 450, height: 39 })
    );
    assert!(end_resize(&mut state));
    assert!(!end_resize(&mut state));
    assert_eq!(window_resized(&state), vec![]);
}

#[test]
fn a_drag_follows_the_mouse_and_stays_in_the_work_area() {
    let mut state = Some(first_state());
    let rect = Rect { left: 100, top: 200, right: 500, bottom: 239 };
    let at = ClientCursor { x: 150, y: 5, client_width: 400 };
    assert_eq!(cursor_shape(&state, Some(at), 96, 96), Some(CursorShape::Move));
    assert_eq!(
        pointer_pressed(&mut state, at, Some((250, 205)), Some(rect), 96, 96),
        vec![Effect::CaptureForDrag]
    );
    assert_eq!(
        pointer_moved(&state, Some((250, 205)), Some(400), None, 96, 96),
        Some(Effect::MoveWindow { x: 100, y: 200, width: 400, height: 39 })
    );
    assert_eq!(
        pointer_moved(&state, Some((260, 195)), Some(400), None, 96, 96),
        Some(Effect::MoveWindow { x: 110, y: 190, width: 400, height: 39 })
    );
    let dropped = end_drag(&mut state, Some((-750, 195))).unwrap();
    assert_eq!(dropped, (-900, 190));
    let area = Rect { left: 0, top: 0, right: 1920, bottom: 1040 };
    assert_eq!(
        place_dropped(&mut state, dropped, false, Some(rect), Some(area)),
        vec![
            Effect::MoveWindow { x: 0, y: 190, width: 400, height: 39 },
            Effect::SaveSettings,
        ]
    );
    assert_eq!(state.as_ref().unwrap().prefs.manual_position, Some((0, 190)));
    assert_eq!(end_drag(&mut state, Some((0, 0))), None);
}

#[test]
fn a_drop_on_a_taskbar_forgets_the_saved_place() {
    let mut state = Some(first_state());
    state.as_mut().unwrap().prefs.manual_position = Some((100, 200));
    let rect = Rect { left: 100, top: 200, right: 415, bottom: 239 };
    let area = Rect { left: 0, top: 0, right: 1920, bottom: 1040 };
    let bars = vec![Rect { left: 0, top: 1040, right: 1920, bottom: 1080 }];
    assert!(dropped_on_taskbar(Some((5, 1040)), &bars));
    assert!(!dropped_on_taskbar(Some((5, 1039)), &bars));
    assert!(!dropped_on_taskbar(Some((1920, 1050)), &bars));
    assert!(!dropped_on_taskbar(None, &bars));
    assert_eq!(
        place_dropped(&mut state, (0, 1030), true, Some(rect), Some(area)),
        vec![Effect::SaveSettings, Effect::Position]
    );
    assert_eq!(state.as_ref().unwrap().prefs.manual_position, None);
    let areas = WorkAreas { at_saved_position: None, of_window: Some(area), of_taskbar: None };
    assert_eq!(
        position_at_taskbar(&mut state, areas, 96),
        vec![Effect::MoveWindow { x: 1605, y: 1001, width: 315, height: 39 }]
    );
    assert_eq!(
        place_dropped(&mut None, (0, 0), true, None, None),
        vec![Effect::SaveSettings, Effect::Position]
    );
}

#[test]
fn a_press_below_the_header_starts_nothing() {
    let mut state = Some(first_state());
    let at = ClientCursor { x: 150, y: 35, client_width: 400 };
    assert_eq!(cursor_shape(&state, Some(at), 96, 96), None);
    assert_eq!(pointer_pressed(&mut state, at, Some((0, 0)), None, 96, 96), vec![]);
    assert_eq!(pointer_moved(&state, Some((0, 0)), None, None, 96, 96), None);
}

// ---- placing ----------------------------------------------------------------------------

#[test]
fn the_window_is_placed_at_the_corner_or_where_it_was_left() {
    let mut state = Some(first_state());
    let area = Rect { left: 0, top: 0, right: 1920, bottom: 1040 };
    let areas = WorkAreas {
        at_saved_position: Some(area),
        of_window: Some(area),
        of_taskbar: None,
    };
    assert_eq!(
        position_at_taskbar(&mut state, areas, 96),
        vec![Effect::MoveWindow { x: 1605, y: 1001, width: 315, height: 39 }]
    );
    state.as_mut().unwrap().prefs.manual_position = Some((5_000, 10));
    assert_eq!(
        position_at_taskbar(&mut state, areas, 96),
        vec![
            Effect::SaveSettings,
            Effect::MoveWindow { x: 1605, y: 10, width: 315, height: 39 },
        ]
    );
    assert_eq!(state.as_ref().unwrap().prefs.manual_position, Some((1605, 10)));
    let rect = Rect { left: 1605, top: 10, right: 1920, bottom: 49 };
    assert!(!usage_geometry_needs_sync(&state, Some(1920), Some(rect), 96));
    assert!(usage_geometry_needs_sync(&state, Some(1920), None, 96));
    assert_eq!(first_window_size(&state.unwrap().prefs, 96), (315, 78));
    assert_eq!(window_dpi(0, 0), 1);
    assert_eq!(window_dpi(144, 96), 144);
}

#[test]
fn tray_movements_are_throttled_and_can_be_ignored() {
    let ms = 1_000_000u64;
    let mut motion = TrayMotion { suppressed_until: None, last_reposition: None };
    let moves = vec![Effect::Position, Effect::Render];
    assert_eq!(tray_location_changed(&mut motion, false, 10 * ms), vec![]);
    assert_eq!(tray_location_changed(&mut motion, true, 10 * ms), moves);
    assert_eq!(tray_location_changed(&mut motion, true, 510 * ms), vec![]);
    assert_eq!(tray_location_changed(&mut motion, true, 511 * ms), moves);
    suppress_tray_reposition_for(&mut motion, 2_000 * ms, 750);
    assert_eq!(tray_location_changed(&mut motion, true, 2_749 * ms), vec![]);
    assert_eq!(tray_location_changed(&mut motion, true, 2_750 * ms), moves);
}
