//! Properties that span several functions, each on a few values.

use usage_monitor::cells::{display_value, render_cell, CellState};
use usage_monitor::commands::{preferences_after, run_command};
use usage_monitor::effects::{Effect, TimerKind};
use usage_monitor::geometry::{
    logical_from_device, provider_column_width_for_client_at_dpi, sc, total_widget_width_for, Rect,
};
use usage_monitor::menu::{Command, PollFrequency};
use usage_monitor::models::{QuotaFamilyId, UsageData, UsageSection};
use usage_monitor::numbers::Quantity;
use usage_monitor::placement::{finish_horizontal_resize, position_at_taskbar, WorkAreas};
use usage_monitor::poll::{PollError, PollReport, ProviderPollOutcome};
use usage_monitor::polling::{apply_provider_poll_update, finish_failed_poll};
use usage_monitor::rows::{pace_row_layout, visible_rows, widget_height_for_rows};
use usage_monitor::settings::{
    AppTheme, DisplayBasis, DisplayDensity, Features, GithubCopilotPlan, LanguageId, PopupLayout,
    ShortWindowAlertSensitivity, ShortWindowVisibility,
};
use usage_monitor::settings_file::{load_settings, settings_json, SettingsFile};
use usage_monitor::startup::initial_state;
use usage_monitor::state::{
    header_band_bottom, total_widget_width, total_widget_width_for_state, widget_height,
    widget_height_for_state, AppState, InstallChannel,
};
use usage_monitor::strings::{Languages, Strings};
use usage_monitor::theme::accent_color;
use usage_monitor::time::{elapsed_secs_in_window, Timestamp, WEEKLY_WINDOW_SECS};

fn state(settings: &SettingsFile) -> AppState {
    initial_state(
        settings,
        LanguageId::English,
        InstallChannel::Portable,
        true,
        Timestamp { ticks: 0 },
        &Languages::default(),
    )
}

fn all_commands() -> Vec<Command> {
    vec![
        Command::Refresh,
        Command::Exit,
        Command::ResetPosition,
        Command::ToggleStartup,
        Command::ToggleAlwaysOnTop,
        Command::ToggleWidget,
        Command::VersionAction,
        Command::SetInterval(PollFrequency::OneMinute),
        Command::ToggleProvider(QuotaFamilyId::Claude),
        Command::ToggleProvider(QuotaFamilyId::Codex),
        Command::ToggleProvider(QuotaFamilyId::GithubCopilot),
        Command::SetPlan(GithubCopilotPlan::Pro),
        Command::SetLanguage(Some(LanguageId::French)),
        Command::SetBasis(DisplayBasis::RemainingAllowance),
        Command::SetDensity(DisplayDensity::Compact),
        Command::SetLayout(PopupLayout::Standard),
        Command::SetTheme(AppTheme::HighVisibility),
    ]
}

#[test]
fn a_command_that_changes_preferences_saves_them() {
    for command in all_commands() {
        let mut held = Some(state(&SettingsFile::default()));
        let before = held.as_ref().unwrap().prefs;
        let effects = run_command(
            &mut held,
            command,
            Timestamp { ticks: 0 },
            LanguageId::English,
            &Languages::default(),
        );
        let after = held.unwrap().prefs;
        assert_eq!(after, preferences_after(before, command, LanguageId::English));
        if after != before {
            assert!(effects.contains(&Effect::SaveSettings), "{command:?}");
        }
        assert!(
            after.show_claude_code
                || after.show_codex
                || after.show_antigravity
                || after.show_github_copilot
        );
    }
}

#[test]
fn a_retry_never_waits_longer_than_the_interval() {
    let mut held = Some(state(&SettingsFile::default()));
    held.as_mut().unwrap().prefs.poll_interval_ms = 20_000;
    let report = PollReport {
        claude_code: ProviderPollOutcome::Error { error: PollError::RequestFailed },
        codex: ProviderPollOutcome::Disabled,
        antigravity: ProviderPollOutcome::Disabled,
        github_copilot: ProviderPollOutcome::Disabled,
    };
    let effects = finish_failed_poll(
        &mut held,
        &report,
        None,
        Timestamp { ticks: 0 },
        &Languages::default(),
    );
    assert!(effects.contains(&Effect::SetTimer(TimerKind::Poll, 20_000)));
}

#[test]
fn loading_what_was_loaded_changes_nothing() {
    let features = Features { antigravity: false, self_update: true };
    let text = "{\"widget_width_logical\":0,\"github_copilot_plan\":\"max\"}";
    let first = load_settings(Some(text), features);
    assert_eq!(first.widget_width_logical, Some(1));
    assert!(first.show_github_copilot);
    let written = settings_json(&first).unwrap();
    let second = load_settings(Some(&written), features);
    assert_eq!(settings_json(&second).unwrap(), written);
}

#[test]
fn themes_and_hidden_providers_leave_the_height_alone() {
    let plain = state(&SettingsFile::default());
    let bright =
        state(&SettingsFile { app_theme: AppTheme::HighVisibility, ..SettingsFile::default() });
    assert_eq!(widget_height_for_state(&plain, 144), widget_height_for_state(&bright, 144));
    let mut hidden = state(&SettingsFile::default());
    hidden.states.codex.session = CellState::FetchFailed;
    hidden.states.codex.weekly = CellState::FetchFailed;
    assert_eq!(widget_height_for_state(&plain, 144), widget_height_for_state(&hidden, 144));
}

#[test]
fn the_compact_layout_is_never_taller() {
    for visibility in [
        ShortWindowVisibility::Always,
        ShortWindowVisibility::WarningOnly,
        ShortWindowVisibility::Hidden,
    ] {
        let compact = state(&SettingsFile {
            short_window_visibility: visibility,
            ..SettingsFile::default()
        });
        let standard = state(&SettingsFile {
            short_window_visibility: visibility,
            popup_layout: PopupLayout::Standard,
            ..SettingsFile::default()
        });
        for dpi in [96, 120, 192] {
            assert!(
                widget_height_for_state(&compact, dpi) <= widget_height_for_state(&standard, dpi)
            );
        }
    }
}

#[test]
fn the_header_band_ends_at_one_place_at_every_dpi() {
    for dpi in [96, 107, 110, 115, 120, 125, 144, 150, 168, 175, 200] {
        let compact = visible_rows(PopupLayout::Compact, 2, true);
        let place =
            pace_row_layout(widget_height_for_rows(compact, false, dpi), compact, dpi).weekly_row_y;
        for lines in 0..=2 {
            for session in [false, true] {
                let rows = visible_rows(PopupLayout::Standard, lines, session);
                let height = widget_height_for_rows(rows, false, dpi);
                let layout = pace_row_layout(height, rows, dpi);
                assert_eq!(layout.weekly_row_y, place);
                assert!(layout.provider_header_y >= 0);
                let bottom = layout.weekly_row_y + sc(13, dpi) + lines * sc(14, dpi);
                assert!(bottom <= layout.session_row_y.unwrap_or(height));
                assert_eq!(
                    layout.session_row_y,
                    if session { Some(height - sc(5, dpi) - sc(13, dpi)) } else { None }
                );
            }
        }
        for settings in [
            SettingsFile::default(),
            SettingsFile { show_github_copilot: true, ..SettingsFile::default() },
            SettingsFile {
                popup_layout: PopupLayout::Standard,
                short_window_visibility: ShortWindowVisibility::Always,
                ..SettingsFile::default()
            },
        ] {
            assert_eq!(header_band_bottom(&state(&settings), dpi), place);
        }
    }
    assert_eq!(header_band_bottom(&state(&SettingsFile::default()), 120), 27);
    assert_eq!(header_band_bottom(&state(&SettingsFile::default()), 4_000_000_000), 875_000_000);
}

#[test]
fn rows_stand_at_the_bottom_of_a_taller_popup() {
    let bare = visible_rows(PopupLayout::Compact, 0, false);
    let layout = pace_row_layout(200, bare, 96);
    assert_eq!(layout.weekly_row_y, 182);
    assert_eq!(layout.provider_header_y, 164);
    let full = visible_rows(PopupLayout::Standard, 2, true);
    let layout = pace_row_layout(200, full, 96);
    assert_eq!(layout.session_row_y, Some(182));
    assert_eq!(layout.weekly_row_y, 182 - 10 - 28 - 13);
    assert_eq!(layout.weekly_secondary_y, Some(182 - 10 - 28));
    assert_eq!(pace_row_layout(100, bare, 144).weekly_row_y, 100 - 8 - 20);
}

#[test]
fn a_failed_outcome_leaves_the_cache_alone_and_a_family_keeps_its_id() {
    let mut held = state(&SettingsFile::default());
    let now = Timestamp { ticks: 0 };
    let failed = ProviderPollOutcome::Error { error: PollError::RequestFailed };
    let languages = Languages::default();
    apply_provider_poll_update(&mut held, QuotaFamilyId::Codex, &failed, now, &languages);
    assert!(held.data.is_none());
    let polled = ProviderPollOutcome::Success { usage: UsageData::default() };
    apply_provider_poll_update(&mut held, QuotaFamilyId::Codex, &polled, now, &languages);
    let data = held.data.as_ref().unwrap();
    assert_eq!(data.family(QuotaFamilyId::Codex).unwrap().id, QuotaFamilyId::Codex);
    assert!(data.family(QuotaFamilyId::Claude).is_none());
    apply_provider_poll_update(&mut held, QuotaFamilyId::Codex, &failed, now, &languages);
    assert!(held.data.as_ref().unwrap().family(QuotaFamilyId::Codex).is_some());
}

#[test]
fn sizes_without_a_state_are_those_of_one_provider() {
    assert_eq!(widget_height(&None, 96), 78);
    assert_eq!(total_widget_width(&None, 96), total_widget_width_for(1, 96));
    let held = Some(state(&SettingsFile::default()));
    let s = held.as_ref().unwrap();
    assert_eq!(widget_height(&held, 96), widget_height_for_state(s, 96));
    assert_eq!(total_widget_width(&held, 96), total_widget_width_for_state(s, 96));
}

#[test]
fn scaling_is_exact_at_whole_scales_and_keeps_the_order() {
    for px in [0, 1, 13, 315] {
        assert_eq!(sc(px, 96), px);
        assert_eq!(sc(px, 192), 2 * px);
        assert!(sc(px, 120) <= sc(px + 1, 120));
        assert!(sc(px, 120) <= sc(px, 144));
    }
    assert_eq!(sc(1, 144), 2);
    assert_eq!(sc(-12, 120), -15);
}

#[test]
fn columns_never_outgrow_the_client_area() {
    for width in [0, 40, 315, 900] {
        for families in 1..=4 {
            let column = provider_column_width_for_client_at_dpi(width, families, 96);
            assert!(column >= 0 && column * families <= width);
        }
    }
}

#[test]
fn used_and_left_add_up_to_everything() {
    for percent in [-5, 0, 1, 42, 100, 130] {
        let value = Quantity::whole(percent);
        let used = display_value(DisplayBasis::UsedPercentage, value);
        let left = display_value(DisplayBasis::RemainingAllowance, value);
        match (used, left) {
            (Quantity::Finite(a), Quantity::Finite(b)) => assert_eq!(a + b, 100_000_000),
            _ => panic!("finite values stay finite"),
        }
    }
}

#[test]
fn a_failed_cell_ignores_what_is_cached() {
    let section = UsageSection { percentage: Quantity::whole(42), resets_at: None };
    let strings = Strings { fetch_failed: "Fetch failed", ..Strings::default() };
    let now = Timestamp { ticks: 0 };
    let basis = DisplayBasis::UsedPercentage;
    let with = render_cell(CellState::FetchFailed, Some(section), basis, now, strings);
    let without = render_cell(CellState::FetchFailed, None, basis, now, strings);
    assert_eq!(with, without);
    assert_eq!(with.bar_percent, None);
    assert_eq!(with.text, "Fetch failed");
}

#[test]
fn elapsed_and_remaining_make_up_the_window() {
    for remaining in [0, 1, 3_600, WEEKLY_WINDOW_SECS] {
        let elapsed = elapsed_secs_in_window(remaining, WEEKLY_WINDOW_SECS).unwrap();
        assert_eq!(elapsed + remaining, WEEKLY_WINDOW_SECS);
    }
}

#[test]
fn providers_have_their_own_colors() {
    let families = [
        QuotaFamilyId::Claude,
        QuotaFamilyId::Codex,
        QuotaFamilyId::Antigravity,
        QuotaFamilyId::GithubCopilot,
    ];
    for (i, a) in families.iter().enumerate() {
        for b in &families[i + 1..] {
            assert_ne!(accent_color(*a), accent_color(*b));
        }
    }
}

#[test]
fn a_finished_resize_is_kept_and_placed_again() {
    let mut held = Some(state(&SettingsFile::default()));
    let rect = Rect { left: 100, top: 50, right: 700, bottom: 89 };
    assert_eq!(
        finish_horizontal_resize(&mut held, Some(rect), 192),
        vec![Effect::SaveSettings, Effect::Position, Effect::Render]
    );
    assert_eq!(held.as_ref().unwrap().prefs.widget_width_logical, Some(300));
    let area = Rect { left: 0, top: 0, right: 500, bottom: 400 };
    let areas = WorkAreas { at_saved_position: None, of_window: Some(area), of_taskbar: None };
    for effect in position_at_taskbar(&mut held, areas, 192) {
        if let Effect::MoveWindow { x, y, width, height } = effect {
            assert!(x >= 0 && y >= 0 && x + width <= 500 && y + height <= 400);
        }
    }
}

#[test]
fn a_drag_is_not_disturbed_by_placing() {
    let mut held = Some(state(&SettingsFile::default()));
    held.as_mut().unwrap().pointer.dragging = true;
    let area = Rect { left: 0, top: 0, right: 500, bottom: 400 };
    let areas = WorkAreas { at_saved_position: None, of_window: Some(area), of_taskbar: None };
    assert_eq!(position_at_taskbar(&mut held, areas, 96), vec![]);
    held.as_mut().unwrap().pointer.dragging = false;
    let nowhere = WorkAreas { at_saved_position: None, of_window: None, of_taskbar: None };
    assert_eq!(position_at_taskbar(&mut held, nowhere, 96), vec![]);
}

#[test]
fn sensitivities_and_visibilities_are_saved() {
    let settings = SettingsFile {
        short_window_alert_sensitivity: ShortWindowAlertSensitivity::Relaxed,
        short_window_visibility: ShortWindowVisibility::Hidden,
        ..SettingsFile::default()
    };
    let text = settings_json(&settings).unwrap();
    let back = load_settings(Some(&text), Features { antigravity: true, self_update: true });
    assert_eq!(back.short_window_alert_sensitivity, ShortWindowAlertSensitivity::Relaxed);
    assert_eq!(back.short_window_visibility, ShortWindowVisibility::Hidden);
}

#[test]
fn a_saved_width_survives_being_shown() {
    for dpi in [96, 97, 120, 144, 168, 192, 240] {
        for width in [1, 2, 315, 640, 1_199, 1_200] {
            assert_eq!(logical_from_device(sc(width, dpi), dpi), width, "{width} at {dpi}");
        }
    }
    for dpi in [96, 97, 144, 960] {
        for width in [10_001, 100_000, 214_748_364] {
            assert_eq!(logical_from_device(sc(width, dpi), dpi), width, "{width} at {dpi}");
        }
    }
    assert_eq!(logical_from_device(sc(1, 48), 48), 2);
}

#[test]
fn toggling_twice_is_toggling_never() {
    let before = state(&SettingsFile::default()).prefs;
    for command in [Command::ToggleAlwaysOnTop, Command::ToggleWidget] {
        let once = preferences_after(before, command, LanguageId::English);
        assert_ne!(once, before);
        assert_eq!(preferences_after(once, command, LanguageId::English), before);
    }
}
