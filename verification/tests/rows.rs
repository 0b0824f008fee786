//! Rows of the popup.

use usage_monitor::cells::{CellState, render_cell, status_text};
use usage_monitor::draw::{usage_bar_has_content};
use usage_monitor::geometry::{Rect, SEGMENT_H, active_family_count, sc, total_widget_width_for};
use usage_monitor::models::{UsageSection};
use usage_monitor::numbers::{Quantity};
use usage_monitor::pace::{PaceGuidanceLines, session_pace_for_cell, weekly_pace_guidance_lines};
use usage_monitor::placement::{compute_auto_popup_position, window_size_needs_sync};
use usage_monitor::rows::{
    ROW_GAP_H, pace_row_layout, popup_height_logical, session_cell_decision,
    session_cell_justifies_warning_only_row, session_row_cell_shows, session_row_visible,
    visible_rows, weekly_pace_extra_lines_for, weekly_pace_extra_lines_shown,
    widget_height_for_rows,
};
use usage_monitor::settings::{
    DisplayBasis, DisplayDensity, PopupLayout, ShortWindowAlertSensitivity, ShortWindowVisibility,
};
use usage_monitor::strings::{Strings};
use usage_monitor::time::{SESSION_WINDOW_SECS, Timestamp, WEEKLY_WINDOW_SECS};

/// A value in percent or units.
fn q(value: f64) -> Quantity {
    if value.is_nan() {
        Quantity::NotANumber
    } else if value == f64::INFINITY {
        Quantity::PosInfinity
    } else if value == f64::NEG_INFINITY {
        Quantity::NegInfinity
    } else {
        Quantity::Finite((value * 1_000_000.0).round() as i64)
    }
}

/// The time of every test.
fn noon() -> Timestamp {
    Timestamp { ticks: 1_700_000_000 * 10_000_000 }
}

fn after(time: Timestamp, secs: u64) -> Timestamp {
    Timestamp { ticks: time.ticks + secs as i64 * 10_000_000 }
}

fn english() -> Strings {
    Strings {
        authentication_expired: "Sign-in expired",
        authentication_problem: "Check sign-in",
        credentials_unavailable: "No credentials",
        fetch_failed: "Fetch failed",
        loading: "Loading",
        not_available: "Not available",
        full_reset: "Full reset",
        now: "now",
        day_suffix: "d",
        hour_suffix: "h",
        minute_suffix: "m",
        second_suffix: "s",
        elapsed: "elapsed",
        reset_in: "resets in",
        reset_in_separator: " ",
        per_day_suffix: "day",
        per_hour_suffix: "hr",
        pace_used_prefix: "Used",
        pace_remaining_prefix: "Left",
        weekly_pace_judging: "judging",
        weekly_pace_under_pace: "below pace",
        weekly_pace_on_track: "steady",
        weekly_pace_slightly_overpacing: "a bit fast",
        weekly_pace_overpacing: "too fast",
        future_pace_label: "From here",
        pace_diff_label: "Pace gap",
        exhaustion_label: "Runs out",
        exhaustion_before_reset: "before reset",
        session_window_label: "5-hour window",
        weekly_window_label: "7-day window",
        session_window: "5h",
        weekly_window: "7d",
        codex_model: "Codex",
        antigravity_model: "Antigravity",
        window_title: "Usage",
        ..Strings::default()
    }
}

#[test]
fn usage_bar_has_content_is_true_for_percent_with_empty_text() {
    assert!(usage_bar_has_content(Some(q(50.0)), ""));
}

#[test]
fn usage_bar_has_content_is_true_for_percent_with_text() {
    assert!(usage_bar_has_content(Some(q(50.0)), "50%"));
}

#[test]
fn four_provider_poll_growth_has_current_height_visible_header_and_safe_bottom() {
    let loading_rows = visible_rows(PopupLayout::Standard, 0, true);
    let polled_rows = visible_rows(PopupLayout::Standard, 2, true);
    let loading_height = widget_height_for_rows(loading_rows, true, 96);
    let polled_height = widget_height_for_rows(polled_rows, true, 96);

    assert_eq!(active_family_count(true, true, true, true), 4);
    assert!(polled_height > loading_height);
    assert!(polled_height > widget_height_for_rows(polled_rows, false, 96));

    let width = total_widget_width_for(4, 96);
    let stale_loading_rect = Rect {
        left: 1500,
        top: 900,
        right: 1500 + width,
        bottom: 900 + loading_height,
    };
    assert!(window_size_needs_sync(
        Some(stale_loading_rect),
        width,
        polled_height
    ));

    let work_area = Rect {
        left: 0,
        top: 0,
        right: 1920,
        bottom: 1040,
    };
    let (_, y) = compute_auto_popup_position(work_area, 1900, width, polled_height, 0);
    assert!(y + polled_height <= work_area.bottom);

    let copilot_row_height = sc(ROW_GAP_H + SEGMENT_H, 96);
    let layout = pace_row_layout(polled_height - copilot_row_height, polled_rows, 96);
    assert!(layout.provider_header_y >= 0);

    let synchronized_rect = Rect {
        left: 1500,
        top: y,
        right: 1500 + width,
        bottom: y + polled_height,
    };
    assert!(!window_size_needs_sync(
        Some(synchronized_rect),
        width,
        polled_height
    ));
}

#[test]
fn pace_row_layout_for_compact_omits_session_row() {
    let rows = visible_rows(PopupLayout::Compact, 2, true);
    let height = sc(popup_height_logical(rows), 96);
    let layout = pace_row_layout(height, rows, 96);
    assert_eq!(layout.session_row_y, None);
    assert_eq!(layout.weekly_secondary_y, None);
}

#[test]
fn pace_row_layout_for_standard_matches_pre_popup_layout_positions() {
    let rows = visible_rows(PopupLayout::Standard, 1, true);
    let height = sc(popup_height_logical(rows), 96);
    let layout = pace_row_layout(height, rows, 96);
    assert!(layout.session_row_y.is_some());
    assert!(layout.weekly_secondary_y.is_some());
}

#[test]
fn session_pace_for_cell_is_none_for_every_non_ok_state() {
    let now = noon();
    let strings = english();
    let section = UsageSection {
        percentage: q(80.0),
        resets_at: Some(after(now, SESSION_WINDOW_SECS / 2)),
    };
    for state in [
        CellState::Loading,
        CellState::AuthenticationExpired,
        CellState::AuthenticationProblem,
        CellState::CredentialsUnavailable,
        CellState::FetchFailed,
        CellState::NotAvailable,
    ] {
        assert_eq!(
            session_pace_for_cell(
                state,
                Some(section),
                now,
                DisplayBasis::UsedPercentage,
                ShortWindowVisibility::Always,
                ShortWindowAlertSensitivity::Standard,
                strings,
            ),
            None,
            "state {state:?} must not produce pace guidance even with a cached section"
        );
    }
}

#[test]
fn session_pace_for_cell_is_some_when_ok_with_section() {
    let now = noon();
    let strings = english();
    let section = UsageSection {
        percentage: q(24.0),
        resets_at: Some(after(now, SESSION_WINDOW_SECS / 2)),
    };
    assert!(session_pace_for_cell(
        CellState::Ready,
        Some(section),
        now,
        DisplayBasis::UsedPercentage,
        ShortWindowVisibility::Always,
        ShortWindowAlertSensitivity::Standard,
        strings,
    )
    .is_some());
}

#[test]
fn weekly_pace_extra_lines_for_is_zero_without_secondary_or_detail() {
    let lines = PaceGuidanceLines {
        primary: "x".to_string(),
        secondary: None,
        detail: None,
        is_warning: false,
    };
    assert_eq!(weekly_pace_extra_lines_for(Some(&lines)), 0);
    assert_eq!(weekly_pace_extra_lines_for(None), 0);
}

#[test]
fn weekly_pace_extra_lines_for_is_one_with_secondary_only() {
    let lines = PaceGuidanceLines {
        primary: "x".to_string(),
        secondary: Some("y".to_string()),
        detail: None,
        is_warning: false,
    };
    assert_eq!(weekly_pace_extra_lines_for(Some(&lines)), 1);
}

#[test]
fn weekly_pace_extra_lines_for_is_two_with_secondary_and_detail() {
    let lines = PaceGuidanceLines {
        primary: "x".to_string(),
        secondary: Some("y".to_string()),
        detail: Some("z".to_string()),
        is_warning: false,
    };
    assert_eq!(weekly_pace_extra_lines_for(Some(&lines)), 2);
}

#[test]
fn weekly_pace_extra_lines_shown_ignores_hidden_providers_pace() {
    let lines = PaceGuidanceLines {
        primary: "x".to_string(),
        secondary: Some("y".to_string()),
        detail: Some("z".to_string()),
        is_warning: false,
    };
    assert_eq!(
        weekly_pace_extra_lines_shown(true, None, false, Some(&lines), false, None),
        0
    );
}

#[test]
fn weekly_pace_extra_lines_shown_uses_max_across_shown_providers() {
    let one_line = PaceGuidanceLines {
        primary: "x".to_string(),
        secondary: Some("y".to_string()),
        detail: None,
        is_warning: false,
    };
    let two_lines = PaceGuidanceLines {
        primary: "x".to_string(),
        secondary: Some("y".to_string()),
        detail: Some("z".to_string()),
        is_warning: false,
    };
    assert_eq!(
        weekly_pace_extra_lines_shown(
            true,
            Some(&one_line),
            true,
            Some(&two_lines),
            false,
            None
        ),
        2
    );
}

#[test]
fn weekly_pace_extra_lines_for_compact_density_is_zero() {
    let now = noon();
    let strings = english();
    let resets_at = Some(after(now, WEEKLY_WINDOW_SECS / 2));
    let lines = weekly_pace_guidance_lines(
        Some(q(69.0)),
        resets_at,
        now,
        DisplayBasis::UsedPercentage,
        DisplayDensity::Compact,
        strings,
    )
    .unwrap();
    assert_eq!(weekly_pace_extra_lines_for(Some(&lines)), 0);
}

#[test]
fn weekly_pace_extra_lines_for_standard_density_is_one() {
    let now = noon();
    let strings = english();
    let resets_at = Some(after(now, WEEKLY_WINDOW_SECS / 2));
    let lines = weekly_pace_guidance_lines(
        Some(q(69.0)),
        resets_at,
        now,
        DisplayBasis::UsedPercentage,
        DisplayDensity::Standard,
        strings,
    )
    .unwrap();
    assert_eq!(weekly_pace_extra_lines_for(Some(&lines)), 1);
}

#[test]
fn weekly_pace_extra_lines_for_detailed_density_is_two() {
    let now = noon();
    let strings = english();
    let resets_at = Some(after(now, WEEKLY_WINDOW_SECS / 2));
    let lines = weekly_pace_guidance_lines(
        Some(q(69.0)),
        resets_at,
        now,
        DisplayBasis::UsedPercentage,
        DisplayDensity::Detailed,
        strings,
    )
    .unwrap();
    assert_eq!(weekly_pace_extra_lines_for(Some(&lines)), 2);
}

#[test]
fn session_cell_decision_always_ok_with_pace_uses_percent_and_primary() {
    let lines = PaceGuidanceLines {
        primary: "68% overpacing".to_string(),
        secondary: None,
        detail: None,
        is_warning: true,
    };
    let (shows, percent, text, is_warning) = session_cell_decision(
        CellState::Ready,
        Some(q(42.0)),
        "42%",
        Some(&lines),
        ShortWindowVisibility::Always,
    );
    assert!(shows);
    assert_eq!(percent, Some(q(42.0)));
    assert_eq!(text, "68% overpacing");
    assert!(is_warning);
}

#[test]
fn session_cell_decision_always_loading_keeps_existing_text() {
    let strings = english();
    let (shows, percent, text, _is_warning) = session_cell_decision(
        CellState::Loading,
        None,
        strings.loading,
        None,
        ShortWindowVisibility::Always,
    );
    assert!(shows);
    assert_eq!(percent, None);
    assert_eq!(text, strings.loading);
}

#[test]
fn session_cell_decision_always_fetch_failed_keeps_existing_text() {
    let strings = english();
    let (shows, percent, text, _is_warning) = session_cell_decision(
        CellState::FetchFailed,
        None,
        strings.fetch_failed,
        None,
        ShortWindowVisibility::Always,
    );
    assert!(shows);
    assert_eq!(percent, None);
    assert_eq!(text, strings.fetch_failed);
}

#[test]
fn session_cell_decision_always_authentication_problem_keeps_existing_text() {
    let strings = english();
    let (shows, percent, text, _is_warning) = session_cell_decision(
        CellState::AuthenticationProblem,
        None,
        strings.authentication_problem,
        None,
        ShortWindowVisibility::Always,
    );
    assert!(shows);
    assert_eq!(percent, None);
    assert_eq!(text, strings.authentication_problem);
}

#[test]
fn session_cell_decision_always_credentials_unavailable_keeps_existing_text() {
    let strings = english();
    let (shows, percent, text, _is_warning) = session_cell_decision(
        CellState::CredentialsUnavailable,
        None,
        strings.credentials_unavailable,
        None,
        ShortWindowVisibility::Always,
    );
    assert!(shows);
    assert_eq!(percent, None);
    assert_eq!(text, strings.credentials_unavailable);
}

#[test]
fn session_cell_decision_always_not_available_keeps_existing_text() {
    let strings = english();
    let (shows, percent, text, _is_warning) = session_cell_decision(
        CellState::NotAvailable,
        None,
        strings.not_available,
        None,
        ShortWindowVisibility::Always,
    );
    assert!(shows);
    assert_eq!(percent, None);
    assert_eq!(text, strings.not_available);
}

#[test]
fn session_cell_decision_warning_only_ok_normal_is_blank() {
    let (shows, percent, text, _is_warning) = session_cell_decision(
        CellState::Ready,
        Some(q(24.0)),
        "24%",
        None,
        ShortWindowVisibility::WarningOnly,
    );
    assert!(!shows);
    assert_eq!(percent, None);
    assert_eq!(text, "");
}

#[test]
fn session_cell_decision_warning_only_overpacing_shows_pace() {
    let lines = PaceGuidanceLines {
        primary: "68% overpacing".to_string(),
        secondary: None,
        detail: None,
        is_warning: true,
    };
    let (shows, percent, text, is_warning) = session_cell_decision(
        CellState::Ready,
        Some(q(68.0)),
        "68%",
        Some(&lines),
        ShortWindowVisibility::WarningOnly,
    );
    assert!(shows);
    assert_eq!(percent, Some(q(68.0)));
    assert_eq!(text, "68% overpacing");
    assert!(is_warning);
}

#[test]
fn session_cell_decision_shows_hundred_percent_row_under_warning_only_near_reset() {
    let now = noon();
    let strings = english();
    let section = UsageSection {
        percentage: q(100.0),
        resets_at: Some(after(now, 35 * 60)),
    };
    let pace = session_pace_for_cell(
        CellState::Ready,
        Some(section),
        now,
        DisplayBasis::UsedPercentage,
        ShortWindowVisibility::WarningOnly,
        ShortWindowAlertSensitivity::Standard,
        strings,
    );
    let (shows, percent, _text, is_warning) = session_cell_decision(
        CellState::Ready,
        Some(q(100.0)),
        "100%",
        pace.as_ref(),
        ShortWindowVisibility::WarningOnly,
    );
    assert!(
        shows,
        "the 5h row itself must be shown, not just its pace text computed"
    );
    assert_eq!(percent, Some(q(100.0)));
    assert!(is_warning);
}

#[test]
fn session_cell_decision_warning_only_non_ok_shows_existing_text() {
    let strings = english();
    for state in [
        CellState::Loading,
        CellState::AuthenticationExpired,
        CellState::AuthenticationProblem,
        CellState::CredentialsUnavailable,
        CellState::FetchFailed,
        CellState::NotAvailable,
    ] {
        let text = status_text(state, strings);
        let (shows, percent, out_text, _is_warning) =
            session_cell_decision(state, None, text, None, ShortWindowVisibility::WarningOnly);
        assert!(
            shows,
            "state {state:?} should keep its status text under WarningOnly"
        );
        assert_eq!(percent, None);
        assert_eq!(out_text, text);
    }
}

#[test]
fn session_cell_decision_ok_with_missing_data_keeps_not_available_text_even_under_warning_only()
{
    let strings = english();
    let (shows, percent, text, _is_warning) = session_cell_decision(
        CellState::Ready,
        None,
        strings.not_available,
        None,
        ShortWindowVisibility::WarningOnly,
    );
    assert!(shows);
    assert_eq!(percent, None);
    assert_eq!(text, strings.not_available);
}

#[test]
fn session_cell_decision_hidden_blanks_every_state_including_errors() {
    let strings = english();
    let lines = PaceGuidanceLines {
        primary: "68% overpacing".to_string(),
        secondary: None,
        detail: None,
        is_warning: true,
    };
    let (shows, percent, text, _is_warning) = session_cell_decision(
        CellState::Ready,
        Some(q(68.0)),
        "68%",
        Some(&lines),
        ShortWindowVisibility::Hidden,
    );
    assert!(!shows);
    assert_eq!(percent, None);
    assert_eq!(text, "");
    for state in [
        CellState::Loading,
        CellState::AuthenticationExpired,
        CellState::AuthenticationProblem,
        CellState::CredentialsUnavailable,
        CellState::FetchFailed,
        CellState::NotAvailable,
    ] {
        let existing = status_text(state, strings);
        let (shows, percent, text, _is_warning) =
            session_cell_decision(state, None, existing, None, ShortWindowVisibility::Hidden);
        assert!(!shows, "state {state:?} must stay hidden under Hidden");
        assert_eq!(percent, None);
        assert_eq!(text, "");
    }
}

#[test]
fn session_pace_for_cell_and_render_cell_agree_after_ok_to_fetch_failed_transition() {
    let now = noon();
    let strings = english();
    let remaining = SESSION_WINDOW_SECS - 3600;
    let section = UsageSection {
        percentage: q(60.0),
        resets_at: Some(after(now, remaining)),
    };

    let ok_pace = session_pace_for_cell(
        CellState::Ready,
        Some(section),
        now,
        DisplayBasis::UsedPercentage,
        ShortWindowVisibility::Always,
        ShortWindowAlertSensitivity::Standard,
        strings,
    )
    .expect("first poll should have warning-worthy pace");

    let failed_text = render_cell(
        CellState::FetchFailed,
        None,
        DisplayBasis::UsedPercentage,
        noon(),
        strings,
    )
    .text;
    let failed_pace = session_pace_for_cell(
        CellState::FetchFailed,
        None,
        now,
        DisplayBasis::UsedPercentage,
        ShortWindowVisibility::Always,
        ShortWindowAlertSensitivity::Standard,
        strings,
    );
    assert_eq!(failed_pace, None);

    let (shows, percent, text, _is_warning) = session_cell_decision(
        CellState::FetchFailed,
        None,
        &failed_text,
        failed_pace.as_ref(),
        ShortWindowVisibility::Always,
    );
    assert!(shows);
    assert_eq!(percent, None);
    assert_eq!(text, strings.fetch_failed);
    assert_ne!(text, ok_pace.primary);
}

#[test]
fn session_row_visible_false_for_warning_only_with_no_warnings_or_errors_anywhere() {
    let (claude_shows, _, _, _) = session_cell_decision(
        CellState::Ready,
        Some(q(24.0)),
        "24%",
        None,
        ShortWindowVisibility::WarningOnly,
    );
    let (codex_shows, _, _, _) = session_cell_decision(
        CellState::Ready,
        Some(q(10.0)),
        "10%",
        None,
        ShortWindowVisibility::WarningOnly,
    );
    assert!(!session_row_visible(
        true,
        claude_shows,
        true,
        codex_shows,
        false,
        false
    ));
}

#[test]
fn session_row_visible_true_for_warning_only_when_one_provider_is_in_error() {
    let (claude_shows, _, _, _) = session_cell_decision(
        CellState::Ready,
        Some(q(24.0)),
        "24%",
        None,
        ShortWindowVisibility::WarningOnly,
    );
    let strings = english();
    let (codex_shows, _, _, _) = session_cell_decision(
        CellState::FetchFailed,
        None,
        strings.fetch_failed,
        None,
        ShortWindowVisibility::WarningOnly,
    );
    assert!(session_row_visible(
        true,
        claude_shows,
        true,
        codex_shows,
        false,
        false
    ));
}

#[test]
fn session_row_visible_false_for_hidden_regardless_of_state() {
    let strings = english();
    let lines = PaceGuidanceLines {
        primary: "x".to_string(),
        secondary: None,
        detail: None,
        is_warning: true,
    };
    let (claude_shows, _, _, _) = session_cell_decision(
        CellState::Ready,
        Some(q(90.0)),
        "90%",
        Some(&lines),
        ShortWindowVisibility::Hidden,
    );
    let (codex_shows, _, _, _) = session_cell_decision(
        CellState::FetchFailed,
        None,
        strings.fetch_failed,
        None,
        ShortWindowVisibility::Hidden,
    );
    assert!(!session_row_visible(
        true,
        claude_shows,
        true,
        codex_shows,
        false,
        false
    ));
}

#[test]
fn justifies_warning_only_row_is_false_for_not_available_alone() {
    assert!(!session_cell_justifies_warning_only_row(
        CellState::NotAvailable,
        None
    ));
}

#[test]
fn justifies_warning_only_row_is_false_for_ok_without_pace() {
    assert!(!session_cell_justifies_warning_only_row(
        CellState::Ready,
        None
    ));
}

#[test]
fn justifies_warning_only_row_is_true_for_any_pace_present() {
    let lines = PaceGuidanceLines {
        primary: "x".to_string(),
        secondary: None,
        detail: None,
        is_warning: true,
    };
    assert!(session_cell_justifies_warning_only_row(
        CellState::Ready,
        Some(&lines)
    ));
}

#[test]
fn justifies_warning_only_row_is_true_for_every_non_ok_non_not_available_state() {
    for state in [
        CellState::Loading,
        CellState::AuthenticationExpired,
        CellState::AuthenticationProblem,
        CellState::CredentialsUnavailable,
        CellState::FetchFailed,
    ] {
        assert!(
            session_cell_justifies_warning_only_row(state, None),
            "state {state:?} must still justify the row on its own"
        );
    }
}

#[test]
fn session_row_cell_shows_matches_session_cell_decision_for_always_and_hidden() {
    let lines = PaceGuidanceLines {
        primary: "x".to_string(),
        secondary: None,
        detail: None,
        is_warning: false,
    };
    for visibility in [ShortWindowVisibility::Always, ShortWindowVisibility::Hidden] {
        for (state, percent, pace) in [
            (CellState::Ready, Some(q(26.0)), Some(&lines)),
            (CellState::NotAvailable, None, None),
            (CellState::FetchFailed, None, None),
        ] {
            let expected = session_cell_decision(state, percent, "text", pace, visibility).0;
            assert_eq!(
                session_row_cell_shows(state, percent, "text", pace, visibility),
                expected,
                "state={state:?} visibility={visibility:?} must match session_cell_decision outside WarningOnly"
            );
        }
    }
}

#[test]
fn session_row_always_shows_for_normal_value_and_not_available() {
    let lines = PaceGuidanceLines {
        primary: "26%".to_string(),
        secondary: None,
        detail: None,
        is_warning: false,
    };
    let claude_shows = session_row_cell_shows(
        CellState::Ready,
        Some(q(26.0)),
        "26%",
        Some(&lines),
        ShortWindowVisibility::Always,
    );
    let codex_shows = session_row_cell_shows(
        CellState::NotAvailable,
        None,
        "N/A",
        None,
        ShortWindowVisibility::Always,
    );
    assert!(session_row_visible(
        true,
        claude_shows,
        true,
        codex_shows,
        false,
        false
    ));
}

#[test]
fn session_row_warning_only_hides_for_normal_value_and_not_available() {
    let claude_shows = session_row_cell_shows(
        CellState::Ready,
        Some(q(26.0)),
        "26%",
        None,
        ShortWindowVisibility::WarningOnly,
    );
    let codex_shows = session_row_cell_shows(
        CellState::NotAvailable,
        None,
        "N/A",
        None,
        ShortWindowVisibility::WarningOnly,
    );
    assert!(!session_row_visible(
        true,
        claude_shows,
        true,
        codex_shows,
        false,
        false
    ));
}

#[test]
fn session_row_warning_only_shows_for_hundred_percent_via_real_pace_pipeline() {
    let now = noon();
    let strings = english();
    let section = UsageSection {
        percentage: q(100.0),
        resets_at: Some(after(now, 35 * 60)),
    };
    let pace = session_pace_for_cell(
        CellState::Ready,
        Some(section),
        now,
        DisplayBasis::UsedPercentage,
        ShortWindowVisibility::WarningOnly,
        ShortWindowAlertSensitivity::Standard,
        strings,
    );
    let claude_shows = session_row_cell_shows(
        CellState::Ready,
        Some(q(100.0)),
        "100%",
        pace.as_ref(),
        ShortWindowVisibility::WarningOnly,
    );
    let codex_shows = session_row_cell_shows(
        CellState::NotAvailable,
        None,
        "N/A",
        None,
        ShortWindowVisibility::WarningOnly,
    );
    assert!(session_row_visible(
        true,
        claude_shows,
        true,
        codex_shows,
        false,
        false
    ));
}

#[test]
fn session_row_warning_only_shows_for_overpacing_and_not_available() {
    let lines = PaceGuidanceLines {
        primary: "68% overpacing".to_string(),
        secondary: None,
        detail: None,
        is_warning: true,
    };
    let claude_shows = session_row_cell_shows(
        CellState::Ready,
        Some(q(68.0)),
        "68%",
        Some(&lines),
        ShortWindowVisibility::WarningOnly,
    );
    let codex_shows = session_row_cell_shows(
        CellState::NotAvailable,
        None,
        "N/A",
        None,
        ShortWindowVisibility::WarningOnly,
    );
    assert!(session_row_visible(
        true,
        claude_shows,
        true,
        codex_shows,
        false,
        false
    ));
}

#[test]
fn session_row_warning_only_hides_when_no_provider_is_warning_or_non_ok() {
    let claude_shows = session_row_cell_shows(
        CellState::Ready,
        Some(q(10.0)),
        "10%",
        None,
        ShortWindowVisibility::WarningOnly,
    );
    let codex_shows = session_row_cell_shows(
        CellState::Ready,
        Some(q(15.0)),
        "15%",
        None,
        ShortWindowVisibility::WarningOnly,
    );
    assert!(!session_row_visible(
        true,
        claude_shows,
        true,
        codex_shows,
        false,
        false
    ));
}

#[test]
fn session_row_warning_only_hides_when_all_active_providers_are_not_available() {
    let claude_shows = session_row_cell_shows(
        CellState::NotAvailable,
        None,
        "N/A",
        None,
        ShortWindowVisibility::WarningOnly,
    );
    let codex_shows = session_row_cell_shows(
        CellState::NotAvailable,
        None,
        "N/A",
        None,
        ShortWindowVisibility::WarningOnly,
    );
    assert!(!session_row_visible(
        true,
        claude_shows,
        true,
        codex_shows,
        false,
        false
    ));
}

#[test]
fn session_row_warning_only_shows_for_fetch_failed_alone() {
    let strings = english();
    let claude_shows = session_row_cell_shows(
        CellState::FetchFailed,
        None,
        strings.fetch_failed,
        None,
        ShortWindowVisibility::WarningOnly,
    );
    assert!(session_row_visible(
        true,
        claude_shows,
        false,
        false,
        false,
        false
    ));
}

#[test]
fn session_row_warning_only_shows_for_loading_and_provider_errors() {
    let strings = english();
    for (state, text) in [
        (CellState::Loading, strings.loading),
        (
            CellState::AuthenticationExpired,
            strings.authentication_expired,
        ),
        (
            CellState::AuthenticationProblem,
            strings.authentication_problem,
        ),
        (
            CellState::CredentialsUnavailable,
            strings.credentials_unavailable,
        ),
        (CellState::FetchFailed, strings.fetch_failed),
    ] {
        let claude_shows =
            session_row_cell_shows(state, None, text, None, ShortWindowVisibility::WarningOnly);
        assert!(
            session_row_visible(true, claude_shows, false, false, false, false),
            "state {state:?} must keep the row visible under WarningOnly"
        );
    }
}

#[test]
fn session_row_hidden_never_shows_regardless_of_state() {
    let lines = PaceGuidanceLines {
        primary: "x".to_string(),
        secondary: None,
        detail: None,
        is_warning: true,
    };
    let claude_shows = session_row_cell_shows(
        CellState::Ready,
        Some(q(100.0)),
        "100%",
        Some(&lines),
        ShortWindowVisibility::Hidden,
    );
    let codex_shows = session_row_cell_shows(
        CellState::FetchFailed,
        None,
        "fetch failed",
        None,
        ShortWindowVisibility::Hidden,
    );
    assert!(!session_row_visible(
        true,
        claude_shows,
        true,
        codex_shows,
        false,
        false
    ));
}

#[test]
fn session_row_ignores_an_off_providers_justification() {
    let now = noon();
    let strings = english();
    let section = UsageSection {
        percentage: q(100.0),
        resets_at: Some(after(now, 35 * 60)),
    };
    let pace = session_pace_for_cell(
        CellState::Ready,
        Some(section),
        now,
        DisplayBasis::UsedPercentage,
        ShortWindowVisibility::WarningOnly,
        ShortWindowAlertSensitivity::Standard,
        strings,
    );
    let claude_shows = session_row_cell_shows(
        CellState::Ready,
        Some(q(100.0)),
        "100%",
        pace.as_ref(),
        ShortWindowVisibility::WarningOnly,
    );
    let codex_shows = session_row_cell_shows(
        CellState::NotAvailable,
        None,
        "N/A",
        None,
        ShortWindowVisibility::WarningOnly,
    );
    assert!(!session_row_visible(
        false,
        claude_shows,
        true,
        codex_shows,
        false,
        false
    ));
}

#[test]
fn header_band_bottom_is_the_same_boundary_for_compact_and_standard() {
    let compact_rows = visible_rows(PopupLayout::Compact, 2, true);
    let compact_bottom =
        pace_row_layout(sc(popup_height_logical(compact_rows), 96), compact_rows, 96).weekly_row_y;

    let standard_with_session_rows = visible_rows(PopupLayout::Standard, 2, true);
    let standard_with_session_bottom = pace_row_layout(
        sc(popup_height_logical(standard_with_session_rows), 96),
        standard_with_session_rows,
        96,
    )
    .weekly_row_y;

    let standard_without_session_rows = visible_rows(PopupLayout::Standard, 0, false);
    let standard_without_session_bottom = pace_row_layout(
        sc(popup_height_logical(standard_without_session_rows), 96),
        standard_without_session_rows,
        96,
    )
    .weekly_row_y;

    assert_eq!(compact_bottom, standard_with_session_bottom);
    assert_eq!(compact_bottom, standard_without_session_bottom);
}
