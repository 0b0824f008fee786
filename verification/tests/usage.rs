//! Cells, pace guidance and polling results.

use usage_monitor::cells::{
    CellState, display_value, format_banked_reset_text, quota_item_section, render_cell,
    render_generic_quota_item, status_text,
};
use usage_monitor::models::{
    AppUsageData, BankedResetCount, GITHUB_COPILOT_MONTHLY_ITEM_ID, QuotaFamilyId, QuotaItem,
    QuotaItemAvailability, QuotaMetric, QuotaUnit, UsageData, UsageSection,
};
use usage_monitor::numbers::{Quantity, Ratio};
use usage_monitor::pace::{
    FUTURE_PACE_HOURLY_THRESHOLD_SECS, FuturePaceGuidance, FuturePaceUnit,
    PACE_JUDGING_MIN_ELAPSED_SECS, PACE_ON_TRACK_MAX_PT, PACE_SLIGHTLY_OVER_MAX_PT,
    PACE_UNDER_PACE_MAX_PT, PaceGuidanceLines, WeeklyPaceStatus, compact_weekly_remaining_for_cell,
    compact_weekly_remaining_text, format_future_pace_guidance, format_pace_diff_pt,
    format_pace_rate_value, format_window_time, future_pace_guidance, short_window_is_overpacing,
    short_window_pace_guidance_lines, weekly_exhaustion_lead_secs, weekly_pace_for_cell,
    weekly_pace_guidance_lines, weekly_pace_status, weekly_pace_status_text,
};
use usage_monitor::poll::{
    PollError, PollReport, ProviderPollOutcome, merge_successful_provider,
    merge_successful_providers, poll_cell_states, poll_quota_item_state, provider_error_cell_state,
};
use usage_monitor::rows::{session_cell_decision};
use usage_monitor::settings::{
    DisplayBasis, DisplayDensity, ShortWindowAlertSensitivity, ShortWindowVisibility,
};
use usage_monitor::strings::{Strings};
use usage_monitor::time::{
    DurationGranularity, SESSION_WINDOW_SECS, Timestamp, WEEKLY_WINDOW_SECS,
    WINDOW_TIME_TOLERANCE_SECS, countdown_text, elapsed_secs_in_window, remaining_secs_at,
};

/// A value in percent or units.
fn q(value: f64) -> Quantity {
    if value.is_nan() {
        Quantity::NotANumber
    } else if value == f64::INFINITY {
        Quantity::PosInfinity
    } else if value == f64::NEG_INFINITY {
        Quantity::NegInfinity
    } else {
        Quantity::Finite((value * 1_000_000.0).round() as i64)
    }
}

/// A quotient; what is not finite has no denominator.
fn ratio(value: f64) -> Ratio {
    if value.is_finite() {
        Ratio { num: (value * 1_000_000.0).round() as i128, den: 1 }
    } else {
        Ratio { num: 0, den: 0 }
    }
}

/// A quotient as a number.
fn value_of(value: Ratio) -> f64 {
    value.num as f64 / value.den as f64 / 1_000_000.0
}

/// Millionths of a percent, in percent.
fn percent(millionths: i64) -> f64 {
    millionths as f64 / 1_000_000.0
}

/// The time of every test.
fn noon() -> Timestamp {
    Timestamp { ticks: 1_700_000_000 * 10_000_000 }
}

fn after(time: Timestamp, secs: u64) -> Timestamp {
    Timestamp { ticks: time.ticks + secs as i64 * 10_000_000 }
}

fn before(time: Timestamp, secs: u64) -> Timestamp {
    Timestamp { ticks: time.ticks - secs as i64 * 10_000_000 }
}

fn english() -> Strings {
    Strings {
        authentication_expired: "Sign-in expired",
        authentication_problem: "Check sign-in",
        credentials_unavailable: "No credentials",
        fetch_failed: "Fetch failed",
        loading: "Loading",
        not_available: "Not available",
        full_reset: "Full reset",
        now: "now",
        day_suffix: "d",
        hour_suffix: "h",
        minute_suffix: "m",
        second_suffix: "s",
        elapsed: "elapsed",
        reset_in: "resets in",
        reset_in_separator: " ",
        per_day_suffix: "day",
        per_hour_suffix: "hr",
        pace_used_prefix: "Used",
        pace_remaining_prefix: "Left",
        weekly_pace_judging: "judging",
        weekly_pace_under_pace: "below pace",
        weekly_pace_on_track: "steady",
        weekly_pace_slightly_overpacing: "a bit fast",
        weekly_pace_overpacing: "too fast",
        future_pace_label: "From here",
        pace_diff_label: "Pace gap",
        exhaustion_label: "Runs out",
        exhaustion_before_reset: "before reset",
        session_window_label: "5-hour window",
        weekly_window_label: "7-day window",
        session_window: "5h",
        weekly_window: "7d",
        codex_model: "Codex",
        antigravity_model: "Antigravity",
        window_title: "Usage",
        ..Strings::default()
    }
}

fn japanese() -> Strings {
    Strings {
        authentication_expired: "認証切れ",
        credentials_unavailable: "認証情報を確認できません",
        authentication_problem: "認証を確認してください",
        fetch_failed: "取得失敗",
        day_suffix: "日",
        hour_suffix: "時間",
        minute_suffix: "分",
        second_suffix: "秒",
        reset_in: "あと",
        reset_in_separator: "",
        pace_remaining_prefix: "残り",
        window_title: "使用量",
        ..Strings::default()
    }
}

fn generic_item(metric: Option<QuotaMetric>, resets_at: Option<Timestamp>) -> QuotaItem {
    QuotaItem {
        id: "test".to_string(),
        label: "Test".to_string(),
        availability: QuotaItemAvailability::Available,
        metric,
        unit: QuotaUnit::AiCredits,
        resets_at,
    }
}

fn copilot_item(used: Quantity) -> QuotaItem {
    QuotaItem {
        id: GITHUB_COPILOT_MONTHLY_ITEM_ID.to_string(),
        label: "Monthly AI credits".to_string(),
        availability: QuotaItemAvailability::Available,
        metric: Some(QuotaMetric::Used { used, limit: Some(q(1_500.0)) }),
        unit: QuotaUnit::AiCredits,
        resets_at: None,
    }
}

fn copilot_success(items: Vec<QuotaItem>) -> ProviderPollOutcome {
    ProviderPollOutcome::Success { usage: UsageData::from_quota_items(items) }
}

fn usage_data_with_session_percent(percentage: Quantity) -> UsageData {
    let mut usage = UsageData::default();
    usage.set_session(UsageSection { percentage, resets_at: None });
    usage
}

#[test]
fn copilot_positive_usage_is_ok() {
    let outcome = copilot_success(vec![copilot_item(q(0.681855))]);
    assert_eq!(
        poll_quota_item_state(
            QuotaFamilyId::GithubCopilot,
            &outcome,
            GITHUB_COPILOT_MONTHLY_ITEM_ID,
        ),
        CellState::Ready
    );
}

#[test]
fn copilot_zero_usage_is_ok_and_not_not_available() {
    let item = copilot_item(q(0.0));
    let outcome = copilot_success(vec![item.clone()]);
    let state = poll_quota_item_state(
        QuotaFamilyId::GithubCopilot,
        &outcome,
        GITHUB_COPILOT_MONTHLY_ITEM_ID,
    );
    assert_eq!(state, CellState::Ready);
    assert_ne!(
        render_generic_quota_item(
            state,
            Some(&item),
            DisplayBasis::UsedPercentage,
            noon(),
            english(),
        )
        .text,
        english().not_available
    );
}

#[test]
fn copilot_missing_or_unavailable_target_item_is_not_available() {
    let other = QuotaItem {
        id: "other".to_string(),
        ..copilot_item(q(1.0))
    };
    assert_eq!(
        poll_quota_item_state(
            QuotaFamilyId::GithubCopilot,
            &copilot_success(vec![other]),
            GITHUB_COPILOT_MONTHLY_ITEM_ID,
        ),
        CellState::NotAvailable
    );

    let unavailable = QuotaItem {
        availability: QuotaItemAvailability::Unavailable,
        metric: None,
        ..copilot_item(q(1.0))
    };
    assert_eq!(
        poll_quota_item_state(
            QuotaFamilyId::GithubCopilot,
            &copilot_success(vec![unavailable]),
            GITHUB_COPILOT_MONTHLY_ITEM_ID,
        ),
        CellState::NotAvailable
    );
}

#[test]
fn provider_error_display_matrix_is_specific_only_for_high_confidence_cases() {

    for (provider, error, expected) in [
        (
            QuotaFamilyId::Claude,
            PollError::TokenExpired,
            CellState::AuthenticationExpired,
        ),
        (
            QuotaFamilyId::Claude,
            PollError::NoCredentials,
            CellState::CredentialsUnavailable,
        ),
        (
            QuotaFamilyId::Claude,
            PollError::AuthRequired,
            CellState::AuthenticationProblem,
        ),
        (QuotaFamilyId::Claude, PollError::RequestFailed, CellState::FetchFailed),
        (
            QuotaFamilyId::Codex,
            PollError::TokenExpired,
            CellState::AuthenticationProblem,
        ),
        (
            QuotaFamilyId::Codex,
            PollError::NoCredentials,
            CellState::CredentialsUnavailable,
        ),
        (
            QuotaFamilyId::Codex,
            PollError::AuthRequired,
            CellState::AuthenticationProblem,
        ),
        (QuotaFamilyId::Codex, PollError::RequestFailed, CellState::FetchFailed),
        (
            QuotaFamilyId::Antigravity,
            PollError::NoCredentials,
            CellState::CredentialsUnavailable,
        ),
        (
            QuotaFamilyId::Antigravity,
            PollError::AuthRequired,
            CellState::AuthenticationProblem,
        ),
        (
            QuotaFamilyId::Antigravity,
            PollError::RequestFailed,
            CellState::FetchFailed,
        ),
        (
            QuotaFamilyId::Antigravity,
            PollError::TokenExpired,
            CellState::FetchFailed,
        ),
        (
            QuotaFamilyId::GithubCopilot,
            PollError::NoCredentials,
            CellState::FetchFailed,
        ),
        (
            QuotaFamilyId::GithubCopilot,
            PollError::AuthRequired,
            CellState::FetchFailed,
        ),
        (
            QuotaFamilyId::GithubCopilot,
            PollError::RequestFailed,
            CellState::FetchFailed,
        ),
        (
            QuotaFamilyId::GithubCopilot,
            PollError::TokenExpired,
            CellState::FetchFailed,
        ),
    ] {
        assert_eq!(provider_error_cell_state(provider, error), expected);
    }
}

#[test]
fn generic_request_failure_is_fetch_failed_not_retrying() {
    let strings = japanese();
    for provider in [
        QuotaFamilyId::Claude,
        QuotaFamilyId::Codex,
        QuotaFamilyId::Antigravity,
        QuotaFamilyId::GithubCopilot,
    ] {
        let state = provider_error_cell_state(provider, PollError::RequestFailed);
        assert_eq!(state, CellState::FetchFailed);
        assert_eq!(status_text(state, strings), strings.fetch_failed);
    }
}

#[test]
fn copilot_errors_conservatively_fall_back_to_fetch_failed() {
    for error in [
        PollError::RequestFailed,
        PollError::AuthRequired,
        PollError::NoCredentials,
        PollError::TokenExpired,
    ] {
        let outcome = ProviderPollOutcome::Error {
            error,
        };
        assert_eq!(
            poll_quota_item_state(
                QuotaFamilyId::GithubCopilot,
                &outcome,
                GITHUB_COPILOT_MONTHLY_ITEM_ID,
            ),
            CellState::FetchFailed
        );
    }
}

#[test]
fn copilot_disabled_has_distinct_state() {
    assert_eq!(
        poll_quota_item_state(
            QuotaFamilyId::GithubCopilot,
            &ProviderPollOutcome::Disabled,
            GITHUB_COPILOT_MONTHLY_ITEM_ID,
        ),
        CellState::Disabled
    );
}

#[test]
fn legacy_session_weekly_state_classification_is_unchanged() {
    let mut usage = UsageData::default();
    usage.set_session(UsageSection {
        percentage: q(25.0),
        resets_at: None,
    });
    let outcome = ProviderPollOutcome::Success {
        usage,
    };
    assert_eq!(
        poll_cell_states(QuotaFamilyId::Claude, &outcome),
        (CellState::Ready, CellState::NotAvailable)
    );
}

#[test]
fn generic_renderer_handles_percentage_limit_usage_only_and_remaining() {
    let strings = english();
    let percentage = generic_item(Some(QuotaMetric::Percentage(q(25.0))), None);
    let percentage_display = render_generic_quota_item(
        CellState::Ready,
        Some(&percentage),
        DisplayBasis::UsedPercentage,
        noon(),
        strings,
    );
    assert_eq!(percentage_display.bar_percent, Some(q(25.0)));
    assert_eq!(percentage_display.text, "25%");

    let limited = generic_item(
        Some(QuotaMetric::Used {
            used: q(375.0),
            limit: Some(q(1_500.0)),
        }),
        None,
    );
    let limited_display = render_generic_quota_item(
        CellState::Ready,
        Some(&limited),
        DisplayBasis::UsedPercentage,
        noon(),
        strings,
    );
    assert_eq!(limited_display.bar_percent, Some(q(25.0)));
    assert_eq!(limited_display.text, "375 / 1500 ai-credits");

    let limited_remaining_display = render_generic_quota_item(
        CellState::Ready,
        Some(&limited),
        DisplayBasis::RemainingAllowance,
        noon(),
        strings,
    );
    assert_eq!(limited_remaining_display.bar_percent, Some(q(75.0)));
    assert_eq!(limited_remaining_display.text, "1125");

    let usage_only = generic_item(
        Some(QuotaMetric::Used {
            used: q(17.5),
            limit: None,
        }),
        None,
    );
    let usage_only_display = render_generic_quota_item(
        CellState::Ready,
        Some(&usage_only),
        DisplayBasis::UsedPercentage,
        noon(),
        strings,
    );
    assert_eq!(usage_only_display.bar_percent, None);
    assert_eq!(usage_only_display.text, "17.50 ai-credits");

    let remaining = generic_item(
        Some(QuotaMetric::Remaining {
            remaining: q(300.0),
            limit: Some(q(1_500.0)),
        }),
        None,
    );
    assert_eq!(
        render_generic_quota_item(
            CellState::Ready,
            Some(&remaining),
            DisplayBasis::UsedPercentage,
            noon(),
            strings,
        )
        .bar_percent,
        Some(q(80.0))
    );
}

#[test]
fn generic_renderer_keeps_reset_only_unavailable_and_zero_distinct() {
    let strings = english();
    let reset_only = generic_item(None, Some(after(noon(), 3_600)));
    let reset_display = render_generic_quota_item(
        CellState::Ready,
        Some(&reset_only),
        DisplayBasis::RemainingAllowance,
        noon(),
        strings,
    );
    assert_eq!(reset_display.bar_percent, None);
    assert!(reset_display.text.contains(strings.reset_in));

    let used_display = render_generic_quota_item(
        CellState::Ready,
        Some(&reset_only),
        DisplayBasis::UsedPercentage,
        noon(),
        strings,
    );
    assert_eq!(used_display.text, strings.not_available);
    assert!(!used_display.text.contains(strings.reset_in));
    assert!(!used_display.text.contains(strings.elapsed));

    let unavailable = QuotaItem::unavailable("missing", "Missing");
    let unavailable_display = render_generic_quota_item(
        CellState::Ready,
        Some(&unavailable),
        DisplayBasis::UsedPercentage,
        noon(),
        strings,
    );
    assert_eq!(unavailable_display.bar_percent, None);
    assert_eq!(unavailable_display.text, strings.not_available);

    let zero = generic_item(Some(QuotaMetric::Percentage(q(0.0))), None);
    let zero_display = render_generic_quota_item(
        CellState::Ready,
        Some(&zero),
        DisplayBasis::UsedPercentage,
        noon(),
        strings,
    );
    assert_eq!(zero_display.bar_percent, Some(q(0.0)));
    assert_eq!(zero_display.text, "0%");
}

#[test]
fn copilot_remaining_text_prioritizes_exact_amount_and_reset_in_fixed_width_row() {
    let strings = japanese();
    let item = generic_item(
        Some(QuotaMetric::Used {
            used: q(1.19),
            limit: Some(q(1_500.0)),
        }),
        Some(after(noon(), 20 * 86400)),
    );

    let display = render_generic_quota_item(
        CellState::Ready,
        Some(&item),
        DisplayBasis::RemainingAllowance,
        noon(),
        strings,
    );

    assert!(display.text.starts_with("1498.81 · あと"));
    assert!(!display.text.contains("1500"));
    assert!(!display.text.contains("ai-credits"));
}

#[test]
fn display_value_used_percentage_passes_through() {
    assert_eq!(display_value(DisplayBasis::UsedPercentage, q(64.0)), q(64.0));
}

#[test]
fn display_value_remaining_allowance_is_the_complement() {
    assert_eq!(display_value(DisplayBasis::RemainingAllowance, q(64.0)), q(36.0));
}

#[test]
fn display_value_clamps_outside_zero_to_hundred() {
    assert_eq!(display_value(DisplayBasis::UsedPercentage, q(-5.0)), q(0.0));
    assert_eq!(display_value(DisplayBasis::UsedPercentage, q(150.0)), q(100.0));
    assert_eq!(display_value(DisplayBasis::RemainingAllowance, q(-5.0)), q(100.0));
    assert_eq!(display_value(DisplayBasis::RemainingAllowance, q(150.0)), q(0.0));
}

#[test]
fn banked_reset_text_distinguishes_zero_one_and_unavailable() {
    let strings = english();

    assert_eq!(
        format_banked_reset_text(BankedResetCount::Available(0), strings),
        "Full reset: 0"
    );
    assert_eq!(
        format_banked_reset_text(BankedResetCount::Available(1), strings),
        "Full reset: 1"
    );
    assert_eq!(
        format_banked_reset_text(BankedResetCount::Unavailable, strings),
        "Full reset: Not available"
    );
}

#[test]
fn render_cell_normal_zero_percent_is_some_zero_not_none() {
    let strings = english();
    let section = UsageSection {
        percentage: q(0.0),
        resets_at: None,
    };
    let display = render_cell(
        CellState::Ready,
        Some(section),
        DisplayBasis::UsedPercentage,
        noon(),
        strings,
    );
    assert_eq!(display.bar_percent, Some(q(0.0)));
}

#[test]
fn render_cell_non_ok_states_never_produce_a_bar_percent() {
    let strings = english();
    for state in [
        CellState::Loading,
        CellState::AuthenticationExpired,
        CellState::AuthenticationProblem,
        CellState::CredentialsUnavailable,
        CellState::FetchFailed,
        CellState::NotAvailable,
    ] {
        let display = render_cell(state, None, DisplayBasis::UsedPercentage, noon(), strings);
        assert_eq!(display.bar_percent, None);
    }
}

#[test]
fn overpacing_session_cell_still_carries_a_real_percent_so_the_bar_keeps_rendering_in_provider_color(
) {
    let lines = PaceGuidanceLines {
        primary: "80% overpacing".to_string(),
        secondary: None,
        detail: None,
        is_warning: true,
    };
    let (shows, percent, _text, is_warning) = session_cell_decision(
        CellState::Ready,
        Some(q(80.0)),
        "80%",
        Some(&lines),
        ShortWindowVisibility::Always,
    );
    assert!(shows);
    assert!(is_warning);
    assert_eq!(percent, Some(q(80.0)));
}

#[test]
fn weekly_pace_status_text_maps_each_status() {
    let strings = english();
    assert_eq!(
        weekly_pace_status_text(WeeklyPaceStatus::Judging, strings),
        strings.weekly_pace_judging
    );
    assert_eq!(
        weekly_pace_status_text(WeeklyPaceStatus::UnderPace, strings),
        strings.weekly_pace_under_pace
    );
    assert_eq!(
        weekly_pace_status_text(WeeklyPaceStatus::OnTrack, strings),
        strings.weekly_pace_on_track
    );
    assert_eq!(
        weekly_pace_status_text(WeeklyPaceStatus::SlightlyOverpacing, strings),
        strings.weekly_pace_slightly_overpacing
    );
    assert_eq!(
        weekly_pace_status_text(WeeklyPaceStatus::Overpacing, strings),
        strings.weekly_pace_overpacing
    );
}

#[test]
fn weekly_pace_guidance_compact_used_basis_shows_only_value_and_elapsed() {
    let now = noon();
    let elapsed = WEEKLY_WINDOW_SECS / 2;
    let remaining = WEEKLY_WINDOW_SECS - elapsed;
    let resets_at = Some(after(now, remaining));
    let strings = english();

    let lines = weekly_pace_guidance_lines(
        Some(q(69.0)),
        resets_at,
        now,
        DisplayBasis::UsedPercentage,
        DisplayDensity::Compact,
        strings,
    )
    .expect("known value with valid reset data should produce lines");

    assert!(lines.primary.contains("69%"));
    assert!(lines.primary.contains(strings.elapsed));
    assert!(!lines.primary.contains(strings.reset_in));
    assert_eq!(lines.secondary, None);
    assert_eq!(lines.detail, None);
    assert!(!lines.is_warning);
}

#[test]
fn weekly_pace_guidance_standard_shows_status_and_future_pace() {
    let now = noon();
    let elapsed = WEEKLY_WINDOW_SECS / 2;
    let remaining = WEEKLY_WINDOW_SECS - elapsed;
    let resets_at = Some(after(now, remaining));
    let strings = english();

    let lines = weekly_pace_guidance_lines(
        Some(q(69.0)),
        resets_at,
        now,
        DisplayBasis::UsedPercentage,
        DisplayDensity::Standard,
        strings,
    )
    .expect("known value with valid reset data should produce lines");

    assert!(lines
        .primary
        .contains(strings.weekly_pace_slightly_overpacing));
    let secondary = lines
        .secondary
        .expect("standard density should produce a secondary line");
    assert!(secondary.contains(strings.future_pace_label));
    assert!(secondary.contains("%/"));
    assert_eq!(lines.detail, None);
}

#[test]
fn weekly_pace_guidance_detailed_shows_pace_diff() {
    let now = noon();
    let elapsed = WEEKLY_WINDOW_SECS / 2;
    let remaining = WEEKLY_WINDOW_SECS - elapsed;
    let resets_at = Some(after(now, remaining));
    let strings = english();

    let lines = weekly_pace_guidance_lines(
        Some(q(69.0)),
        resets_at,
        now,
        DisplayBasis::UsedPercentage,
        DisplayDensity::Detailed,
        strings,
    )
    .expect("known value with valid reset data should produce lines");

    let detail = lines
        .detail
        .expect("detailed density should produce a detail line");
    assert!(detail.contains(strings.pace_diff_label));
    assert!(detail.contains("+19pt"));
}

#[test]
fn weekly_pace_guidance_detailed_omits_exhaustion_when_projected_after_reset() {
    let now = noon();
    let elapsed = WEEKLY_WINDOW_SECS / 2;
    let remaining = WEEKLY_WINDOW_SECS - elapsed;
    let resets_at = Some(after(now, remaining));
    let strings = english();

    let lines = weekly_pace_guidance_lines(
        Some(q(20.0)),
        resets_at,
        now,
        DisplayBasis::UsedPercentage,
        DisplayDensity::Detailed,
        strings,
    )
    .expect("known value with valid reset data should produce lines");

    let detail = lines.detail.expect("pace diff should still be present");
    assert!(!detail.contains(strings.exhaustion_label));
}

#[test]
fn weekly_pace_guidance_detailed_hides_exhaustion_while_on_track_or_under_pace() {
    let now = noon();
    let elapsed = WEEKLY_WINDOW_SECS / 5;
    let remaining = WEEKLY_WINDOW_SECS - elapsed;
    let resets_at = Some(after(now, remaining));
    let strings = english();

    assert_eq!(
        weekly_pace_status(elapsed, WEEKLY_WINDOW_SECS, q(25.0)),
        WeeklyPaceStatus::OnTrack
    );
    assert!(weekly_exhaustion_lead_secs(elapsed, remaining, q(25.0)).is_some());
    let on_track = weekly_pace_guidance_lines(
        Some(q(25.0)),
        resets_at,
        now,
        DisplayBasis::UsedPercentage,
        DisplayDensity::Detailed,
        strings,
    )
    .unwrap();
    assert!(on_track.primary.contains(strings.weekly_pace_on_track));
    let detail = on_track.detail.expect("pace diff should remain visible");
    assert!(detail.contains("+5pt"));
    assert!(!detail.contains(strings.exhaustion_label));

    let under_pace = weekly_pace_guidance_lines(
        Some(q(5.0)),
        resets_at,
        now,
        DisplayBasis::UsedPercentage,
        DisplayDensity::Detailed,
        strings,
    )
    .unwrap();
    assert!(under_pace.primary.contains(strings.weekly_pace_under_pace));
    assert!(!under_pace
        .detail
        .unwrap()
        .contains(strings.exhaustion_label));
}

#[test]
fn weekly_pace_guidance_detailed_shows_exhaustion_lead_time_before_reset() {
    let now = noon();
    let elapsed = WEEKLY_WINDOW_SECS / 2;
    let remaining = WEEKLY_WINDOW_SECS - elapsed;
    let resets_at = Some(after(now, remaining));
    let strings = english();

    for (used_percent, status_text) in [
        (q(69.0), strings.weekly_pace_slightly_overpacing),
        (q(80.0), strings.weekly_pace_overpacing),
    ] {
        let lines = weekly_pace_guidance_lines(
            Some(used_percent),
            resets_at,
            now,
            DisplayBasis::UsedPercentage,
            DisplayDensity::Detailed,
            strings,
        )
        .expect("known value with valid reset data should produce lines");

        assert!(lines.primary.contains(status_text));
        let detail = lines.detail.expect("exhaustion text should be present");
        assert!(detail.contains(strings.exhaustion_label));
    }
}

#[test]
fn weekly_pace_guidance_time_axis_follows_basis_and_keeps_future_pace() {
    let now = noon();
    let elapsed = 14 * 3600 + 26 * 60;
    let remaining = WEEKLY_WINDOW_SECS - elapsed;
    let resets_at = Some(after(now, remaining));
    let strings = english();

    let used_lines = weekly_pace_guidance_lines(
        Some(q(69.0)),
        resets_at,
        now,
        DisplayBasis::UsedPercentage,
        DisplayDensity::Standard,
        strings,
    )
    .unwrap();
    let remaining_lines = weekly_pace_guidance_lines(
        Some(q(69.0)),
        resets_at,
        now,
        DisplayBasis::RemainingAllowance,
        DisplayDensity::Standard,
        strings,
    )
    .unwrap();

    assert!(used_lines.primary.contains("69%"));
    assert!(!used_lines.primary.contains("31%"));
    assert!(remaining_lines.primary.contains("31%"));
    assert!(!remaining_lines.primary.contains("69%"));

    let used_secondary = used_lines.secondary.unwrap();
    assert!(used_secondary.contains(strings.elapsed));
    assert!(used_secondary.contains("14h"));
    assert!(!used_secondary.contains("26m"));
    assert!(!used_secondary.contains(strings.reset_in));
    assert!(used_secondary.contains(strings.future_pace_label));

    let remaining_secondary = remaining_lines.secondary.unwrap();
    assert!(remaining_secondary.contains(strings.reset_in));
    assert!(remaining_secondary.contains("6d9h"));
    assert!(!remaining_secondary.contains("34m"));
    assert!(!remaining_secondary.contains(strings.elapsed));
    assert!(remaining_secondary.contains(strings.future_pace_label));
}

#[test]
fn weekly_pace_guidance_with_unknown_reset_shows_current_value_only() {
    let now = noon();
    let strings = english();
    let lines = weekly_pace_guidance_lines(
        Some(q(69.0)),
        None,
        now,
        DisplayBasis::UsedPercentage,
        DisplayDensity::Detailed,
        strings,
    )
    .unwrap();
    assert!(lines.primary.contains("69%"));
    assert_eq!(lines.secondary, None);
    assert_eq!(lines.detail, None);
}

#[test]
fn weekly_pace_guidance_with_past_reset_does_not_panic() {
    let now = noon();
    let resets_at = Some(before(now, 5));
    let strings = english();
    let lines = weekly_pace_guidance_lines(
        Some(q(69.0)),
        resets_at,
        now,
        DisplayBasis::UsedPercentage,
        DisplayDensity::Standard,
        strings,
    )
    .unwrap();
    assert!(lines.primary.contains("69%"));
    assert_eq!(lines.secondary, None);
}

#[test]
fn weekly_pace_guidance_standard_omits_judging_word_before_min_elapsed() {
    let now = noon();
    let elapsed = PACE_JUDGING_MIN_ELAPSED_SECS - 3600;
    let remaining = WEEKLY_WINDOW_SECS - elapsed;
    let resets_at = Some(after(now, remaining));
    let strings = english();

    let lines = weekly_pace_guidance_lines(
        Some(q(5.0)),
        resets_at,
        now,
        DisplayBasis::UsedPercentage,
        DisplayDensity::Standard,
        strings,
    )
    .expect("known value with valid reset data should produce lines");

    assert!(lines.primary.contains("5%"));
    assert!(!lines.primary.contains(strings.weekly_pace_judging));
    assert!(lines.secondary.is_some());
}

#[test]
fn japanese_reset_time_is_compact_for_long_and_short_windows() {
    let strings = japanese();
    assert_eq!(
        format_window_time(
            DisplayBasis::RemainingAllowance,
            Some(6 * 86400 + 8 * 3600),
            None,
            DurationGranularity::LongWindow,
            strings,
        )
        .as_deref(),
        Some("あと6日8時間")
    );
    assert_eq!(
        format_window_time(
            DisplayBasis::RemainingAllowance,
            Some(3 * 3600 + 16 * 60),
            None,
            DurationGranularity::ShortWindow,
            strings,
        )
        .as_deref(),
        Some("あと3時間16分")
    );
}

#[test]
fn format_future_pace_guidance_per_day() {
    let strings = english();
    let guidance = FuturePaceGuidance {
        value: ratio(14.0),
        unit: FuturePaceUnit::PerDay,
    };
    let text = format_future_pace_guidance(&guidance, strings).unwrap();
    assert_eq!(text, format!("14%/{}", strings.per_day_suffix));
}

#[test]
fn format_future_pace_guidance_per_hour() {
    let strings = english();
    let guidance = FuturePaceGuidance {
        value: ratio(3.0),
        unit: FuturePaceUnit::PerHour,
    };
    let text = format_future_pace_guidance(&guidance, strings).unwrap();
    assert_eq!(text, format!("3.0%/{}", strings.per_hour_suffix));
}

#[test]
fn format_pace_diff_pt_normalizes_negative_zero() {
    assert_eq!(format_pace_diff_pt(ratio(-0.0)), Some("0pt".to_string()));
    assert_eq!(format_pace_diff_pt(ratio(0.0)), Some("0pt".to_string()));
}

#[test]
fn format_pace_rate_value_rounds_by_magnitude_bucket() {
    assert_eq!(format_pace_rate_value(ratio(0.75)), "0.75");
    assert_eq!(format_pace_rate_value(ratio(1.0)), "1.0");
    assert_eq!(format_pace_rate_value(ratio(9.5)), "9.5");
    assert_eq!(format_pace_rate_value(ratio(10.0)), "10");
}

#[test]
fn short_window_pace_guidance_time_axis_follows_display_basis() {
    let now = noon();
    let elapsed = 1 * 3600 + 16 * 60 + 42;
    let remaining = SESSION_WINDOW_SECS - elapsed;
    let resets_at = Some(after(now, remaining));
    let strings = english();
    let used_lines = short_window_pace_guidance_lines(
        Some(q(24.0)),
        resets_at,
        now,
        DisplayBasis::UsedPercentage,
        ShortWindowVisibility::Always,
        ShortWindowAlertSensitivity::Standard,
        strings,
    )
    .unwrap();
    assert!(used_lines.primary.contains(strings.elapsed));
    assert!(used_lines.primary.contains("1h16m"));
    assert!(!used_lines.primary.contains("42s"));
    assert!(!used_lines.primary.contains(strings.reset_in));

    let remaining_lines = short_window_pace_guidance_lines(
        Some(q(24.0)),
        resets_at,
        now,
        DisplayBasis::RemainingAllowance,
        ShortWindowVisibility::Always,
        ShortWindowAlertSensitivity::Standard,
        strings,
    )
    .unwrap();
    assert!(remaining_lines.primary.contains(strings.reset_in));
    assert!(remaining_lines.primary.contains("3h43m"));
    assert!(!remaining_lines.primary.contains("18s"));
    assert!(!remaining_lines.primary.contains(strings.elapsed));
}

#[test]
fn short_window_pace_guidance_warning_only_hides_normal_window() {
    let now = noon();
    let resets_at = Some(after(now, SESSION_WINDOW_SECS / 2));
    let strings = english();
    let lines = short_window_pace_guidance_lines(
        Some(q(24.0)),
        resets_at,
        now,
        DisplayBasis::UsedPercentage,
        ShortWindowVisibility::WarningOnly,
        ShortWindowAlertSensitivity::Standard,
        strings,
    );
    assert_eq!(lines, None);
}

#[test]
fn short_window_pace_guidance_warning_only_shows_overpacing_window() {
    let now = noon();
    let remaining = SESSION_WINDOW_SECS - 3600;
    let resets_at = Some(after(now, remaining));
    let strings = english();
    let lines = short_window_pace_guidance_lines(
        Some(q(60.0)),
        resets_at,
        now,
        DisplayBasis::UsedPercentage,
        ShortWindowVisibility::WarningOnly,
        ShortWindowAlertSensitivity::Standard,
        strings,
    )
    .expect("overpacing window should be shown even under WarningOnly");
    assert!(lines.is_warning);
    assert!(lines.primary.contains(strings.weekly_pace_overpacing));
}

#[test]
fn short_window_pace_guidance_warning_only_shows_ninety_five_percent_overpacing() {
    let now = noon();
    let sensitivity = ShortWindowAlertSensitivity::Standard;
    let t = sensitivity.thresholds();
    let elapsed = t.grace_secs + 1;
    let remaining = SESSION_WINDOW_SECS - elapsed;
    let resets_at = Some(after(now, remaining));
    let strings = english();
    let lines = short_window_pace_guidance_lines(
        Some(q(95.0)),
        resets_at,
        now,
        DisplayBasis::UsedPercentage,
        ShortWindowVisibility::WarningOnly,
        sensitivity,
        strings,
    )
    .expect("95%-used projecting exhaustion well before reset must show under WarningOnly");
    assert!(lines.is_warning);
}

#[test]
fn short_window_pace_guidance_warning_only_shows_hundred_percent_even_near_reset() {
    let now = noon();
    let remaining: u64 = 35 * 60;
    let resets_at = Some(after(now, remaining));
    let strings = english();
    let lines = short_window_pace_guidance_lines(
        Some(q(100.0)),
        resets_at,
        now,
        DisplayBasis::UsedPercentage,
        ShortWindowVisibility::WarningOnly,
        ShortWindowAlertSensitivity::Standard,
        strings,
    )
    .expect("100%-used must show under WarningOnly even with little time left before reset");
    assert!(lines.is_warning);

    let lines_at_reset = short_window_pace_guidance_lines(
        Some(q(100.0)),
        Some(after(now, SESSION_WINDOW_SECS)),
        after(now, SESSION_WINDOW_SECS),
        DisplayBasis::UsedPercentage,
        ShortWindowVisibility::WarningOnly,
        ShortWindowAlertSensitivity::Standard,
        strings,
    );
    assert!(lines_at_reset.is_some());
}

#[test]
fn short_window_pace_guidance_hidden_never_shows_even_when_overpacing() {
    let now = noon();
    let remaining = SESSION_WINDOW_SECS - 3600;
    let resets_at = Some(after(now, remaining));
    let strings = english();
    let lines = short_window_pace_guidance_lines(
        Some(q(60.0)),
        resets_at,
        now,
        DisplayBasis::UsedPercentage,
        ShortWindowVisibility::Hidden,
        ShortWindowAlertSensitivity::Standard,
        strings,
    );
    assert_eq!(lines, None);
}

#[test]
fn short_window_pace_guidance_hidden_never_shows_hundred_percent() {
    let now = noon();
    let resets_at = Some(after(now, 35 * 60));
    let strings = english();
    let lines = short_window_pace_guidance_lines(
        Some(q(100.0)),
        resets_at,
        now,
        DisplayBasis::UsedPercentage,
        ShortWindowVisibility::Hidden,
        ShortWindowAlertSensitivity::Standard,
        strings,
    );
    assert_eq!(lines, None);
}

#[test]
fn short_window_pace_guidance_normal_display_has_no_pace_status_wording() {
    let now = noon();
    let resets_at = Some(after(now, SESSION_WINDOW_SECS / 2));
    let strings = english();
    let lines = short_window_pace_guidance_lines(
        Some(q(24.0)),
        resets_at,
        now,
        DisplayBasis::UsedPercentage,
        ShortWindowVisibility::Always,
        ShortWindowAlertSensitivity::Standard,
        strings,
    )
    .unwrap();
    assert!(!lines.primary.contains(strings.weekly_pace_under_pace));
    assert!(!lines.primary.contains(strings.weekly_pace_on_track));
    assert!(!lines
        .primary
        .contains(strings.weekly_pace_slightly_overpacing));
    assert!(!lines.primary.contains(strings.weekly_pace_overpacing));
    assert!(!lines.is_warning);
}

#[test]
fn pace_guidance_handles_nan_infinite_and_extreme_inputs_without_panicking() {
    let now = noon();
    let strings = english();

    assert_eq!(
        weekly_pace_guidance_lines(
            Some(q(f64::NAN)),
            None,
            now,
            DisplayBasis::UsedPercentage,
            DisplayDensity::Detailed,
            strings
        ),
        None
    );
    assert_eq!(
        weekly_pace_guidance_lines(
            Some(q(f64::INFINITY)),
            None,
            now,
            DisplayBasis::UsedPercentage,
            DisplayDensity::Detailed,
            strings
        ),
        None
    );
    assert_eq!(
        short_window_pace_guidance_lines(
            Some(q(f64::NAN)),
            None,
            now,
            DisplayBasis::UsedPercentage,
            ShortWindowVisibility::Always,
            ShortWindowAlertSensitivity::Standard,
            strings
        ),
        None
    );

    let far_future = Some(after(now, WEEKLY_WINDOW_SECS * 1000));
    let lines = weekly_pace_guidance_lines(
        Some(q(50.0)),
        far_future,
        now,
        DisplayBasis::UsedPercentage,
        DisplayDensity::Detailed,
        strings,
    )
    .expect("a known value should still produce a current-value-only line");
    assert_eq!(lines.secondary, None);

    assert_eq!(format_pace_diff_pt(ratio(f64::NAN)), None);
    assert_eq!(format_pace_diff_pt(ratio(f64::INFINITY)), None);
    let bad_guidance = FuturePaceGuidance {
        value: ratio(f64::NAN),
        unit: FuturePaceUnit::PerDay,
    };
    assert_eq!(format_future_pace_guidance(&bad_guidance, strings), None);
}

#[test]
fn weekly_pace_for_cell_is_none_for_every_non_ok_state() {
    let now = noon();
    let strings = english();
    let section = UsageSection {
        percentage: q(42.0),
        resets_at: Some(after(now, WEEKLY_WINDOW_SECS / 2)),
    };
    for state in [
        CellState::Loading,
        CellState::AuthenticationExpired,
        CellState::AuthenticationProblem,
        CellState::CredentialsUnavailable,
        CellState::FetchFailed,
        CellState::NotAvailable,
    ] {
        assert_eq!(
            weekly_pace_for_cell(
                state,
                Some(section),
                now,
                DisplayBasis::UsedPercentage,
                DisplayDensity::Detailed,
                strings,
            ),
            None,
            "state {state:?} must not produce pace guidance even with a cached section"
        );
    }
}

#[test]
fn weekly_pace_for_cell_is_none_when_ok_but_section_missing() {
    let now = noon();
    let strings = english();
    assert_eq!(
        weekly_pace_for_cell(
            CellState::Ready,
            None,
            now,
            DisplayBasis::UsedPercentage,
            DisplayDensity::Standard,
            strings,
        ),
        None
    );
}

#[test]
fn weekly_pace_for_cell_is_some_when_ok_with_section() {
    let now = noon();
    let strings = english();
    let section = UsageSection {
        percentage: q(42.0),
        resets_at: Some(after(now, WEEKLY_WINDOW_SECS / 2)),
    };
    assert!(weekly_pace_for_cell(
        CellState::Ready,
        Some(section),
        now,
        DisplayBasis::UsedPercentage,
        DisplayDensity::Standard,
        strings,
    )
    .is_some());
}

#[test]
fn compact_weekly_remaining_text_formats_days_and_hours() {
    let now = noon();
    let strings = japanese();
    let remaining: u64 = 5 * 86400 + 23 * 3600;
    let text = compact_weekly_remaining_text(Some(after(now, remaining)), now, strings);
    assert_eq!(text.as_deref(), Some("残り 5日23時間"));
}

#[test]
fn compact_weekly_remaining_text_formats_hours_only_under_one_day() {
    let now = noon();
    let strings = japanese();
    let remaining: u64 = 10 * 3600 + 30 * 60;
    let text = compact_weekly_remaining_text(Some(after(now, remaining)), now, strings);
    assert_eq!(text.as_deref(), Some("残り 10時間"));
}

#[test]
fn compact_weekly_remaining_text_formats_zero_hours_under_one_hour() {
    let now = noon();
    let strings = japanese();
    let remaining: u64 = 5 * 60 + 30;
    let text = compact_weekly_remaining_text(Some(after(now, remaining)), now, strings);
    assert_eq!(text.as_deref(), Some("残り 0時間"));
}

#[test]
fn compact_weekly_remaining_text_is_none_without_resets_at() {
    let now = noon();
    let strings = english();
    assert_eq!(compact_weekly_remaining_text(None, now, strings), None);
}

#[test]
fn compact_weekly_remaining_text_is_none_when_reset_already_passed() {
    let now = noon();
    let strings = english();
    let resets_at = before(now, 5);
    assert_eq!(
        compact_weekly_remaining_text(Some(resets_at), now, strings),
        None
    );
}

#[test]
fn compact_weekly_remaining_for_cell_is_none_for_every_non_ok_state() {
    let now = noon();
    let strings = english();
    let section = UsageSection {
        percentage: q(42.0),
        resets_at: Some(after(now, WEEKLY_WINDOW_SECS / 2)),
    };
    for state in [
        CellState::Loading,
        CellState::AuthenticationExpired,
        CellState::AuthenticationProblem,
        CellState::CredentialsUnavailable,
        CellState::FetchFailed,
        CellState::NotAvailable,
    ] {
        assert_eq!(
            compact_weekly_remaining_for_cell(state, Some(section), now, strings),
            None,
            "state {state:?} must not produce remaining text even with a cached section"
        );
    }
}

#[test]
fn compact_weekly_remaining_for_cell_is_none_when_ok_but_section_missing() {
    let now = noon();
    let strings = english();
    assert_eq!(
        compact_weekly_remaining_for_cell(CellState::Ready, None, now, strings),
        None
    );
}

#[test]
fn compact_weekly_remaining_for_cell_is_some_when_ok_with_section() {
    let now = noon();
    let strings = english();
    let section = UsageSection {
        percentage: q(42.0),
        resets_at: Some(after(now, WEEKLY_WINDOW_SECS / 2)),
    };
    assert!(
        compact_weekly_remaining_for_cell(CellState::Ready, Some(section), now, strings)
            .is_some()
    );
}

#[test]
fn compact_weekly_remaining_for_cell_does_not_mix_values_across_providers() {
    let now = noon();
    let strings = english();
    let claude_section = UsageSection {
        percentage: q(10.0),
        resets_at: Some(after(now, 5 * 86400 + 23 * 3600)),
    };
    let codex_section = UsageSection {
        percentage: q(90.0),
        resets_at: Some(after(now, 2 * 86400 + 3 * 3600)),
    };
    let claude_text =
        compact_weekly_remaining_for_cell(CellState::Ready, Some(claude_section), now, strings)
            .unwrap();
    let codex_text =
        compact_weekly_remaining_for_cell(CellState::Ready, Some(codex_section), now, strings)
            .unwrap();
    assert_ne!(claude_text, codex_text);
    assert!(claude_text.contains("5d"));
    assert!(codex_text.contains("2d"));
}

#[test]
fn weekly_pace_guidance_primary_never_contains_weekly_window_label() {
    let now = noon();
    let strings = english();
    let resets_at = Some(after(now, WEEKLY_WINDOW_SECS / 2));
    for density in [
        DisplayDensity::Compact,
        DisplayDensity::Standard,
        DisplayDensity::Detailed,
    ] {
        let lines = weekly_pace_guidance_lines(
            Some(q(69.0)),
            resets_at,
            now,
            DisplayBasis::UsedPercentage,
            density,
            strings,
        )
        .unwrap();
        assert!(!lines.primary.contains(strings.weekly_window_label));
    }
    let lines = weekly_pace_guidance_lines(
        Some(q(69.0)),
        None,
        now,
        DisplayBasis::UsedPercentage,
        DisplayDensity::Standard,
        strings,
    )
    .unwrap();
    assert!(!lines.primary.contains(strings.weekly_window_label));
}

#[test]
fn short_window_pace_guidance_primary_never_contains_session_window_label() {
    let now = noon();
    let strings = english();
    let resets_at = Some(after(now, SESSION_WINDOW_SECS / 2));
    let lines = short_window_pace_guidance_lines(
        Some(q(24.0)),
        resets_at,
        now,
        DisplayBasis::UsedPercentage,
        ShortWindowVisibility::Always,
        ShortWindowAlertSensitivity::Standard,
        strings,
    )
    .unwrap();
    assert!(!lines.primary.contains(strings.session_window_label));
}

#[test]
fn short_window_pace_guidance_with_unknown_reset_shows_current_value_only() {
    let now = noon();
    let strings = english();
    let lines = short_window_pace_guidance_lines(
        Some(q(24.0)),
        None,
        now,
        DisplayBasis::UsedPercentage,
        ShortWindowVisibility::Always,
        ShortWindowAlertSensitivity::Standard,
        strings,
    )
    .unwrap();
    assert!(lines.primary.contains("24%"));
    assert!(!lines.primary.contains(strings.reset_in));
    assert!(!lines.primary.contains(strings.session_window_label));
}

#[test]
fn countdown_text_is_none_when_resets_at_is_none() {
    let strings = english();
    assert_eq!(countdown_text(None, noon(), strings), None);
}

#[test]
fn countdown_text_uses_now_word_after_reset_has_passed() {
    let strings = english();
    let past = before(noon(), 5);
    assert_eq!(
        countdown_text(Some(past), noon(), strings),
        Some(strings.now.to_string())
    );
}

#[test]
fn countdown_text_just_under_one_hour_shows_minutes() {
    let strings = english();
    let reset = after(noon(), 3599);
    let text = countdown_text(Some(reset), noon(), strings).unwrap();
    assert!(text.ends_with(strings.minute_suffix));
}

#[test]
fn countdown_text_just_over_one_hour_shows_hours() {
    let strings = english();
    let reset = after(noon(), 3605);
    let text = countdown_text(Some(reset), noon(), strings).unwrap();
    assert!(text.ends_with(strings.hour_suffix));
}

#[test]
fn merge_successful_providers_updates_only_this_polls_successes() {
    let mut cached: Option<AppUsageData> = Some({
        let mut data = AppUsageData::default();
        data.upsert(
            usage_data_with_session_percent(q(10.0)).into_quota_family(QuotaFamilyId::Claude),
        );
        data.upsert(
            usage_data_with_session_percent(q(20.0)).into_quota_family(QuotaFamilyId::Codex),
        );
        data
    });

    let report = PollReport {
        claude_code: ProviderPollOutcome::Success {
            usage: usage_data_with_session_percent(q(70.0)),
        },
        codex: ProviderPollOutcome::Error {
            error: PollError::RequestFailed,
        },
        antigravity: ProviderPollOutcome::Disabled,
        github_copilot: ProviderPollOutcome::Disabled,
    };

    merge_successful_providers(&mut cached, &report);
    assert!(cached.is_some(), "merge must not drop the cache");
    let merged = cached.as_ref().unwrap();
    let claude = merged
        .family(QuotaFamilyId::Claude)
        .expect("this provider succeeded");
    assert_eq!(
        claude.item("session").unwrap().used_percentage(),
        Some(q(70.0))
    );

    let codex = merged
        .family(QuotaFamilyId::Codex)
        .expect("previous Codex cache should remain untouched by merge");
    assert_eq!(codex.item("session").unwrap().used_percentage(), Some(q(20.0)));

    let strings = english();
    let (claude_session_state, _) =
        poll_cell_states(QuotaFamilyId::Claude, &report.claude_code);
    let claude_display = render_cell(
        claude_session_state,
        quota_item_section(&cached, QuotaFamilyId::Claude, "session"),
        DisplayBasis::UsedPercentage,
        noon(),
        strings,
    );
    assert_eq!(claude_display.bar_percent, Some(q(70.0)));

    let (codex_session_state, _) = poll_cell_states(QuotaFamilyId::Codex, &report.codex);
    assert_eq!(codex_session_state, CellState::FetchFailed);
    let codex_display = render_cell(
        codex_session_state,
        quota_item_section(&cached, QuotaFamilyId::Codex, "session"),
        DisplayBasis::UsedPercentage,
        noon(),
        strings,
    );
    assert_eq!(codex_display.bar_percent, None);
    assert_eq!(codex_display.text, strings.fetch_failed);
}

#[test]
fn partial_provider_merge_leaves_other_provider_cache_untouched() {
    let mut cached = Some({
        let mut data = AppUsageData::default();
        data.upsert(
            usage_data_with_session_percent(q(10.0)).into_quota_family(QuotaFamilyId::Claude),
        );
        data.upsert(
            usage_data_with_session_percent(q(20.0)).into_quota_family(QuotaFamilyId::Codex),
        );
        data
    });
    let claude_update = ProviderPollOutcome::Success {
        usage: usage_data_with_session_percent(q(70.0)),
    };

    merge_successful_provider(&mut cached, QuotaFamilyId::Claude, &claude_update);

    let cached = cached.expect("partial success should keep the cache");
    assert_eq!(
        cached
            .family(QuotaFamilyId::Claude)
            .unwrap()
            .item("session")
            .unwrap()
            .used_percentage(),
        Some(q(70.0))
    );
    assert_eq!(
        cached
            .family(QuotaFamilyId::Codex)
            .unwrap()
            .item("session")
            .unwrap()
            .used_percentage(),
        Some(q(20.0))
    );
}

#[test]
fn remaining_secs_at_is_none_without_resets_at() {
    assert_eq!(remaining_secs_at(None, noon()), None);
}

#[test]
fn remaining_secs_at_is_none_when_reset_is_in_the_past() {
    let now = noon();
    let past = before(now, 5);
    assert_eq!(remaining_secs_at(Some(past), now), None);
}

#[test]
fn remaining_secs_at_is_zero_when_reset_is_exactly_now() {
    let now = noon();
    assert_eq!(remaining_secs_at(Some(now), now), Some(0));
}

#[test]
fn elapsed_secs_in_window_at_exact_window_length_is_zero() {
    assert_eq!(
        elapsed_secs_in_window(WEEKLY_WINDOW_SECS, WEEKLY_WINDOW_SECS),
        Some(0)
    );
}

#[test]
fn elapsed_secs_in_window_within_tolerance_past_window_length_is_zero() {
    assert_eq!(
        elapsed_secs_in_window(
            WEEKLY_WINDOW_SECS + WINDOW_TIME_TOLERANCE_SECS,
            WEEKLY_WINDOW_SECS
        ),
        Some(0)
    );
}

#[test]
fn elapsed_secs_in_window_beyond_tolerance_is_none() {
    assert_eq!(
        elapsed_secs_in_window(
            WEEKLY_WINDOW_SECS + WINDOW_TIME_TOLERANCE_SECS + 1,
            WEEKLY_WINDOW_SECS
        ),
        None
    );
}

#[test]
fn weekly_pace_status_before_judging_window_is_judging() {
    assert_eq!(
        weekly_pace_status(PACE_JUDGING_MIN_ELAPSED_SECS - 1, WEEKLY_WINDOW_SECS, q(50.0)),
        WeeklyPaceStatus::Judging
    );
}

#[test]
fn weekly_pace_status_at_judging_boundary_exits_judging() {
    assert_ne!(
        weekly_pace_status(PACE_JUDGING_MIN_ELAPSED_SECS, WEEKLY_WINDOW_SECS, q(0.0)),
        WeeklyPaceStatus::Judging
    );
}

#[test]
fn weekly_pace_status_under_pace_boundary() {
    let elapsed = WEEKLY_WINDOW_SECS / 2;
    let used_at_boundary = 50.0 + PACE_UNDER_PACE_MAX_PT as f64;
    assert_eq!(
        weekly_pace_status(elapsed, WEEKLY_WINDOW_SECS, q(used_at_boundary)),
        WeeklyPaceStatus::UnderPace
    );
    assert_eq!(
        weekly_pace_status(elapsed, WEEKLY_WINDOW_SECS, q(used_at_boundary + 0.1)),
        WeeklyPaceStatus::OnTrack
    );
}

#[test]
fn weekly_pace_status_on_track_upper_boundary() {
    let elapsed = WEEKLY_WINDOW_SECS / 2;
    let used_at_boundary = 50.0 + PACE_ON_TRACK_MAX_PT as f64;
    assert_eq!(
        weekly_pace_status(elapsed, WEEKLY_WINDOW_SECS, q(used_at_boundary)),
        WeeklyPaceStatus::OnTrack
    );
    assert_eq!(
        weekly_pace_status(elapsed, WEEKLY_WINDOW_SECS, q(used_at_boundary + 0.1)),
        WeeklyPaceStatus::SlightlyOverpacing
    );
}

#[test]
fn weekly_pace_status_slightly_overpacing_upper_boundary() {
    let elapsed = WEEKLY_WINDOW_SECS / 2;
    let used_at_boundary = 50.0 + PACE_SLIGHTLY_OVER_MAX_PT as f64;
    assert_eq!(
        weekly_pace_status(elapsed, WEEKLY_WINDOW_SECS, q(used_at_boundary)),
        WeeklyPaceStatus::SlightlyOverpacing
    );
    assert_eq!(
        weekly_pace_status(elapsed, WEEKLY_WINDOW_SECS, q(used_at_boundary + 0.1)),
        WeeklyPaceStatus::Overpacing
    );
}

#[test]
fn weekly_pace_status_used_zero_percent() {
    let elapsed = WEEKLY_WINDOW_SECS / 2;
    assert_eq!(
        weekly_pace_status(elapsed, WEEKLY_WINDOW_SECS, q(0.0)),
        WeeklyPaceStatus::UnderPace
    );
}

#[test]
fn weekly_pace_status_used_hundred_percent() {
    let elapsed = WEEKLY_WINDOW_SECS / 2;
    assert_eq!(
        weekly_pace_status(elapsed, WEEKLY_WINDOW_SECS, q(100.0)),
        WeeklyPaceStatus::Overpacing
    );
}

#[test]
fn future_pace_guidance_uses_per_day_at_or_above_threshold() {
    let guidance = future_pace_guidance(q(60.0), FUTURE_PACE_HOURLY_THRESHOLD_SECS)
        .expect("remaining_secs > 0 must produce guidance");
    assert_eq!(guidance.unit, FuturePaceUnit::PerDay);
    assert!((value_of(guidance.value) - 40.0).abs() < 1e-9);
}

#[test]
fn future_pace_guidance_uses_per_hour_below_threshold() {
    let guidance = future_pace_guidance(q(60.0), FUTURE_PACE_HOURLY_THRESHOLD_SECS - 1)
        .expect("remaining_secs > 0 must produce guidance");
    assert_eq!(guidance.unit, FuturePaceUnit::PerHour);
}

#[test]
fn future_pace_guidance_is_none_when_remaining_is_zero() {
    assert_eq!(future_pace_guidance(q(50.0), 0), None);
}

#[test]
fn short_window_sensitivity_thresholds_match_spec() {
    let sensitive = ShortWindowAlertSensitivity::Sensitive.thresholds();
    assert_eq!(sensitive.grace_secs, 20 * 60);
    assert_eq!(percent(sensitive.min_used_percent), 30.0);
    assert_eq!(sensitive.exhaustion_lead_secs, 30 * 60);

    let standard = ShortWindowAlertSensitivity::Standard.thresholds();
    assert_eq!(standard.grace_secs, 30 * 60);
    assert_eq!(percent(standard.min_used_percent), 40.0);
    assert_eq!(standard.exhaustion_lead_secs, 45 * 60);

    let relaxed = ShortWindowAlertSensitivity::Relaxed.thresholds();
    assert_eq!(relaxed.grace_secs, 45 * 60);
    assert_eq!(percent(relaxed.min_used_percent), 50.0);
    assert_eq!(relaxed.exhaustion_lead_secs, 75 * 60);
}

#[test]
fn short_window_just_before_grace_is_never_overpacing() {
    let sensitivity = ShortWindowAlertSensitivity::Standard;
    let t = sensitivity.thresholds();
    assert!(!short_window_is_overpacing(
        t.grace_secs - 1,
        100_000,
        q(99.0),
        sensitivity
    ));
}

#[test]
fn short_window_grace_boundary_allows_evaluation() {
    let sensitivity = ShortWindowAlertSensitivity::Standard;
    let t = sensitivity.thresholds();
    let elapsed = t.grace_secs;
    let used = 50.0;
    let secs_to_exhaustion = (100.0 - used) * elapsed as f64 / used;
    let remaining_at_boundary = secs_to_exhaustion as u64 + t.exhaustion_lead_secs;

    assert!(short_window_is_overpacing(
        elapsed,
        remaining_at_boundary,
        q(used),
        sensitivity
    ));
    assert!(!short_window_is_overpacing(
        elapsed,
        remaining_at_boundary - 1,
        q(used),
        sensitivity
    ));
}

#[test]
fn short_window_min_used_percent_boundary() {
    let sensitivity = ShortWindowAlertSensitivity::Standard;
    let t = sensitivity.thresholds();
    let elapsed = t.grace_secs + 100;

    assert!(!short_window_is_overpacing(
        elapsed,
        100_000,
        q(percent(t.min_used_percent) - 0.1),
        sensitivity
    ));

    let used = percent(t.min_used_percent);
    let secs_to_exhaustion = (100.0 - used) * elapsed as f64 / used;
    let remaining = secs_to_exhaustion as u64 + t.exhaustion_lead_secs;
    assert!(short_window_is_overpacing(
        elapsed,
        remaining,
        q(used),
        sensitivity
    ));
}

#[test]
fn short_window_exhaustion_lead_boundary() {
    let sensitivity = ShortWindowAlertSensitivity::Standard;
    let t = sensitivity.thresholds();
    let elapsed = t.grace_secs + 600;
    let used = 60.0;
    let secs_to_exhaustion = (100.0 - used) * elapsed as f64 / used;
    let remaining_at_lead = secs_to_exhaustion as u64 + t.exhaustion_lead_secs;

    assert!(short_window_is_overpacing(
        elapsed,
        remaining_at_lead,
        q(used),
        sensitivity
    ));
    assert!(!short_window_is_overpacing(
        elapsed,
        remaining_at_lead - 1,
        q(used),
        sensitivity
    ));
}

#[test]
fn short_window_hundred_percent_used_is_always_overpacing_regardless_of_remaining() {
    let sensitivity = ShortWindowAlertSensitivity::Standard;
    let t = sensitivity.thresholds();
    let elapsed = t.grace_secs + 1;

    assert!(short_window_is_overpacing(
        elapsed,
        t.exhaustion_lead_secs,
        q(100.0),
        sensitivity
    ));
    assert!(short_window_is_overpacing(
        elapsed,
        t.exhaustion_lead_secs - 1,
        q(100.0),
        sensitivity
    ));
    assert!(short_window_is_overpacing(
        elapsed,
        35 * 60,
        q(100.0),
        sensitivity
    ));
    assert!(short_window_is_overpacing(elapsed, 0, q(100.0), sensitivity));
}

#[test]
fn short_window_each_sensitivity_agrees_with_its_own_thresholds() {
    for sensitivity in [
        ShortWindowAlertSensitivity::Sensitive,
        ShortWindowAlertSensitivity::Standard,
        ShortWindowAlertSensitivity::Relaxed,
    ] {
        let t = sensitivity.thresholds();
        let elapsed = t.grace_secs + 60;
        let used = percent(t.min_used_percent) + 10.0;
        let secs_to_exhaustion = (100.0 - used) * elapsed as f64 / used;
        let remaining_at_boundary = secs_to_exhaustion as u64 + t.exhaustion_lead_secs;

        assert!(
            short_window_is_overpacing(elapsed, remaining_at_boundary, q(used), sensitivity),
            "{sensitivity:?} should be overpacing exactly at its own lead boundary"
        );
        assert!(
            !short_window_is_overpacing(elapsed, remaining_at_boundary - 1, q(used), sensitivity),
            "{sensitivity:?} should not be overpacing just inside its own lead boundary"
        );
    }
}

#[test]
fn more_use_and_more_time_never_clear_a_warning() {
    for sensitivity in [
        ShortWindowAlertSensitivity::Relaxed,
        ShortWindowAlertSensitivity::Standard,
        ShortWindowAlertSensitivity::Sensitive,
    ] {
        let warns = |left: u64, used: i32| {
            short_window_is_overpacing(7_200, left, q(used as f64), sensitivity)
        };
        for left in (0..10_800).step_by(600) {
            for used in 0..100 {
                if warns(left, used) {
                    assert!(warns(left + 600, used) && warns(left, used + 1));
                }
            }
        }
        assert!(warns(10_800, 99) && !warns(0, 99));
    }
}
