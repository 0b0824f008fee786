//! Positions and sizes.

use usage_monitor::draw::{usage_bar_has_content};
use usage_monitor::events::{TrayIconKind, app_tray_icon_data};
use usage_monitor::geometry::{
    HorizontalResizeEdge, HorizontalResizeSession, PointerInteractionTarget, Rect, SEGMENT_H,
    clamp_position_to_work_area, clear_horizontal_resize_session, completed_resize_settings,
    default_popup_position, drag_follow_position, horizontal_resize_edge_at,
    horizontal_resize_edge_width_for_dpi, horizontal_resize_rect, is_drag_region_point,
    logical_from_device, minimum_widget_width_logical_for, pointer_interaction_target,
    provider_column_width_for_client_at_dpi, reset_saved_position, resolved_widget_size_device,
    scaled_for_dpi,
};
use usage_monitor::placement::{
    clamp_popup_x, compute_auto_popup_position, compute_popup_y, window_size_needs_sync,
};
use usage_monitor::rows::{
    BASIS_LABEL_ROW_H, PACE_LINE_H, ROW_GAP_H, WIDGET_HEIGHT, popup_height_logical,
    session_row_visible, visible_rows,
};
use usage_monitor::settings::{PopupLayout};
use usage_monitor::state::{needs_session_row};
use usage_monitor::strings::{Languages, Strings, all_languages};

fn english() -> Strings {
    Strings {
        authentication_expired: "Sign-in expired",
        authentication_problem: "Check sign-in",
        credentials_unavailable: "No credentials",
        fetch_failed: "Fetch failed",
        loading: "Loading",
        not_available: "Not available",
        full_reset: "Full reset",
        now: "now",
        day_suffix: "d",
        hour_suffix: "h",
        minute_suffix: "m",
        second_suffix: "s",
        elapsed: "elapsed",
        reset_in: "resets in",
        reset_in_separator: " ",
        per_day_suffix: "day",
        per_hour_suffix: "hr",
        pace_used_prefix: "Used",
        pace_remaining_prefix: "Left",
        weekly_pace_judging: "judging",
        weekly_pace_under_pace: "below pace",
        weekly_pace_on_track: "steady",
        weekly_pace_slightly_overpacing: "a bit fast",
        weekly_pace_overpacing: "too fast",
        future_pace_label: "From here",
        pace_diff_label: "Pace gap",
        exhaustion_label: "Runs out",
        exhaustion_before_reset: "before reset",
        session_window_label: "5-hour window",
        weekly_window_label: "7-day window",
        session_window: "5h",
        weekly_window: "7d",
        codex_model: "Codex",
        antigravity_model: "Antigravity",
        window_title: "Usage",
        ..Strings::default()
    }
}

fn japanese() -> Strings {
    Strings {
        authentication_expired: "認証切れ",
        credentials_unavailable: "認証情報を確認できません",
        authentication_problem: "認証を確認してください",
        fetch_failed: "取得失敗",
        day_suffix: "日",
        hour_suffix: "時間",
        minute_suffix: "分",
        second_suffix: "秒",
        reset_in: "あと",
        reset_in_separator: "",
        pace_remaining_prefix: "残り",
        window_title: "使用量",
        ..Strings::default()
    }
}

fn languages() -> Languages {
    let mut languages = Languages::default();
    languages.english.strings = english();
    languages.japanese.strings = japanese();
    languages
}

fn resize_session(
    edge: HorizontalResizeEdge,
    start_cursor_screen_x: i32,
    start_window_rect: Rect,
) -> HorizontalResizeSession {
    HorizontalResizeSession { edge, start_cursor_screen_x, start_window_rect }
}

#[test]
fn app_tray_icon_data_contains_one_provider_independent_icon() {
    let languages = languages();
    for language in all_languages() {
        let strings = languages.strings(language);
        let icons = app_tray_icon_data(strings);

        assert_eq!(icons.len(), 1);
        assert_eq!(icons[0].kind, TrayIconKind::App);
        assert!(icons[0].percent.is_none());
        assert_eq!(icons[0].tooltip, strings.window_title);
    }
}

#[test]
fn usage_bar_has_content_is_false_for_no_percent_and_empty_text() {
    assert!(!usage_bar_has_content(None, ""));
}

#[test]
fn usage_bar_has_content_is_true_for_no_percent_with_status_text() {
    assert!(usage_bar_has_content(None, "N/A"));
}

#[test]
fn popup_sits_above_a_normal_bottom_taskbar() {
    assert_eq!(compute_popup_y(0, 1040, 46), 994);
}

#[test]
fn popup_sits_above_a_small_bottom_taskbar() {
    assert_eq!(compute_popup_y(0, 1050, 46), 1004);
}

#[test]
fn popup_y_is_correct_on_a_negative_coordinate_monitor() {
    assert_eq!(compute_popup_y(-1040, -40, 46), -86);
}

#[test]
fn popup_taller_than_work_area_clamps_to_work_area_top() {
    let y = compute_popup_y(1030, 1040, 46);
    assert_eq!(y, 1030);
}

#[test]
fn popup_bottom_never_exceeds_work_area_bottom_in_normal_cases() {
    for (top, bottom, height) in [(0, 1040, 46), (0, 1050, 46), (-1040, -40, 46)] {
        let y = compute_popup_y(top, bottom, height);
        assert!(y + height <= bottom);
    }
}

#[test]
fn popup_x_within_work_area_is_unchanged() {
    assert_eq!(clamp_popup_x(500, 0, 1920, 300), 500);
}

#[test]
fn popup_x_clamps_to_left_edge_of_work_area() {
    assert_eq!(clamp_popup_x(-50, 0, 1920, 300), 0);
}

#[test]
fn popup_x_clamps_to_right_edge_of_work_area() {
    assert_eq!(clamp_popup_x(1800, 0, 1920, 300), 1620);
}

#[test]
fn popup_wider_than_work_area_clamps_to_left_without_panicking() {
    assert_eq!(clamp_popup_x(500, 0, 1920, 2000), 0);
}

#[test]
fn horizontal_resize_edge_detection_finds_left_right_and_center() {
    let width = 600;
    let edge = 6;
    assert_eq!(
        horizontal_resize_edge_at(0, width, edge),
        Some(HorizontalResizeEdge::Left)
    );
    assert_eq!(
        horizontal_resize_edge_at(5, width, edge),
        Some(HorizontalResizeEdge::Left)
    );
    assert_eq!(horizontal_resize_edge_at(6, width, edge), None);
    assert_eq!(horizontal_resize_edge_at(300, width, edge), None);
    assert_eq!(
        horizontal_resize_edge_at(594, width, edge),
        Some(HorizontalResizeEdge::Right)
    );
    assert_eq!(
        horizontal_resize_edge_at(599, width, edge),
        Some(HorizontalResizeEdge::Right)
    );
    assert_eq!(horizontal_resize_edge_at(-1, width, edge), None);
    assert_eq!(horizontal_resize_edge_at(width, width, edge), None);
}

#[test]
fn horizontal_resize_edge_width_scales_at_96_144_and_192_dpi() {
    assert_eq!(horizontal_resize_edge_width_for_dpi(96), 6);
    assert_eq!(horizontal_resize_edge_width_for_dpi(144), 9);
    assert_eq!(horizontal_resize_edge_width_for_dpi(192), 12);
}

#[test]
fn right_resize_keeps_left_top_and_content_height_fixed() {
    let start = Rect {
        left: 100,
        top: 200,
        right: 500,
        bottom: 300,
    };
    let rect = horizontal_resize_rect(
        resize_session(HorizontalResizeEdge::Right, 500, start),
        650,
        315,
        1200,
        113,
    );
    assert_eq!((rect.left, rect.right), (100, 650));
    assert_eq!((rect.top, rect.bottom), (200, 313));
}

#[test]
fn left_resize_keeps_right_top_and_content_height_fixed() {
    let start = Rect {
        left: 100,
        top: 200,
        right: 500,
        bottom: 300,
    };
    let rect = horizontal_resize_rect(
        resize_session(HorizontalResizeEdge::Left, 100, start),
        -50,
        315,
        1200,
        113,
    );
    assert_eq!((rect.left, rect.right), (-50, 500));
    assert_eq!((rect.top, rect.bottom), (200, 313));
}

#[test]
fn horizontal_resize_clamps_to_minimum_and_maximum_widths() {
    let start = Rect {
        left: 100,
        top: 200,
        right: 500,
        bottom: 300,
    };
    let session = resize_session(HorizontalResizeEdge::Right, 500, start);
    let minimum = horizontal_resize_rect(session, -1000, 315, 1200, 113);
    let maximum = horizontal_resize_rect(session, 5000, 315, 1200, 113);
    assert_eq!(minimum.right - minimum.left, 315);
    assert_eq!(maximum.right - maximum.left, 1200);
    assert_eq!((minimum.left, maximum.left), (100, 100));
    assert_eq!((minimum.top, minimum.bottom), (200, 313));
    assert_eq!((maximum.top, maximum.bottom), (200, 313));
}

#[test]
fn resize_edge_takes_priority_over_header_drag() {
    assert_eq!(
        pointer_interaction_target(2, 10, 600, 6, 30),
        PointerInteractionTarget::HorizontalResize(HorizontalResizeEdge::Left)
    );
    assert_eq!(
        pointer_interaction_target(598, 10, 600, 6, 30),
        PointerInteractionTarget::HorizontalResize(HorizontalResizeEdge::Right)
    );
    assert_eq!(
        pointer_interaction_target(300, 10, 600, 6, 30),
        PointerInteractionTarget::HeaderDrag
    );
    assert_eq!(
        pointer_interaction_target(300, 40, 600, 6, 30),
        PointerInteractionTarget::Nothing
    );
}

#[test]
fn completed_left_resize_updates_manual_x_and_logical_width() {
    let rect = Rect {
        left: -120,
        top: 240,
        right: 480,
        bottom: 353,
    };
    let (logical_width, manual_position) =
        completed_resize_settings(rect, 144, Some((100, 240)));
    assert_eq!(logical_width, 400);
    assert_eq!(manual_position, Some((-120, 240)));

    let (_, automatic_position) = completed_resize_settings(rect, 144, None);
    assert_eq!(automatic_position, None);
}

#[test]
fn cancel_or_capture_loss_clears_resize_session_once() {
    let mut session = Some(resize_session(
        HorizontalResizeEdge::Left,
        100,
        Rect {
            left: 100,
            top: 200,
            right: 500,
            bottom: 300,
        },
    ));
    assert!(clear_horizontal_resize_session(&mut session));
    assert!(session.is_none());
    assert!(!clear_horizontal_resize_session(&mut session));
}

#[test]
fn logical_and_device_widths_convert_across_dpi() {
    assert_eq!(scaled_for_dpi(400, 96), 400);
    assert_eq!(scaled_for_dpi(400, 144), 600);
    assert_eq!(logical_from_device(600, 144), 400);
}

#[test]
fn provider_count_minimum_widths_match_layout_budgets() {
    assert_eq!(minimum_widget_width_logical_for(1), 315);
    assert_eq!(minimum_widget_width_logical_for(2), 353);
    assert_eq!(minimum_widget_width_logical_for(3), 477);
    assert_eq!(minimum_widget_width_logical_for(4), 623);
}

#[test]
fn client_width_is_distributed_evenly_to_provider_columns() {
    assert_eq!(provider_column_width_for_client_at_dpi(315, 1, 96), 273);
    assert_eq!(provider_column_width_for_client_at_dpi(353, 2, 96), 154);
    assert_eq!(provider_column_width_for_client_at_dpi(477, 3, 96), 143);
    assert_eq!(provider_column_width_for_client_at_dpi(623, 4, 96), 143);
    assert_eq!(provider_column_width_for_client_at_dpi(1000, 4, 96), 237);
}

#[test]
fn default_position_is_work_area_bottom_right() {
    let work_area = Rect {
        left: 100,
        top: 50,
        right: 2020,
        bottom: 1090,
    };
    assert_eq!(default_popup_position(work_area, 400, 90), (1620, 1000));
}

#[test]
fn saved_position_is_clamped_inside_current_work_area() {
    let work_area = Rect {
        left: -1920,
        top: 0,
        right: 0,
        bottom: 1040,
    };
    assert_eq!(
        clamp_position_to_work_area(work_area, 500, 100, -3000, 1200),
        (-1920, 940)
    );
}

#[test]
fn reset_position_clears_manual_coordinates_but_not_width() {
    let mut tray_offset = 42;
    let mut manual_position = Some((300, 400));
    let width = Some(700);
    reset_saved_position(&mut tray_offset, &mut manual_position);
    assert_eq!(tray_offset, 0);
    assert_eq!(manual_position, None);
    assert_eq!(width, Some(700));
}

#[test]
fn geometry_height_changes_preserve_user_width() {
    let before = resolved_widget_size_device(Some(700), 3, 96, 1920, 70);
    let after = resolved_widget_size_device(Some(700), 3, 96, 1920, 140);
    assert_eq!(before.0, 700);
    assert_eq!(after.0, 700);
    assert_eq!((before.1, after.1), (70, 140));
}

#[test]
fn compute_auto_popup_position_matches_desired_x_and_y_for_ordinary_case() {
    let work_area = Rect {
        left: 0,
        top: 0,
        right: 1920,
        bottom: 1040,
    };
    let (x, y) = compute_auto_popup_position(work_area, 1900, 300, 46, 10);
    assert_eq!((x, y), (1590, 994));
}

#[test]
fn compute_auto_popup_position_clamps_to_left_edge_when_desired_x_is_negative() {
    let work_area = Rect {
        left: 0,
        top: 0,
        right: 1920,
        bottom: 1040,
    };
    let (x, y) = compute_auto_popup_position(work_area, 250, 300, 46, 0);
    assert_eq!((x, y), (0, 994));
}

#[test]
fn compute_auto_popup_position_clamps_to_right_edge_when_popup_would_overflow() {
    let work_area = Rect {
        left: 0,
        top: 0,
        right: 500,
        bottom: 1040,
    };
    let (x, y) = compute_auto_popup_position(work_area, 2000, 300, 46, 0);
    assert_eq!((x, y), (200, 994));
}

#[test]
fn compute_auto_popup_position_clamps_to_left_when_popup_wider_than_work_area() {
    let work_area = Rect {
        left: 100,
        top: 0,
        right: 300,
        bottom: 1040,
    };
    let (x, y) = compute_auto_popup_position(work_area, 250, 300, 46, 0);
    assert_eq!((x, y), (100, 994));
}

#[test]
fn compute_auto_popup_position_y_matches_compute_popup_y() {
    let work_area = Rect {
        left: 0,
        top: 0,
        right: 1920,
        bottom: 1040,
    };
    let (_, y) = compute_auto_popup_position(work_area, 1900, 300, 46, 10);
    assert_eq!(y, compute_popup_y(work_area.top, work_area.bottom, 46));
}

#[test]
fn compute_auto_popup_position_handles_non_zero_work_area_origin() {
    let work_area = Rect {
        left: 1920,
        top: 40,
        right: 3840,
        bottom: 1080,
    };
    let (x, y) = compute_auto_popup_position(work_area, 3800, 300, 46, 0);
    assert_eq!((x, y), (3500, 1034));
}

#[test]
fn usage_geometry_sync_is_requested_only_when_window_size_differs() {
    let current = Rect {
        left: 400,
        top: 700,
        right: 700,
        bottom: 785,
    };
    assert!(!window_size_needs_sync(Some(current), 300, 85));
    assert!(window_size_needs_sync(Some(current), 320, 85));
    assert!(window_size_needs_sync(Some(current), 300, 113));
    assert!(window_size_needs_sync(None, 300, 85));

    let same_size_at_manual_position = Rect {
        left: -500,
        top: 250,
        right: -200,
        bottom: 335,
    };
    assert!(!window_size_needs_sync(
        Some(same_size_at_manual_position),
        300,
        85
    ));
}

#[test]
fn drag_region_point_covers_the_full_width_header_band() {
    let width = 300;
    let header_bottom = 25;
    for x in [0, 150, width - 1] {
        assert!(
            is_drag_region_point(x, 10, width, header_bottom),
            "x={x} inside the header band should be draggable"
        );
    }
}

#[test]
fn drag_region_point_excludes_rows_below_the_header_band_and_outside_popup() {
    let width = 300;
    let header_bottom = 25;
    for y in [header_bottom, header_bottom + 5, 78] {
        assert!(
            !is_drag_region_point(150, y, width, header_bottom),
            "y={y} at/below the header band must not be draggable"
        );
    }
    assert!(!is_drag_region_point(-1, 10, width, header_bottom));
    assert!(!is_drag_region_point(width, 10, width, header_bottom));
    assert!(!is_drag_region_point(150, -1, width, header_bottom));
}

#[test]
fn visible_rows_for_compact_forces_every_optional_row_off() {
    let rows = visible_rows(PopupLayout::Compact, 2, true);
    assert_eq!(rows.weekly_extra_lines, 0);
    assert!(!rows.session_row);
}

#[test]
fn visible_rows_for_compact_forces_off_even_with_nothing_to_show() {
    let rows = visible_rows(PopupLayout::Compact, 0, false);
    assert_eq!(rows.weekly_extra_lines, 0);
    assert!(!rows.session_row);
}

#[test]
fn visible_rows_for_standard_passes_content_through_unchanged() {
    let rows = visible_rows(PopupLayout::Standard, 2, true);
    assert_eq!(rows.weekly_extra_lines, 2);
    assert!(rows.session_row);

    let rows = visible_rows(PopupLayout::Standard, 0, false);
    assert_eq!(rows.weekly_extra_lines, 0);
    assert!(!rows.session_row);
}

#[test]
fn popup_height_logical_for_compact_is_header_plus_weekly_row_only() {
    let rows = visible_rows(PopupLayout::Compact, 2, true);
    assert_eq!(
        popup_height_logical(rows),
        WIDGET_HEIGHT - BASIS_LABEL_ROW_H - ROW_GAP_H - SEGMENT_H
    );
}

#[test]
fn popup_height_logical_for_standard_matches_pre_popup_layout_behavior() {
    let with_session = visible_rows(PopupLayout::Standard, 0, true);
    assert_eq!(
        popup_height_logical(with_session),
        WIDGET_HEIGHT - BASIS_LABEL_ROW_H
    );

    let without_session = visible_rows(PopupLayout::Standard, 2, false);
    assert_eq!(
        popup_height_logical(without_session),
        WIDGET_HEIGHT - BASIS_LABEL_ROW_H - ROW_GAP_H - SEGMENT_H + 2 * PACE_LINE_H
    );
}

#[test]
fn compact_layout_is_never_taller_than_standard_for_the_same_content() {
    let weekly_extra_lines = 2;
    let needs_session_row = true;
    let compact = popup_height_logical(visible_rows(
        PopupLayout::Compact,
        weekly_extra_lines,
        needs_session_row,
    ));
    let standard = popup_height_logical(visible_rows(
        PopupLayout::Standard,
        weekly_extra_lines,
        needs_session_row,
    ));
    assert!(compact < standard);
}

#[test]
fn session_row_visible_is_true_only_when_a_shown_providers_decision_says_show() {
    assert!(!session_row_visible(true, false, true, false, true, false));
    assert!(session_row_visible(true, true, false, false, false, false));
    assert!(session_row_visible(false, false, true, true, false, false));
    assert!(session_row_visible(false, false, false, false, true, true));
}

#[test]
fn session_row_visible_ignores_hidden_providers_error_state() {
    assert!(!session_row_visible(true, false, false, true, false, false));
}

#[test]
fn popup_height_logical_with_session_row_is_widget_height_plus_weekly_extra() {
    assert_eq!(
        popup_height_logical(visible_rows(PopupLayout::Standard, 0, true)),
        WIDGET_HEIGHT - BASIS_LABEL_ROW_H
    );
    assert_eq!(
        popup_height_logical(visible_rows(PopupLayout::Standard, 2, true)),
        WIDGET_HEIGHT - BASIS_LABEL_ROW_H + 2 * PACE_LINE_H
    );
}

#[test]
fn popup_height_logical_without_session_row_shrinks_by_one_row_and_gap() {
    assert_eq!(
        popup_height_logical(visible_rows(PopupLayout::Standard, 0, false)),
        WIDGET_HEIGHT - BASIS_LABEL_ROW_H - ROW_GAP_H - SEGMENT_H
    );
    assert_eq!(
        popup_height_logical(visible_rows(PopupLayout::Standard, 1, false)),
        WIDGET_HEIGHT - BASIS_LABEL_ROW_H - ROW_GAP_H - SEGMENT_H + PACE_LINE_H
    );
}

#[test]
fn drag_follow_position_at_drag_start_equals_start_window() {
    assert_eq!(
        drag_follow_position((500, 800), (1000, 1000), (1000, 1000)),
        (500, 800)
    );
}

#[test]
fn drag_follow_position_tracks_positive_cursor_movement() {
    assert_eq!(
        drag_follow_position((500, 800), (1000, 1000), (1150, 1100)),
        (650, 900)
    );
}

#[test]
fn drag_follow_position_tracks_negative_cursor_movement() {
    assert_eq!(
        drag_follow_position((500, 800), (1000, 1000), (850, 700)),
        (350, 500)
    );
}

#[test]
fn drag_follow_position_axes_move_independently() {
    assert_eq!(
        drag_follow_position((500, 800), (1000, 1000), (1200, 1000)),
        (700, 800)
    );
    assert_eq!(
        drag_follow_position((500, 800), (1000, 1000), (1000, 700)),
        (500, 500)
    );
}
