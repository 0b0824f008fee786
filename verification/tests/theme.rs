//! Colors.

use usage_monitor::rows::{popup_height_logical, visible_rows};
use usage_monitor::settings::{AppTheme, PopupLayout};
use usage_monitor::theme::{
    Color, antigravity_accent_color, claude_accent_color, codex_accent_color, popup_palette,
    theme_outlines_usage_track, theme_shows_column_dividers,
};

fn from_hex(hex: &str) -> Color {
    let channel = |at: usize| u8::from_str_radix(&hex[at..at + 2], 16).unwrap();
    Color { r: channel(1), g: channel(3), b: channel(5) }
}

fn assert_color_hex(color: Color, hex: &str, label: &str) {
    let expected = from_hex(hex);
    assert_eq!(
        (color.r, color.g, color.b),
        (expected.r, expected.g, expected.b),
        "{label} expected {hex}"
    );
}

#[test]
fn popup_palette_recommended_dark_matches_spec_hex_values() {
    let palette = popup_palette(AppTheme::RecommendedDark);
    assert_color_hex(palette.background, "#11171D", "RecommendedDark background");
    assert_color_hex(palette.track, "#18222B", "RecommendedDark track");
    assert_color_hex(
        palette.primary_text,
        "#F4F8FB",
        "RecommendedDark primary_text",
    );
    assert_color_hex(
        palette.secondary_text,
        "#AAB8C3",
        "RecommendedDark secondary_text",
    );
    assert_color_hex(palette.border, "#31424F", "RecommendedDark border");
    assert_color_hex(
        palette.heading_text,
        "#F4F8FB",
        "RecommendedDark heading_text",
    );
}

#[test]
fn popup_palette_light_matches_spec_hex_values() {
    let palette = popup_palette(AppTheme::Light);
    assert_color_hex(palette.background, "#F4F7FA", "Light background");
    assert_color_hex(palette.primary_text, "#17212B", "Light primary_text");
    assert_color_hex(palette.secondary_text, "#5D6C78", "Light secondary_text");
    assert_color_hex(palette.border, "#BDCCD7", "Light border");
    assert_color_hex(palette.heading_text, "#17212B", "Light heading_text");
    assert_ne!(
        (palette.track.r, palette.track.g, palette.track.b),
        (0xFF, 0xFF, 0xFF),
        "Light track must not be pure white (would vanish into the background)"
    );
    assert_ne!(
        (palette.track.r, palette.track.g, palette.track.b),
        (
            palette.background.r,
            palette.background.g,
            palette.background.b
        ),
        "Light track must be visually distinct from the background"
    );
}

#[test]
fn popup_palette_high_visibility_matches_spec_hex_values() {
    let palette = popup_palette(AppTheme::HighVisibility);
    assert_color_hex(palette.background, "#000000", "HighVisibility background");
    assert_color_hex(palette.track, "#484848", "HighVisibility track");
    assert_color_hex(
        palette.primary_text,
        "#FFFFFF",
        "HighVisibility primary_text",
    );
    assert_color_hex(
        palette.secondary_text,
        "#00E5FF",
        "HighVisibility secondary_text",
    );
    assert_color_hex(palette.border, "#FFFFFF", "HighVisibility border");
    assert_color_hex(palette.warning, "#FF4D4D", "HighVisibility warning");
    assert_color_hex(
        palette.heading_text,
        "#FFFF00",
        "HighVisibility heading_text",
    );
}

#[test]
fn popup_palette_high_visibility_is_visually_distinct_from_recommended_dark() {
    let high_visibility = popup_palette(AppTheme::HighVisibility);
    let recommended_dark = popup_palette(AppTheme::RecommendedDark);

    assert_ne!(
        (
            high_visibility.background.r,
            high_visibility.background.g,
            high_visibility.background.b
        ),
        (
            recommended_dark.background.r,
            recommended_dark.background.g,
            recommended_dark.background.b
        ),
        "HighVisibility background must differ from RecommendedDark"
    );
    assert_ne!(
        (
            high_visibility.track.r,
            high_visibility.track.g,
            high_visibility.track.b
        ),
        (
            recommended_dark.track.r,
            recommended_dark.track.g,
            recommended_dark.track.b
        ),
        "HighVisibility track must differ from RecommendedDark"
    );
    assert_ne!(
        (
            high_visibility.secondary_text.r,
            high_visibility.secondary_text.g,
            high_visibility.secondary_text.b
        ),
        (
            recommended_dark.secondary_text.r,
            recommended_dark.secondary_text.g,
            recommended_dark.secondary_text.b
        ),
        "HighVisibility secondary_text must differ from RecommendedDark"
    );
    assert_ne!(
        (
            high_visibility.border.r,
            high_visibility.border.g,
            high_visibility.border.b
        ),
        (
            recommended_dark.border.r,
            recommended_dark.border.g,
            recommended_dark.border.b
        ),
        "HighVisibility border must differ from RecommendedDark"
    );
    assert_ne!(
        (
            high_visibility.heading_text.r,
            high_visibility.heading_text.g,
            high_visibility.heading_text.b
        ),
        (
            recommended_dark.heading_text.r,
            recommended_dark.heading_text.g,
            recommended_dark.heading_text.b
        ),
        "HighVisibility heading_text must differ from RecommendedDark"
    );
    assert_ne!(
        (
            high_visibility.warning.r,
            high_visibility.warning.g,
            high_visibility.warning.b
        ),
        (
            recommended_dark.warning.r,
            recommended_dark.warning.g,
            recommended_dark.warning.b
        ),
        "HighVisibility warning must differ from RecommendedDark"
    );
}

#[test]
fn theme_shows_column_dividers_is_true_only_for_high_visibility() {
    assert!(!theme_shows_column_dividers(AppTheme::RecommendedDark));
    assert!(!theme_shows_column_dividers(AppTheme::Light));
    assert!(theme_shows_column_dividers(AppTheme::HighVisibility));
}

#[test]
fn theme_outlines_usage_track_is_true_only_for_high_visibility() {
    assert!(!theme_outlines_usage_track(AppTheme::RecommendedDark));
    assert!(!theme_outlines_usage_track(AppTheme::Light));
    assert!(theme_outlines_usage_track(AppTheme::HighVisibility));
}

#[test]
fn both_draw_paths_source_colors_from_the_same_popup_palette_call() {
    for theme in [
        AppTheme::RecommendedDark,
        AppTheme::Light,
        AppTheme::HighVisibility,
    ] {
        let a = popup_palette(theme);
        let b = popup_palette(theme);
        assert_eq!(
            (a.background.r, a.background.g, a.background.b),
            (b.background.r, b.background.g, b.background.b)
        );
        assert_eq!(
            (a.track.r, a.track.g, a.track.b),
            (b.track.r, b.track.g, b.track.b)
        );
        assert_eq!(
            (a.primary_text.r, a.primary_text.g, a.primary_text.b),
            (b.primary_text.r, b.primary_text.g, b.primary_text.b)
        );
        assert_eq!(
            (a.secondary_text.r, a.secondary_text.g, a.secondary_text.b),
            (b.secondary_text.r, b.secondary_text.g, b.secondary_text.b)
        );
        assert_eq!(
            (a.border.r, a.border.g, a.border.b),
            (b.border.r, b.border.g, b.border.b)
        );
        assert_eq!(
            (a.warning.r, a.warning.g, a.warning.b),
            (b.warning.r, b.warning.g, b.warning.b)
        );
        assert_eq!(
            (a.heading_text.r, a.heading_text.g, a.heading_text.b),
            (b.heading_text.r, b.heading_text.g, b.heading_text.b)
        );
    }
}

#[test]
fn claude_accent_color_matches_spec_hex() {
    assert_color_hex(claude_accent_color(), "#D97757", "first accent");
}

#[test]
fn codex_accent_color_matches_spec_hex() {
    assert_color_hex(codex_accent_color(), "#7477E8", "Codex accent");
}

#[test]
fn antigravity_accent_color_matches_spec_hex() {
    assert_color_hex(antigravity_accent_color(), "#4285F4", "Antigravity accent");
}

#[test]
fn app_theme_variants_do_not_affect_visible_rows_or_popup_height() {
    let rows_before = visible_rows(PopupLayout::Standard, 2, true);
    let height_before = popup_height_logical(rows_before);

    let _ = popup_palette(AppTheme::RecommendedDark);
    let _ = popup_palette(AppTheme::Light);
    let _ = popup_palette(AppTheme::HighVisibility);

    let rows_after = visible_rows(PopupLayout::Standard, 2, true);
    let height_after = popup_height_logical(rows_after);
    assert_eq!(height_before, height_after);
    assert_eq!(rows_before.session_row, rows_after.session_row);
    assert_eq!(
        rows_before.weekly_extra_lines,
        rows_after.weekly_extra_lines
    );
}
