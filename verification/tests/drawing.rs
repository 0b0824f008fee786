//! What the popup draws.

use usage_monitor::draw::{fill_of_segment, DrawCommand, SegmentFill, TextAlign};
use usage_monitor::geometry::{provider_column_width_for_client_at_dpi, Rect};
use usage_monitor::models::{QuotaFamilyId, UsageData, UsageSection};
use usage_monitor::numbers::Quantity;
use usage_monitor::paint::{
    codex_header_text, layered_pixels, paint_content, provider_column_x_positions, render_plan,
    Canvas, HeaderWidths, RenderPlan, TextWidths,
};
use usage_monitor::poll::ProviderPollOutcome;
use usage_monitor::polling::apply_provider_poll_update;
use usage_monitor::settings::{
    AppTheme, DisplayDensity, LanguageId, PopupLayout, ShortWindowVisibility,
};
use usage_monitor::settings_file::SettingsFile;
use usage_monitor::startup::initial_state;
use usage_monitor::state::{widget_height_for_state, AppState, InstallChannel};
use usage_monitor::strings::{Languages, Strings};
use usage_monitor::theme::{popup_palette, Color};
use usage_monitor::time::Timestamp;

fn noon() -> Timestamp {
    Timestamp { ticks: 1_700_000_000 * 10_000_000 }
}

fn strings() -> Strings {
    Strings {
        claude_code_model: "First",
        codex_model: "Codex",
        antigravity_model: "Antigravity",
        weekly_window: "7d",
        session_window: "5h",
        loading: "Loading",
        not_available: "Not available",
        day_suffix: "d",
        hour_suffix: "h",
        pace_remaining_prefix: "Left",
        ..Strings::default()
    }
}

fn languages() -> Languages {
    let mut languages = Languages::default();
    languages.english.strings = strings();
    languages
}

fn no_widths() -> HeaderWidths {
    let none = TextWidths { name: 0, remaining: 0 };
    HeaderWidths { claude: none, codex: none, antigravity: none }
}

fn state(settings: SettingsFile) -> AppState {
    initial_state(
        &settings,
        LanguageId::English,
        InstallChannel::Portable,
        true,
        noon(),
        &languages(),
    )
}

fn weekly_usage(percent: i32) -> ProviderPollOutcome {
    let mut usage = UsageData::default();
    usage.set_weekly(UsageSection {
        percentage: Quantity::whole(percent),
        resets_at: Some(Timestamp { ticks: noon().ticks + 2 * 86_400 * 10_000_000 }),
    });
    ProviderPollOutcome::Success { usage }
}

fn texts(commands: &Vec<DrawCommand>) -> Vec<&str> {
    commands
        .iter()
        .filter_map(|c| match c {
            DrawCommand::Text { text, .. } => Some(text.as_str()),
            _ => None,
        })
        .collect()
}

fn canvas(state: &AppState, width: i32) -> Canvas {
    Canvas { width, height: widget_height_for_state(state, 96), dpi: 96 }
}

#[test]
fn segments_fill_from_the_left() {
    let value = Quantity::Finite(35_000_000);
    let fills: Vec<SegmentFill> = (0..10).map(|i| fill_of_segment(value, i, 10, 10)).collect();
    assert_eq!(fills[2], SegmentFill::Full);
    assert_eq!(fills[3], SegmentFill::Partial(5));
    assert_eq!(fills[4], SegmentFill::Empty);
    assert_eq!(fill_of_segment(Quantity::whole(100), 9, 10, 10), SegmentFill::Full);
    assert_eq!(fill_of_segment(Quantity::whole(0), 0, 10, 10), SegmentFill::Empty);
    assert_eq!(fill_of_segment(Quantity::PosInfinity, 3, 4, 10), SegmentFill::Full);
    assert_eq!(fill_of_segment(Quantity::NegInfinity, 0, 4, 10), SegmentFill::Empty);
    assert_eq!(fill_of_segment(Quantity::NotANumber, 2, 4, 10), SegmentFill::Partial(0));
    assert_eq!(fill_of_segment(Quantity::Finite(99_999_999), 9, 10, 10), SegmentFill::Partial(9));
}

#[test]
fn segments_agree_with_floating_point_arithmetic() {
    for n in [4i32, 5, 10] {
        for tenths in 0..=1000 {
            let percent = tenths as f64 / 10.0;
            let share = 100.0 / n as f64;
            for i in 0..n {
                let start = i as f64 * share;
                let expected = if percent >= start + share {
                    SegmentFill::Full
                } else if percent <= start {
                    SegmentFill::Empty
                } else {
                    SegmentFill::Partial((16.0 * ((percent - start) / share)) as i32)
                };
                let value = Quantity::Finite(tenths as i64 * 100_000);
                let got = fill_of_segment(value, i, n, 16);
                match (got, expected) {
                    (SegmentFill::Partial(a), SegmentFill::Partial(b)) => {
                        assert!((a - b).abs() <= 1, "{percent} {i} of {n}")
                    }
                    _ => assert_eq!(got, expected, "{percent} {i} of {n}"),
                }
            }
        }
    }
}

#[test]
fn a_waiting_popup_draws_no_bar() {
    let s = state(SettingsFile::default());
    let commands = paint_content(&s, strings(), no_widths(), canvas(&s, 315));
    assert_eq!(texts(&commands), vec!["First", "7d", "Loading"]);
    assert!(!commands.iter().any(|c| matches!(c, DrawCommand::FillShape { .. })));
    let background = popup_palette(AppTheme::RecommendedDark).background;
    assert!(matches!(
        commands[0],
        DrawCommand::Fill { rect: Rect { left: 0, top: 0, right: 315, bottom: 39 }, color }
            if color == background
    ));
}

#[test]
fn a_value_draws_ten_segments_in_the_providers_color() {
    let mut s = state(SettingsFile::default());
    apply_provider_poll_update(
        &mut s,
        QuotaFamilyId::Claude,
        &weekly_usage(35),
        noon(),
        &languages(),
    );
    let commands = paint_content(&s, strings(), no_widths(), canvas(&s, 315));
    let shapes: Vec<&DrawCommand> =
        commands.iter().filter(|c| matches!(c, DrawCommand::FillShape { .. })).collect();
    assert_eq!(shapes.len(), 10);
    let accent = Color { r: 0xD9, g: 0x77, b: 0x57 };
    let track = popup_palette(AppTheme::RecommendedDark).track;
    for (i, shape) in shapes.iter().enumerate() {
        match shape {
            DrawCommand::FillShape { shape, radius, color } => {
                assert_eq!(shape.left, 41 + 11 * i as i32);
                assert_eq!(shape.right - shape.left, 10);
                assert_eq!(*radius, 2);
                assert_eq!(*color, if i < 3 { accent } else { track });
            }
            _ => unreachable!(),
        }
    }
    assert!(commands.iter().any(|c| matches!(
        c,
        DrawCommand::FillWithin { rect: Rect { left: 74, right: 79, .. }, .. }
    )));
    assert!(!commands.iter().any(|c| matches!(c, DrawCommand::Outline { .. })));
}

#[test]
fn the_high_visibility_theme_outlines_what_is_not_filled_and_divides_columns() {
    let mut s = state(SettingsFile {
        app_theme: AppTheme::HighVisibility,
        show_codex: true,
        ..SettingsFile::default()
    });
    apply_provider_poll_update(
        &mut s,
        QuotaFamilyId::Claude,
        &weekly_usage(50),
        noon(),
        &languages(),
    );
    let area = canvas(&s, 353);
    let commands = paint_content(&s, strings(), no_widths(), area);
    let outlines: Vec<Option<Rect>> = commands
        .iter()
        .filter_map(|c| match c {
            DrawCommand::Outline { clip, .. } => Some(*clip),
            _ => None,
        })
        .collect();
    assert_eq!(outlines.len(), 3);
    assert_eq!(outlines[0].unwrap().left, 41 + 2 * 11 + 5);
    assert_eq!(outlines[1], None);
    let border = popup_palette(AppTheme::HighVisibility).border;
    let last = commands.last().unwrap();
    let xs = provider_column_x_positions(&s.prefs, area);
    assert_eq!(xs.0, 41);
    assert_eq!(xs.1, 41 + 154 + 3);
    assert_eq!(xs.2, 0);
    assert!(matches!(
        last,
        DrawCommand::Fill { rect, color }
            if *color == border && rect.left == xs.1 - 3 + 1 && rect.right == xs.1 - 1
                && rect.top == 0 && rect.bottom == area.height
    ));
}

#[test]
fn the_remaining_time_is_drawn_only_where_it_fits() {
    let mut s = state(SettingsFile::default());
    apply_provider_poll_update(
        &mut s,
        QuotaFamilyId::Claude,
        &weekly_usage(35),
        noon(),
        &languages(),
    );
    let area = canvas(&s, 315);
    let mut widths = no_widths();
    widths.claude = TextWidths { name: 100, remaining: 165 };
    let commands = paint_content(&s, strings(), widths, area);
    assert!(commands.iter().any(|c| matches!(
        c,
        DrawCommand::Text { text, align: TextAlign::Right, rect, .. }
            if text == "Left 2d0h" && rect.right == 41 + 273
    )));
    widths.claude.remaining = 166;
    let commands = paint_content(&s, strings(), widths, area);
    assert!(!texts(&commands).contains(&"Left 2d0h"));
}

#[test]
fn a_remaining_time_keeps_clear_of_the_next_provider() {
    let mut s = state(SettingsFile {
        show_claude_code: false,
        show_codex: true,
        show_github_copilot: true,
        ..SettingsFile::default()
    });
    apply_provider_poll_update(
        &mut s,
        QuotaFamilyId::Codex,
        &weekly_usage(35),
        noon(),
        &languages(),
    );
    let mut area = canvas(&s, 600);
    let (_, x, _) = provider_column_x_positions(&s.prefs, area);
    let column = provider_column_width_for_client_at_dpi(600, 2, 96);
    let right_of = |commands: &Vec<DrawCommand>| {
        commands.iter().find_map(|c| match c {
            DrawCommand::Text { align: TextAlign::Right, rect, .. } => Some(rect.right),
            _ => None,
        })
    };
    let commands = paint_content(&s, strings(), no_widths(), area);
    assert_eq!(right_of(&commands), Some(x + column - 8));
    s.prefs.show_github_copilot = false;
    area = canvas(&s, 600);
    let (_, x, _) = provider_column_x_positions(&s.prefs, area);
    let column = provider_column_width_for_client_at_dpi(600, 1, 96);
    let commands = paint_content(&s, strings(), no_widths(), area);
    assert_eq!(right_of(&commands), Some(x + column));
}

#[test]
fn the_standard_layout_draws_the_rows_that_its_height_was_made_for() {
    let mut s = state(SettingsFile {
        popup_layout: PopupLayout::Standard,
        display_density: DisplayDensity::Detailed,
        short_window_visibility: ShortWindowVisibility::Always,
        show_github_copilot: true,
        ..SettingsFile::default()
    });
    apply_provider_poll_update(
        &mut s,
        QuotaFamilyId::Claude,
        &weekly_usage(90),
        noon(),
        &languages(),
    );
    let area = canvas(&s, 600);
    let commands = paint_content(&s, strings(), no_widths(), area);
    let drawn = texts(&commands);
    assert!(drawn.contains(&"5h"));
    assert!(drawn.contains(&"Month"));
    assert!(drawn.contains(&"GitHub Copilot"));
    assert_eq!(area.height, 62 + 23 + 2 * 14);
    for command in &commands {
        if let DrawCommand::Text { rect, .. } = command {
            assert!(rect.top >= 0 && rect.bottom <= area.height);
        }
    }
}

#[test]
fn codex_shows_its_banked_resets_in_the_header() {
    assert_eq!(codex_header_text(strings(), "Full reset: 2"), "Codex · Full reset: 2");
}

#[test]
fn only_a_layered_window_is_drawn_at_once() {
    let mut s = state(SettingsFile::default());
    let client = Some(Rect { left: 0, top: 0, right: 400, bottom: 10 });
    assert_eq!(render_plan(&None, client, 96), RenderPlan::Nothing);
    assert_eq!(render_plan(&Some(s), client, 96), RenderPlan::Invalidate);
    s = state(SettingsFile::default());
    s.embedded = true;
    let embedded = Some(s);
    assert_eq!(
        render_plan(&embedded, client, 96),
        RenderPlan::Layered { width: 400, height: 39 }
    );
    assert_eq!(
        render_plan(&embedded, None, 96),
        RenderPlan::Layered { width: 315, height: 39 }
    );
}

#[test]
fn background_pixels_are_nearly_invisible_and_the_rest_opaque() {
    let background = Color { r: 1, g: 2, b: 3 };
    assert_eq!(background.to_pixel(), 0x0001_0203);
    assert_eq!(background.to_colorref(), 0x0003_0201);
    let mut pixels = vec![0x0001_0203, 0xAA01_0203, 0x0003_0201, 0x00FF_FFFF, 0];
    layered_pixels(&mut pixels, background);
    assert_eq!(
        pixels,
        vec![0x0100_0000, 0x0100_0000, 0xFF03_0201, 0xFFFF_FFFF, 0xFF00_0000]
    );
}
