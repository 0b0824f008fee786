//! The settings file.

use usage_monitor::geometry::{minimum_widget_width_logical_for, resolved_widget_width_device};
use usage_monitor::settings::{
    AppTheme, DisplayBasis, DisplayDensity, GithubCopilotPlan, PopupLayout,
    ShortWindowAlertSensitivity, ShortWindowVisibility,
};
use usage_monitor::settings_file::{
    SettingsFile, normalize_github_copilot_settings, normalize_saved_widget_width, parse_settings,
    settings_json,
};

/// The settings as a parsed JSON document.
fn json_value(settings: &SettingsFile) -> serde_json::Value {
    serde_json::from_str(&settings_json(settings).expect("settings should serialize")).unwrap()
}

/// The settings as JSON without white space.
fn compact_json(settings: &SettingsFile) -> String {
    serde_json::to_string(&json_value(settings)).unwrap()
}

#[test]
fn legacy_settings_default_to_no_saved_width_or_position() {
    let settings: SettingsFile = parse_settings("{}")
        .expect("the settings are readable");
    assert_eq!(settings.widget_width_logical, None);
    assert_eq!(settings.manual_x, None);
    assert_eq!(settings.manual_y, None);
}

#[test]
fn widget_width_and_manual_position_round_trip() {
    let settings = SettingsFile {
        widget_width_logical: Some(777),
        manual_x: Some(-1200),
        manual_y: Some(240),
        ..SettingsFile::default()
    };
    let json = compact_json(&settings);
    let decoded: SettingsFile = parse_settings(&json)
        .expect("the settings are readable");
    assert_eq!(decoded.widget_width_logical, Some(777));
    assert_eq!(decoded.manual_x.zip(decoded.manual_y), Some((-1200, 240)));
}

#[test]
fn invalid_saved_width_is_clamped_without_affecting_other_settings() {
    assert_eq!(normalize_saved_widget_width(Some(-50)), Some(1));
    assert_eq!(normalize_saved_widget_width(Some(5000)), Some(1200));
    assert_eq!(normalize_saved_widget_width(None), None);
    assert_eq!(
        resolved_widget_width_device(Some(1), 1, 96, 1920),
        minimum_widget_width_logical_for(1)
    );
}

#[test]
fn settings_default_has_always_on_top_disabled() {
    assert!(!SettingsFile::default().always_on_top);
}

#[test]
fn settings_without_always_on_top_field_defaults_to_false() {
    let settings: SettingsFile = parse_settings("{}")
        .expect("the settings are readable");
    assert!(!settings.always_on_top);
}

#[test]
fn settings_with_always_on_top_true_deserializes_true() {
    let settings: SettingsFile = parse_settings(r#"{"always_on_top":true}"#)
        .expect("the settings are readable");
    assert!(settings.always_on_top);
}

#[test]
fn settings_serialization_includes_always_on_top() {
    let settings = SettingsFile {
        always_on_top: true,
        ..SettingsFile::default()
    };
    let value = json_value(&settings);
    assert_eq!(value["always_on_top"], serde_json::Value::from(true));
}

#[test]
fn display_basis_default_is_used_percentage() {
    assert_eq!(DisplayBasis::default(), DisplayBasis::UsedPercentage);
}

#[test]
fn legacy_settings_without_display_basis_default_to_used_percentage() {
    let settings: SettingsFile = parse_settings("{}")
        .expect("the settings are readable");
    assert_eq!(settings.display_basis, DisplayBasis::UsedPercentage);
}

#[test]
fn legacy_settings_without_copilot_fields_default_to_disabled_unknown() {
    let settings: SettingsFile = parse_settings("{}")
        .expect("the settings are readable");
    assert!(!settings.show_github_copilot);
    assert_eq!(
        settings.github_copilot_plan,
        GithubCopilotPlan::Unknown
    );
}

#[test]
fn copilot_settings_round_trip_with_explicit_plan() {
    let settings = SettingsFile {
        show_github_copilot: true,
        github_copilot_plan: GithubCopilotPlan::ProPlus,
        ..SettingsFile::default()
    };
    let json = compact_json(&settings);
    let decoded: SettingsFile = parse_settings(&json)
        .expect("the settings are readable");
    assert!(decoded.show_github_copilot);
    assert_eq!(
        decoded.github_copilot_plan,
        GithubCopilotPlan::ProPlus
    );
    assert!(json.contains("\"github_copilot_plan\":\"pro_plus\""));
}

#[test]
fn saved_paid_copilot_plan_migrates_the_family_to_enabled() {
    let mut settings = SettingsFile {
        show_github_copilot: false,
        github_copilot_plan: GithubCopilotPlan::Pro,
        ..SettingsFile::default()
    };
    normalize_github_copilot_settings(&mut settings);
    assert!(settings.show_github_copilot);
    assert_eq!(settings.github_copilot_plan, GithubCopilotPlan::Pro);
}

#[test]
fn settings_with_unrecognized_display_basis_falls_back_without_failing_the_whole_file() {
    let settings: SettingsFile = parse_settings(
        r#"{"display_basis":"some_future_value","tray_offset":7}"#
    )
        .expect("the settings are readable");
    assert_eq!(settings.display_basis, DisplayBasis::UsedPercentage);
    assert_eq!(settings.tray_offset, 7);
}

#[test]
fn settings_serialization_uses_snake_case_display_basis() {
    let settings = SettingsFile {
        display_basis: DisplayBasis::RemainingAllowance,
        ..SettingsFile::default()
    };
    let value = json_value(&settings);
    assert_eq!(
        value["display_basis"],
        serde_json::Value::from("remaining_allowance")
    );
}

#[test]
fn display_density_default_is_standard() {
    assert_eq!(DisplayDensity::default(), DisplayDensity::Standard);
}

#[test]
fn short_window_visibility_default_is_warning_only() {
    assert_eq!(
        ShortWindowVisibility::default(),
        ShortWindowVisibility::WarningOnly
    );
}

#[test]
fn short_window_alert_sensitivity_default_is_standard() {
    assert_eq!(
        ShortWindowAlertSensitivity::default(),
        ShortWindowAlertSensitivity::Standard
    );
}

#[test]
fn display_density_serializes_to_expected_snake_case() {
    assert_eq!(
        serde_json::Value::from(DisplayDensity::Compact.name()),
        serde_json::Value::from("compact")
    );
    assert_eq!(
        serde_json::Value::from(DisplayDensity::Standard.name()),
        serde_json::Value::from("standard")
    );
    assert_eq!(
        serde_json::Value::from(DisplayDensity::Detailed.name()),
        serde_json::Value::from("detailed")
    );
}

#[test]
fn short_window_visibility_serializes_to_expected_snake_case() {
    assert_eq!(
        serde_json::Value::from(ShortWindowVisibility::Always.name()),
        serde_json::Value::from("always")
    );
    assert_eq!(
        serde_json::Value::from(ShortWindowVisibility::WarningOnly.name()),
        serde_json::Value::from("warning_only")
    );
    assert_eq!(
        serde_json::Value::from(ShortWindowVisibility::Hidden.name()),
        serde_json::Value::from("hidden")
    );
}

#[test]
fn short_window_alert_sensitivity_serializes_to_expected_snake_case() {
    assert_eq!(
        serde_json::Value::from(ShortWindowAlertSensitivity::Sensitive.name()),
        serde_json::Value::from("sensitive")
    );
    assert_eq!(
        serde_json::Value::from(ShortWindowAlertSensitivity::Standard.name()),
        serde_json::Value::from("standard")
    );
    assert_eq!(
        serde_json::Value::from(ShortWindowAlertSensitivity::Relaxed.name()),
        serde_json::Value::from("relaxed")
    );
}

#[test]
fn pace_settings_deserialize_from_expected_snake_case_strings() {
    let density: DisplayDensity = DisplayDensity::from_name("detailed").unwrap();
    assert_eq!(density, DisplayDensity::Detailed);

    let visibility: ShortWindowVisibility = ShortWindowVisibility::from_name("hidden").unwrap();
    assert_eq!(visibility, ShortWindowVisibility::Hidden);

    let sensitivity: ShortWindowAlertSensitivity = ShortWindowAlertSensitivity::from_name("relaxed").unwrap();
    assert_eq!(sensitivity, ShortWindowAlertSensitivity::Relaxed);
}

#[test]
fn legacy_settings_without_pace_display_keys_deserialize_successfully() {
    let settings: SettingsFile = parse_settings("{}")
        .expect("the settings are readable");
    assert_eq!(settings.display_density, DisplayDensity::Standard);
    assert_eq!(
        settings.short_window_visibility,
        ShortWindowVisibility::WarningOnly
    );
    assert_eq!(
        settings.short_window_alert_sensitivity,
        ShortWindowAlertSensitivity::Standard
    );
}

#[test]
fn new_format_settings_load_the_saved_pace_display_values() {
    let json = r#"{
        "display_density": "detailed",
        "short_window_visibility": "always",
        "short_window_alert_sensitivity": "relaxed"
    }"#;
    let settings: SettingsFile = parse_settings(json)
        .expect("the settings are readable");
    assert_eq!(settings.display_density, DisplayDensity::Detailed);
    assert_eq!(
        settings.short_window_visibility,
        ShortWindowVisibility::Always
    );
    assert_eq!(
        settings.short_window_alert_sensitivity,
        ShortWindowAlertSensitivity::Relaxed
    );
}

#[test]
fn settings_serialization_includes_all_pace_display_keys() {
    let value =
        json_value(&SettingsFile::default());
    assert_eq!(value["display_density"], serde_json::Value::from("standard"));
    assert_eq!(
        value["short_window_visibility"],
        serde_json::Value::from("warning_only")
    );
    assert_eq!(
        value["short_window_alert_sensitivity"],
        serde_json::Value::from("standard")
    );
}

#[test]
fn pace_display_settings_round_trip_through_serialization() {
    let settings = SettingsFile {
        display_density: DisplayDensity::Compact,
        short_window_visibility: ShortWindowVisibility::Hidden,
        short_window_alert_sensitivity: ShortWindowAlertSensitivity::Sensitive,
        ..SettingsFile::default()
    };
    let json = compact_json(&settings);
    let round_tripped: SettingsFile = parse_settings(&json)
        .expect("the settings are readable");
    assert_eq!(round_tripped.display_density, DisplayDensity::Compact);
    assert_eq!(
        round_tripped.short_window_visibility,
        ShortWindowVisibility::Hidden
    );
    assert_eq!(
        round_tripped.short_window_alert_sensitivity,
        ShortWindowAlertSensitivity::Sensitive
    );
}

#[test]
fn existing_display_basis_survives_round_trip_alongside_new_pace_settings() {
    let settings = SettingsFile {
        display_basis: DisplayBasis::RemainingAllowance,
        display_density: DisplayDensity::Detailed,
        ..SettingsFile::default()
    };
    let json = compact_json(&settings);
    let round_tripped: SettingsFile = parse_settings(&json)
        .expect("the settings are readable");
    assert_eq!(
        round_tripped.display_basis,
        DisplayBasis::RemainingAllowance
    );
    assert_eq!(round_tripped.display_density, DisplayDensity::Detailed);
}

#[test]
fn other_existing_settings_are_not_lost_when_pace_settings_are_present() {
    let settings = SettingsFile {
        tray_offset: 42,
        taskbar_index: 3,
        show_codex: true,
        show_claude_code: false,
        display_density: DisplayDensity::Compact,
        ..SettingsFile::default()
    };
    let json = compact_json(&settings);
    let round_tripped: SettingsFile = parse_settings(&json)
        .expect("the settings are readable");
    assert_eq!(round_tripped.tray_offset, 42);
    assert_eq!(round_tripped.taskbar_index, 3);
    assert!(round_tripped.show_codex);
    assert!(!round_tripped.show_claude_code);
}

#[test]
fn settings_with_unrecognized_display_density_falls_back_without_failing_the_whole_file() {
    let settings: SettingsFile = parse_settings(
        r#"{"display_density":"ultra_compact","tray_offset":9}"#
    )
        .expect("the settings are readable");
    assert_eq!(settings.display_density, DisplayDensity::Standard);
    assert_eq!(settings.tray_offset, 9);
}

#[test]
fn settings_with_unrecognized_short_window_visibility_falls_back_without_failing_the_whole_file(
) {
    let settings: SettingsFile = parse_settings(
        r#"{"short_window_visibility":"sometimes","tray_offset":9}"#
    )
        .expect("the settings are readable");
    assert_eq!(
        settings.short_window_visibility,
        ShortWindowVisibility::WarningOnly
    );
    assert_eq!(settings.tray_offset, 9);
}

#[test]
fn settings_with_unrecognized_short_window_alert_sensitivity_falls_back_without_failing_the_whole_file(
) {
    let settings: SettingsFile = parse_settings(
        r#"{"short_window_alert_sensitivity":"extreme","tray_offset":9}"#
    )
        .expect("the settings are readable");
    assert_eq!(
        settings.short_window_alert_sensitivity,
        ShortWindowAlertSensitivity::Standard
    );
    assert_eq!(settings.tray_offset, 9);
}

#[test]
fn one_unrecognized_pace_display_value_does_not_affect_the_other_two() {
    let settings: SettingsFile = parse_settings(
        r#"{"display_density":"bogus","short_window_visibility":"hidden","short_window_alert_sensitivity":"relaxed"}"#
    )
        .expect("the settings are readable");
    assert_eq!(settings.display_density, DisplayDensity::Standard);
    assert_eq!(
        settings.short_window_visibility,
        ShortWindowVisibility::Hidden
    );
    assert_eq!(
        settings.short_window_alert_sensitivity,
        ShortWindowAlertSensitivity::Relaxed
    );
}

#[test]
fn popup_layout_default_is_compact() {
    assert_eq!(PopupLayout::default(), PopupLayout::Compact);
}

#[test]
fn popup_layout_serializes_to_expected_snake_case() {
    assert_eq!(
        serde_json::Value::from(PopupLayout::Compact.name()),
        serde_json::Value::from("compact")
    );
    assert_eq!(
        serde_json::Value::from(PopupLayout::Standard.name()),
        serde_json::Value::from("standard")
    );
}

#[test]
fn legacy_settings_without_popup_layout_key_deserialize_to_compact() {
    let settings: SettingsFile = parse_settings("{}")
        .expect("the settings are readable");
    assert_eq!(settings.popup_layout, PopupLayout::Compact);
}

#[test]
fn settings_with_unrecognized_popup_layout_falls_back_to_compact_without_failing_the_whole_file(
) {
    let settings: SettingsFile = parse_settings(
        r#"{"popup_layout":"ultra_compact","tray_offset":9}"#
    )
        .expect("the settings are readable");
    assert_eq!(settings.popup_layout, PopupLayout::Compact);
    assert_eq!(settings.tray_offset, 9);
}

#[test]
fn popup_layout_round_trips_through_serialization_alongside_other_settings() {
    let settings = SettingsFile {
        popup_layout: PopupLayout::Standard,
        tray_offset: 42,
        display_density: DisplayDensity::Detailed,
        ..SettingsFile::default()
    };
    let json = compact_json(&settings);
    let round_tripped: SettingsFile = parse_settings(&json)
        .expect("the settings are readable");
    assert_eq!(round_tripped.popup_layout, PopupLayout::Standard);
    assert_eq!(round_tripped.tray_offset, 42);
    assert_eq!(round_tripped.display_density, DisplayDensity::Detailed);
}

#[test]
fn app_theme_default_is_recommended_dark() {
    assert_eq!(AppTheme::default(), AppTheme::RecommendedDark);
}

#[test]
fn app_theme_serializes_to_expected_snake_case() {
    assert_eq!(
        serde_json::Value::from(AppTheme::RecommendedDark.name()),
        serde_json::Value::from("recommended_dark")
    );
    assert_eq!(
        serde_json::Value::from(AppTheme::Light.name()),
        serde_json::Value::from("light")
    );
    assert_eq!(
        serde_json::Value::from(AppTheme::HighVisibility.name()),
        serde_json::Value::from("high_visibility")
    );
}

#[test]
fn legacy_settings_without_app_theme_key_deserialize_to_recommended_dark() {
    let settings: SettingsFile = parse_settings("{}")
        .expect("the settings are readable");
    assert_eq!(settings.app_theme, AppTheme::RecommendedDark);
}

#[test]
fn settings_with_unrecognized_app_theme_falls_back_to_recommended_dark_without_failing_the_whole_file(
) {
    let settings: SettingsFile = parse_settings(r#"{"app_theme":"ultra_neon","tray_offset":9}"#)
        .expect("the settings are readable");
    assert_eq!(settings.app_theme, AppTheme::RecommendedDark);
    assert_eq!(settings.tray_offset, 9);
}

#[test]
fn app_theme_round_trips_through_serialization_alongside_other_settings() {
    let settings = SettingsFile {
        app_theme: AppTheme::HighVisibility,
        tray_offset: 42,
        popup_layout: PopupLayout::Standard,
        ..SettingsFile::default()
    };
    let json = compact_json(&settings);
    let round_tripped: SettingsFile = parse_settings(&json)
        .expect("the settings are readable");
    assert_eq!(round_tripped.app_theme, AppTheme::HighVisibility);
    assert_eq!(round_tripped.tray_offset, 42);
    assert_eq!(round_tripped.popup_layout, PopupLayout::Standard);
}

#[test]
fn a_repeated_setting_spoils_the_file_and_a_repeated_stranger_does_not() {
    assert!(parse_settings(r#"{"tray_offset":1,"tray_offset":1}"#).is_none());
    assert!(parse_settings(r#"{"app_theme":"light","x":0,"app_theme":"light"}"#).is_none());
    assert!(parse_settings(r#"{"tray_offset":1,"tray\u005foffset":2}"#).is_none());
    let settings = parse_settings(r#"{"x":1,"tray_offset":5,"x":[]}"#).unwrap();
    assert_eq!(settings.tray_offset, 5);
}

#[test]
fn what_stands_under_an_unknown_key_is_skipped() {
    let deep = "[".repeat(5_000) + &"]".repeat(5_000);
    for value in ["1e999", r#""\ud800""#, r#"{"a":[1,{"b":null}]}"#, deep.as_str()] {
        let text = format!(r#"{{"x":{value},"tray_offset":7}}"#);
        assert_eq!(parse_settings(&text).unwrap().tray_offset, 7);
    }
    for value in ["", "nul", "[1,]", "01", "tru,"] {
        let text = format!(r#"{{"x":{value},"tray_offset":7}}"#);
        assert!(parse_settings(&text).is_none());
    }
}

#[test]
fn a_list_holds_the_first_settings_in_order() {
    let settings = parse_settings(" [ ] ").unwrap();
    assert_eq!(settings.poll_interval_ms, 900_000);
    assert!(settings.show_claude_code);
    let settings =
        parse_settings(r#"[-3, 2, 60000, "de", null, false, true, 400, 1, 2, false, true]"#)
            .unwrap();
    assert_eq!(settings.tray_offset, -3);
    assert_eq!(settings.taskbar_index, 2);
    assert_eq!(settings.poll_interval_ms, 60_000);
    assert_eq!(settings.language.as_deref(), Some("de"));
    assert_eq!(settings.last_update_check_unix, None);
    assert!(!settings.widget_visible && settings.always_on_top);
    assert_eq!(settings.widget_width_logical, Some(400));
    assert_eq!((settings.manual_x, settings.manual_y), (Some(1), Some(2)));
    assert!(!settings.show_claude_code && settings.show_codex && !settings.show_antigravity);
    assert!(parse_settings("[1,]").is_none());
    assert!(parse_settings("[,1]").is_none());
    assert!(parse_settings("[1 2]").is_none());
    assert!(parse_settings("[null]").is_none());
    let all = r#"0,0,1,null,null,true,true,null,null,null,true,true,true,true,"unknown""#;
    let settings = parse_settings(&format!(r#"[{all},0,0,0,0,"standard","light"]"#)).unwrap();
    assert_eq!(settings.popup_layout, PopupLayout::Standard);
    assert_eq!(settings.app_theme, AppTheme::Light);
    assert!(parse_settings(&format!(r#"[{all},0,0,0,0,"standard","light",0]"#)).is_none());
    assert!(parse_settings(&format!("[{all},]")).is_none());
}

#[test]
fn a_choice_that_cannot_be_read_counts_as_not_made() {
    for value in
        ["1e999", "[1e999]", "7", "null", "[[]]", "", r#"{"light":1}"#, r#""\ud800""#]
    {
        let text = format!(r#"{{"app_theme":{value},"tray_offset":7}}"#);
        let settings = parse_settings(&text).unwrap();
        assert_eq!(settings.app_theme, AppTheme::RecommendedDark);
        assert_eq!(settings.tray_offset, 7);
        let text = format!(r#"{{"always_on_top":{value}}}"#);
        assert!(parse_settings(&text).is_none());
    }
    let settings = parse_settings(r#"{"app_theme":{"light":null}}"#).unwrap();
    assert_eq!(settings.app_theme, AppTheme::Light);
    assert!(parse_settings(r#"{"app_theme":"\ud800 ","tray_offset":7}"#).is_none());
    assert!(parse_settings("{\"app_theme\":\"\\ud800\u{e9}\"}").is_none());
}

#[test]
fn a_value_may_nest_one_level_less_inside_the_settings() {
    let nested = |depth: usize| "[".repeat(depth) + &"]".repeat(depth);
    for (depth, readable) in [(1, true), (126, true), (127, false), (128, false)] {
        let text = format!(r#"{{"app_theme":{},"tray_offset":7}}"#, nested(depth));
        assert_eq!(parse_settings(&text).is_some(), readable);
    }
    assert!(serde_json::from_str::<serde_json::Value>(&nested(127)).is_ok());
    assert!(serde_json::from_str::<serde_json::Value>(&nested(128)).is_err());
}

#[test]
fn nothing_but_blanks_may_stand_around_the_settings() {
    assert!(parse_settings("\n\t\r {} \n").is_some());
    for text in ["", " ", "null", "7", "{", "[", "{} {}", "{},", "{\"tray_offset\":1", "{1:2}"] {
        assert!(parse_settings(text).is_none());
    }
    assert!(parse_settings("{\"tray_offset\" 1}").is_none());
    assert!(parse_settings("{\"tray_offset\":1,}").is_none());
    assert!(parse_settings("{,\"tray_offset\":1}").is_none());
    assert!(parse_settings("{\"tray_offset\":1 \"manual_x\":1}").is_none());
    assert!(parse_settings("\u{a0}{}").is_none());
}
