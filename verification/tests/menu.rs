//! Menu ids and what they stand for.

use usage_monitor::commands::{apply_github_copilot_plan_selection};
use usage_monitor::menu::{
    IDM_ALWAYS_ON_TOP, IDM_APP_THEME_HIGH_VISIBILITY, IDM_APP_THEME_LIGHT,
    IDM_APP_THEME_RECOMMENDED_DARK, IDM_DISPLAY_BASIS_REMAINING, IDM_DISPLAY_BASIS_USED,
    IDM_DISPLAY_DENSITY_COMPACT, IDM_DISPLAY_DENSITY_DETAILED, IDM_DISPLAY_DENSITY_STANDARD,
    IDM_FREQ_15MIN, IDM_FREQ_1HOUR, IDM_FREQ_1MIN, IDM_FREQ_5MIN, IDM_GITHUB_COPILOT_PLAN_MAX,
    IDM_GITHUB_COPILOT_PLAN_PRO, IDM_GITHUB_COPILOT_PLAN_PRO_PLUS, IDM_GITHUB_COPILOT_PLAN_UNKNOWN,
    IDM_LANG_DUTCH, IDM_LANG_ENGLISH, IDM_LANG_FRENCH, IDM_LANG_GERMAN, IDM_LANG_JAPANESE,
    IDM_LANG_KOREAN, IDM_LANG_PORTUGUESE_BRAZIL, IDM_LANG_RUSSIAN, IDM_LANG_SIMPLIFIED_CHINESE,
    IDM_LANG_SPANISH, IDM_LANG_SYSTEM, IDM_LANG_TRADITIONAL_CHINESE, IDM_MODEL_ANTIGRAVITY,
    IDM_MODEL_CLAUDE_CODE, IDM_MODEL_CODEX, IDM_MODEL_GITHUB_COPILOT, IDM_POPUP_LAYOUT_COMPACT,
    IDM_POPUP_LAYOUT_STANDARD, IDM_RESET_POSITION, IDM_SHORT_WINDOW_ALERT_SENSITIVITY_RELAXED,
    IDM_SHORT_WINDOW_ALERT_SENSITIVITY_SENSITIVE, IDM_SHORT_WINDOW_ALERT_SENSITIVITY_STANDARD,
    IDM_SHORT_WINDOW_VISIBILITY_ALWAYS, IDM_SHORT_WINDOW_VISIBILITY_HIDDEN,
    IDM_SHORT_WINDOW_VISIBILITY_WARNING_ONLY, IDM_START_WITH_WINDOWS, IDM_TOGGLE_WIDGET,
    IDM_VERSION_ACTION, app_theme_for_menu_id, display_density_for_menu_id,
    github_copilot_plan_for_menu_id, popup_layout_for_menu_id,
    short_window_alert_sensitivity_for_menu_id, short_window_visibility_for_menu_id,
};
use usage_monitor::settings::{
    AppTheme, DisplayDensity, GithubCopilotPlan, PopupLayout, ShortWindowAlertSensitivity,
    ShortWindowVisibility,
};



#[test]
fn selecting_any_copilot_plan_enables_the_family() {
    for (id, expected) in [
        (
            IDM_GITHUB_COPILOT_PLAN_UNKNOWN,
            GithubCopilotPlan::Unknown,
        ),
        (IDM_GITHUB_COPILOT_PLAN_PRO, GithubCopilotPlan::Pro),
        (
            IDM_GITHUB_COPILOT_PLAN_PRO_PLUS,
            GithubCopilotPlan::ProPlus,
        ),
        (IDM_GITHUB_COPILOT_PLAN_MAX, GithubCopilotPlan::Max),
    ] {
        let plan = github_copilot_plan_for_menu_id(id).unwrap();
        assert_eq!(plan, expected);
        let mut shown = false;
        let mut selected = GithubCopilotPlan::Unknown;
        apply_github_copilot_plan_selection(&mut shown, &mut selected, plan);
        assert!(shown);
        assert_eq!(selected, expected);
    }
    assert_eq!(github_copilot_plan_for_menu_id(u16::MAX), None);
}

#[test]
fn popup_layout_for_menu_id_maps_each_known_id_and_is_bijective() {
    assert_eq!(
        popup_layout_for_menu_id(IDM_POPUP_LAYOUT_COMPACT),
        Some(PopupLayout::Compact)
    );
    assert_eq!(
        popup_layout_for_menu_id(IDM_POPUP_LAYOUT_STANDARD),
        Some(PopupLayout::Standard)
    );
    assert_eq!(popup_layout_for_menu_id(9999), None);

    let ids = [IDM_POPUP_LAYOUT_COMPACT, IDM_POPUP_LAYOUT_STANDARD];
    let mapped: Vec<PopupLayout> = ids
        .iter()
        .map(|&id| popup_layout_for_menu_id(id).unwrap())
        .collect();
    assert_ne!(mapped[0], mapped[1]);
}

#[test]
fn app_theme_for_menu_id_maps_each_known_id_and_is_bijective() {
    assert_eq!(
        app_theme_for_menu_id(IDM_APP_THEME_RECOMMENDED_DARK),
        Some(AppTheme::RecommendedDark)
    );
    assert_eq!(
        app_theme_for_menu_id(IDM_APP_THEME_LIGHT),
        Some(AppTheme::Light)
    );
    assert_eq!(
        app_theme_for_menu_id(IDM_APP_THEME_HIGH_VISIBILITY),
        Some(AppTheme::HighVisibility)
    );
    assert_eq!(app_theme_for_menu_id(9999), None);

    let ids = [
        IDM_APP_THEME_RECOMMENDED_DARK,
        IDM_APP_THEME_LIGHT,
        IDM_APP_THEME_HIGH_VISIBILITY,
    ];
    let mapped: Vec<AppTheme> = ids
        .iter()
        .map(|&id| app_theme_for_menu_id(id).unwrap())
        .collect();
    assert_ne!(mapped[0], mapped[1]);
    assert_ne!(mapped[0], mapped[2]);
    assert_ne!(mapped[1], mapped[2]);
}

#[test]
fn display_density_for_menu_id_maps_each_known_id() {
    assert_eq!(
        display_density_for_menu_id(IDM_DISPLAY_DENSITY_COMPACT),
        Some(DisplayDensity::Compact)
    );
    assert_eq!(
        display_density_for_menu_id(IDM_DISPLAY_DENSITY_STANDARD),
        Some(DisplayDensity::Standard)
    );
    assert_eq!(
        display_density_for_menu_id(IDM_DISPLAY_DENSITY_DETAILED),
        Some(DisplayDensity::Detailed)
    );
}

#[test]
fn short_window_visibility_for_menu_id_maps_each_known_id() {
    assert_eq!(
        short_window_visibility_for_menu_id(IDM_SHORT_WINDOW_VISIBILITY_ALWAYS),
        Some(ShortWindowVisibility::Always)
    );
    assert_eq!(
        short_window_visibility_for_menu_id(IDM_SHORT_WINDOW_VISIBILITY_WARNING_ONLY),
        Some(ShortWindowVisibility::WarningOnly)
    );
    assert_eq!(
        short_window_visibility_for_menu_id(IDM_SHORT_WINDOW_VISIBILITY_HIDDEN),
        Some(ShortWindowVisibility::Hidden)
    );
}

#[test]
fn short_window_alert_sensitivity_for_menu_id_maps_each_known_id() {
    assert_eq!(
        short_window_alert_sensitivity_for_menu_id(
            IDM_SHORT_WINDOW_ALERT_SENSITIVITY_SENSITIVE
        ),
        Some(ShortWindowAlertSensitivity::Sensitive)
    );
    assert_eq!(
        short_window_alert_sensitivity_for_menu_id(IDM_SHORT_WINDOW_ALERT_SENSITIVITY_STANDARD),
        Some(ShortWindowAlertSensitivity::Standard)
    );
    assert_eq!(
        short_window_alert_sensitivity_for_menu_id(IDM_SHORT_WINDOW_ALERT_SENSITIVITY_RELAXED),
        Some(ShortWindowAlertSensitivity::Relaxed)
    );
}

#[test]
fn unknown_menu_id_maps_to_none_for_each_pace_display_group() {
    assert_eq!(display_density_for_menu_id(9999), None);
    assert_eq!(short_window_visibility_for_menu_id(9999), None);
    assert_eq!(short_window_alert_sensitivity_for_menu_id(9999), None);
}

#[test]
fn new_pace_display_menu_ids_are_pairwise_distinct() {
    let ids = [
        IDM_DISPLAY_DENSITY_COMPACT,
        IDM_DISPLAY_DENSITY_STANDARD,
        IDM_DISPLAY_DENSITY_DETAILED,
        IDM_SHORT_WINDOW_VISIBILITY_ALWAYS,
        IDM_SHORT_WINDOW_VISIBILITY_WARNING_ONLY,
        IDM_SHORT_WINDOW_VISIBILITY_HIDDEN,
        IDM_SHORT_WINDOW_ALERT_SENSITIVITY_SENSITIVE,
        IDM_SHORT_WINDOW_ALERT_SENSITIVITY_STANDARD,
        IDM_SHORT_WINDOW_ALERT_SENSITIVITY_RELAXED,
    ];
    for i in 0..ids.len() {
        for j in (i + 1)..ids.len() {
            assert_ne!(
                ids[i], ids[j],
                "duplicate pace-display menu ID at indices {i} and {j}"
            );
        }
    }
}

#[test]
fn wm_command_menu_ids_are_globally_unique() {
    let mut ids: Vec<u16> = vec![
        1,
        2,
        IDM_FREQ_1MIN,
        IDM_FREQ_5MIN,
        IDM_FREQ_15MIN,
        IDM_FREQ_1HOUR,
        IDM_START_WITH_WINDOWS,
        IDM_ALWAYS_ON_TOP,
        IDM_RESET_POSITION,
        IDM_LANG_SYSTEM,
        IDM_LANG_ENGLISH,
        IDM_LANG_DUTCH,
        IDM_LANG_SPANISH,
        IDM_LANG_FRENCH,
        IDM_LANG_GERMAN,
        IDM_LANG_JAPANESE,
        IDM_LANG_KOREAN,
        IDM_LANG_TRADITIONAL_CHINESE,
        IDM_LANG_RUSSIAN,
        IDM_LANG_PORTUGUESE_BRAZIL,
        IDM_LANG_SIMPLIFIED_CHINESE,
        IDM_MODEL_CLAUDE_CODE,
        IDM_MODEL_CODEX,
        IDM_MODEL_GITHUB_COPILOT,
        IDM_DISPLAY_BASIS_USED,
        IDM_DISPLAY_BASIS_REMAINING,
        IDM_DISPLAY_DENSITY_COMPACT,
        IDM_DISPLAY_DENSITY_STANDARD,
        IDM_DISPLAY_DENSITY_DETAILED,
        IDM_SHORT_WINDOW_VISIBILITY_ALWAYS,
        IDM_SHORT_WINDOW_VISIBILITY_WARNING_ONLY,
        IDM_SHORT_WINDOW_VISIBILITY_HIDDEN,
        IDM_SHORT_WINDOW_ALERT_SENSITIVITY_SENSITIVE,
        IDM_SHORT_WINDOW_ALERT_SENSITIVITY_STANDARD,
        IDM_SHORT_WINDOW_ALERT_SENSITIVITY_RELAXED,
        IDM_POPUP_LAYOUT_COMPACT,
        IDM_POPUP_LAYOUT_STANDARD,
        IDM_APP_THEME_RECOMMENDED_DARK,
        IDM_APP_THEME_LIGHT,
        IDM_APP_THEME_HIGH_VISIBILITY,
        IDM_GITHUB_COPILOT_PLAN_UNKNOWN,
        IDM_GITHUB_COPILOT_PLAN_PRO,
        IDM_GITHUB_COPILOT_PLAN_PRO_PLUS,
        IDM_GITHUB_COPILOT_PLAN_MAX,
        IDM_TOGGLE_WIDGET,
    ];
    ids.push(IDM_VERSION_ACTION);
    ids.push(IDM_MODEL_ANTIGRAVITY);

    for i in 0..ids.len() {
        for j in (i + 1)..ids.len() {
            assert_ne!(
                ids[i], ids[j],
                "duplicate WM_COMMAND menu ID {} at indices {i} and {j}",
                ids[i]
            );
        }
    }
}
