//! The settings file: what it holds, how it is read and how it is written.

use vstd::prelude::*;

use crate::geometry::MAX_WIDGET_WIDTH_LOGICAL;
use crate::json::{
    as_read, field, field_of, field_view, fields_view, json_text, keys_view,
    read_record, record_in, scalars_view, variant_name, writable, write_object,
    written_object_reads_back, JsonScalar, JsonValue, JsonView, ScalarView,
};
use crate::names::{
    app_theme_name_round_trips, display_basis_name_round_trips, display_density_name_round_trips,
    github_copilot_plan_name_round_trips, popup_layout_name_round_trips,
    short_window_alert_sensitivity_name_round_trips, short_window_visibility_name_round_trips,
};
use crate::polling::POLL_15_MIN;
use crate::settings::{
    AppTheme, DisplayBasis, DisplayDensity, Features, GithubCopilotPlan, PopupLayout,
    ShortWindowAlertSensitivity, ShortWindowVisibility,
};
use crate::time::text_view;

verus! {

/// The content of the settings file.
#[derive(Debug)]
pub struct SettingsFile {
    pub tray_offset: i32,
    pub taskbar_index: usize,
    pub poll_interval_ms: u32,
    pub language: Option<String>,
    pub last_update_check_unix: Option<u64>,
    pub widget_visible: bool,
    pub always_on_top: bool,
    pub widget_width_logical: Option<i32>,
    pub manual_x: Option<i32>,
    pub manual_y: Option<i32>,
    pub show_claude_code: bool,
    pub show_codex: bool,
    pub show_antigravity: bool,
    pub show_github_copilot: bool,
    pub github_copilot_plan: GithubCopilotPlan,
    pub display_basis: DisplayBasis,
    pub display_density: DisplayDensity,
    pub short_window_visibility: ShortWindowVisibility,
    pub short_window_alert_sensitivity: ShortWindowAlertSensitivity,
    pub popup_layout: PopupLayout,
    pub app_theme: AppTheme,
}

/// The content of the settings file, as a value.
pub struct SettingsView {
    pub tray_offset: i32,
    pub taskbar_index: usize,
    pub poll_interval_ms: u32,
    pub language: Option<Seq<char>>,
    pub last_update_check_unix: Option<u64>,
    pub widget_visible: bool,
    pub always_on_top: bool,
    pub widget_width_logical: Option<i32>,
    pub manual_x: Option<i32>,
    pub manual_y: Option<i32>,
    pub show_claude_code: bool,
    pub show_codex: bool,
    pub show_antigravity: bool,
    pub show_github_copilot: bool,
    pub github_copilot_plan: GithubCopilotPlan,
    pub display_basis: DisplayBasis,
    pub display_density: DisplayDensity,
    pub short_window_visibility: ShortWindowVisibility,
    pub short_window_alert_sensitivity: ShortWindowAlertSensitivity,
    pub popup_layout: PopupLayout,
    pub app_theme: AppTheme,
}

impl View for SettingsFile {
    type V = SettingsView;

    open spec fn view(&self) -> SettingsView {
        SettingsView {
            tray_offset: self.tray_offset,
            taskbar_index: self.taskbar_index,
            poll_interval_ms: self.poll_interval_ms,
            language: text_view(self.language),
            last_update_check_unix: self.last_update_check_unix,
            widget_visible: self.widget_visible,
            always_on_top: self.always_on_top,
            widget_width_logical: self.widget_width_logical,
            manual_x: self.manual_x,
            manual_y: self.manual_y,
            show_claude_code: self.show_claude_code,
            show_codex: self.show_codex,
            show_antigravity: self.show_antigravity,
            show_github_copilot: self.show_github_copilot,
            github_copilot_plan: self.github_copilot_plan,
            display_basis: self.display_basis,
            display_density: self.display_density,
            short_window_visibility: self.short_window_visibility,
            short_window_alert_sensitivity: self.short_window_alert_sensitivity,
            popup_layout: self.popup_layout,
            app_theme: self.app_theme,
        }
    }
}

/// The settings of a user who never chose anything.
pub open spec fn default_settings() -> SettingsView {
    SettingsView {
        tray_offset: 0,
        taskbar_index: 0,
        poll_interval_ms: 900_000,
        language: None,
        last_update_check_unix: None,
        widget_visible: true,
        always_on_top: false,
        widget_width_logical: None,
        manual_x: None,
        manual_y: None,
        show_claude_code: true,
        show_codex: false,
        show_antigravity: false,
        show_github_copilot: false,
        github_copilot_plan: GithubCopilotPlan::Unknown,
        display_basis: DisplayBasis::UsedPercentage,
        display_density: DisplayDensity::Standard,
        short_window_visibility: ShortWindowVisibility::WarningOnly,
        short_window_alert_sensitivity: ShortWindowAlertSensitivity::Standard,
        popup_layout: PopupLayout::Compact,
        app_theme: AppTheme::RecommendedDark,
    }
}

impl Default for SettingsFile {
    fn default() -> (r: Self)
        ensures
            r@ == default_settings(),
    {
        SettingsFile {
            tray_offset: 0,
            taskbar_index: 0,
            poll_interval_ms: POLL_15_MIN,
            language: None,
            last_update_check_unix: None,
            widget_visible: true,
            always_on_top: false,
            widget_width_logical: None,
            manual_x: None,
            manual_y: None,
            show_claude_code: true,
            show_codex: false,
            show_antigravity: false,
            show_github_copilot: false,
            github_copilot_plan: GithubCopilotPlan::Unknown,
            display_basis: DisplayBasis::UsedPercentage,
            display_density: DisplayDensity::Standard,
            short_window_visibility: ShortWindowVisibility::WarningOnly,
            short_window_alert_sensitivity: ShortWindowAlertSensitivity::Standard,
            popup_layout: PopupLayout::Compact,
            app_theme: AppTheme::RecommendedDark,
        }
    }
}

// ---- reading fields -----------------------------------------------------------

/// A signed integer field; nothing where the field holds something else.
pub open spec fn i32_in(field: Option<JsonView>, missing: i32) -> Option<i32> {
    match field {
        None => Some(missing),
        Some(JsonView::Scalar(ScalarView::Unsigned(n))) => if n <= i32::MAX {
            Some(n as i32)
        } else {
            None
        },
        Some(JsonView::Scalar(ScalarView::Negative(n))) => if i32::MIN <= n <= i32::MAX {
            Some(n as i32)
        } else {
            None
        },
        _ => None,
    }
}

fn read_i32(field: Option<&JsonValue>, missing: i32) -> (r: Option<i32>)
    ensures
        r == i32_in(field_view(field), missing),
{
    match field {
        None => Some(missing),
        Some(JsonValue::Unsigned(n)) => if *n <= i32::MAX as u64 {
            Some(*n as i32)
        } else {
            None
        },
        Some(JsonValue::Negative(n)) => if i32::MIN as i64 <= *n && *n
            <= i32::MAX as i64 {
            Some(*n as i32)
        } else {
            None
        },
        _ => None,
    }
}

/// An unsigned integer field no larger than `max`.
pub open spec fn unsigned_in(field: Option<JsonView>, missing: u64, max: int) -> Option<u64> {
    match field {
        None => Some(missing),
        Some(JsonView::Scalar(ScalarView::Unsigned(n))) => if n <= max {
            Some(n)
        } else {
            None
        },
        _ => None,
    }
}

fn read_unsigned(field: Option<&JsonValue>, missing: u64, max: u64) -> (r: Option<u64>)
    ensures
        r == unsigned_in(field_view(field), missing, max as int),
{
    match field {
        None => Some(missing),
        Some(JsonValue::Unsigned(n)) => if *n <= max {
            Some(*n)
        } else {
            None
        },
        _ => None,
    }
}

/// A boolean field.
pub open spec fn bool_in(field: Option<JsonView>, missing: bool) -> Option<bool> {
    match field {
        None => Some(missing),
        Some(JsonView::Scalar(ScalarView::Bool(b))) => Some(b),
        _ => None,
    }
}

fn read_bool(field: Option<&JsonValue>, missing: bool) -> (r: Option<bool>)
    ensures
        r == bool_in(field_view(field), missing),
{
    match field {
        None => Some(missing),
        Some(JsonValue::Bool(b)) => Some(*b),
        _ => None,
    }
}

/// Whether a field is absent or null.
pub open spec fn is_unset(field: Option<JsonView>) -> bool {
    field is None || field == Some(JsonView::Scalar(ScalarView::Null))
}

fn unset(field: Option<&JsonValue>) -> (r: bool)
    ensures
        r == is_unset(field_view(field)),
{
    match field {
        None => true,
        Some(JsonValue::Null) => true,
        _ => false,
    }
}

/// An optional signed integer field.
pub open spec fn opt_i32_in(field: Option<JsonView>) -> Option<Option<i32>> {
    if is_unset(field) {
        Some(None)
    } else {
        match i32_in(field, 0) {
            Some(n) => Some(Some(n)),
            None => None,
        }
    }
}

fn read_opt_i32(field: Option<&JsonValue>) -> (r: Option<Option<i32>>)
    ensures
        r == opt_i32_in(field_view(field)),
{
    if unset(field) {
        return Some(None);
    }
    match read_i32(field, 0) {
        Some(n) => Some(Some(n)),
        None => None,
    }
}

/// An optional unsigned integer field.
pub open spec fn opt_u64_in(field: Option<JsonView>) -> Option<Option<u64>> {
    if is_unset(field) {
        Some(None)
    } else {
        match unsigned_in(field, 0, u64::MAX as int) {
            Some(n) => Some(Some(n)),
            None => None,
        }
    }
}

fn read_opt_u64(field: Option<&JsonValue>) -> (r: Option<Option<u64>>)
    ensures
        r == opt_u64_in(field_view(field)),
{
    if unset(field) {
        return Some(None);
    }
    match read_unsigned(field, 0, u64::MAX) {
        Some(n) => Some(Some(n)),
        None => None,
    }
}

/// An optional text field.
pub open spec fn opt_text_in(field: Option<JsonView>) -> Option<Option<Seq<char>>> {
    match field {
        None => Some(None),
        Some(JsonView::Scalar(ScalarView::Null)) => Some(None),
        Some(JsonView::Scalar(ScalarView::Text(text))) => Some(Some(text)),
        _ => None,
    }
}

fn read_opt_text(field: Option<&JsonValue>) -> (r: Option<Option<String>>)
    ensures
        (match r {
            Some(text) => opt_text_in(field_view(field)) == Some(text_view(text)),
            None => opt_text_in(field_view(field)) is None,
        }),
{
    match field {
        None => Some(None),
        Some(JsonValue::Null) => Some(None),
        Some(JsonValue::Text(text)) => Some(Some(text.clone())),
        _ => None,
    }
}

// ---- reading the file -----------------------------------------------------------

/// The settings in the fields of an object. A missing field means its default; a
/// display choice that is unknown does too; any other field that holds the wrong
/// kind of value spoils the whole file. Further fields are ignored.
pub open spec fn settings_in(fields: Seq<(Seq<char>, JsonView)>) -> Option<SettingsView> {
    let tray_offset = i32_in(field_of(fields, "tray_offset"@), 0);
    let taskbar_index = unsigned_in(field_of(fields, "taskbar_index"@), 0, usize::MAX as int);
    let poll_interval_ms = unsigned_in(
        field_of(fields, "poll_interval_ms"@),
        900_000,
        u32::MAX as int,
    );
    let language = opt_text_in(field_of(fields, "language"@));
    let last_update_check_unix = opt_u64_in(field_of(fields, "last_update_check_unix"@));
    let widget_visible = bool_in(field_of(fields, "widget_visible"@), true);
    let always_on_top = bool_in(field_of(fields, "always_on_top"@), false);
    let widget_width_logical = opt_i32_in(field_of(fields, "widget_width_logical"@));
    let manual_x = opt_i32_in(field_of(fields, "manual_x"@));
    let manual_y = opt_i32_in(field_of(fields, "manual_y"@));
    let show_claude_code = bool_in(field_of(fields, "show_claude_code"@), true);
    let show_codex = bool_in(field_of(fields, "show_codex"@), false);
    let show_antigravity = bool_in(field_of(fields, "show_antigravity"@), false);
    let show_github_copilot = bool_in(field_of(fields, "show_github_copilot"@), false);
    let github_copilot_plan = GithubCopilotPlan::in_field(field_of(fields, "github_copilot_plan"@));
    let display_basis = DisplayBasis::in_field(field_of(fields, "display_basis"@));
    let display_density = DisplayDensity::in_field(field_of(fields, "display_density"@));
    let short_window_visibility = ShortWindowVisibility::in_field(
        field_of(fields, "short_window_visibility"@)
    );
    let short_window_alert_sensitivity = ShortWindowAlertSensitivity::in_field(
        field_of(fields, "short_window_alert_sensitivity"@)
    );
    let popup_layout = PopupLayout::in_field(field_of(fields, "popup_layout"@));
    let app_theme = AppTheme::in_field(field_of(fields, "app_theme"@));
    if tray_offset is None || taskbar_index is None || poll_interval_ms is None || language is None
        || last_update_check_unix is None || widget_visible is None || always_on_top is None
        || widget_width_logical is None || manual_x is None || manual_y is None
        || show_claude_code is None || show_codex is None || show_antigravity is None
        || show_github_copilot is None || github_copilot_plan is None {
        None
    } else {
        Some(
            SettingsView {
                tray_offset: tray_offset->0,
                taskbar_index: (taskbar_index->0) as usize,
                poll_interval_ms: (poll_interval_ms->0) as u32,
                language: language->0,
                last_update_check_unix: last_update_check_unix->0,
                widget_visible: widget_visible->0,
                always_on_top: always_on_top->0,
                widget_width_logical: widget_width_logical->0,
                manual_x: manual_x->0,
                manual_y: manual_y->0,
                show_claude_code: show_claude_code->0,
                show_codex: show_codex->0,
                show_antigravity: show_antigravity->0,
                show_github_copilot: show_github_copilot->0,
                github_copilot_plan: github_copilot_plan->0,
                display_basis: display_basis,
                display_density: display_density,
                short_window_visibility: short_window_visibility,
                short_window_alert_sensitivity: short_window_alert_sensitivity,
                popup_layout: popup_layout,
                app_theme: app_theme,
            },
        )
    }
}

/// Reads the settings from the fields of an object.
pub fn settings_from_fields(fields: &Vec<(String, JsonValue)>) -> (r: Option<SettingsFile>)
    ensures
        (match r {
            Some(settings) => settings_in(fields_view(fields@)) == Some(settings@),
            None => settings_in(fields_view(fields@)) is None,
        }),
{
    let tray_offset: i32 = match read_i32(field(fields, "tray_offset"), 0) {
        Some(value) => value,
        None => {
            return None;
        },
    };
    let taskbar_index: u64 = match read_unsigned(
        field(fields, "taskbar_index"),
        0,
        usize::MAX as u64,
    ) {
        Some(value) => value,
        None => {
            return None;
        },
    };
    let poll_interval_ms: u64 = match read_unsigned(
        field(fields, "poll_interval_ms"),
        POLL_15_MIN as u64,
        u32::MAX as u64,
    ) {
        Some(value) => value,
        None => {
            return None;
        },
    };
    let language: Option<String> = match read_opt_text(field(fields, "language")) {
        Some(value) => value,
        None => {
            return None;
        },
    };
    let last_update_check_unix: Option<u64> = match read_opt_u64(
        field(fields, "last_update_check_unix")
    ) {
        Some(value) => value,
        None => {
            return None;
        },
    };
    let widget_visible: bool = match read_bool(field(fields, "widget_visible"), true) {
        Some(value) => value,
        None => {
            return None;
        },
    };
    let always_on_top: bool = match read_bool(field(fields, "always_on_top"), false) {
        Some(value) => value,
        None => {
            return None;
        },
    };
    let widget_width_logical: Option<i32> = match read_opt_i32(
        field(fields, "widget_width_logical")
    ) {
        Some(value) => value,
        None => {
            return None;
        },
    };
    let manual_x: Option<i32> = match read_opt_i32(field(fields, "manual_x")) {
        Some(value) => value,
        None => {
            return None;
        },
    };
    let manual_y: Option<i32> = match read_opt_i32(field(fields, "manual_y")) {
        Some(value) => value,
        None => {
            return None;
        },
    };
    let show_claude_code: bool = match read_bool(field(fields, "show_claude_code"), true) {
        Some(value) => value,
        None => {
            return None;
        },
    };
    let show_codex: bool = match read_bool(field(fields, "show_codex"), false) {
        Some(value) => value,
        None => {
            return None;
        },
    };
    let show_antigravity: bool = match read_bool(field(fields, "show_antigravity"), false) {
        Some(value) => value,
        None => {
            return None;
        },
    };
    let show_github_copilot: bool = match read_bool(field(fields, "show_github_copilot"), false) {
        Some(value) => value,
        None => {
            return None;
        },
    };
    let github_copilot_plan: GithubCopilotPlan = match GithubCopilotPlan::from_field(
        field(fields, "github_copilot_plan")
    ) {
        Some(value) => value,
        None => {
            return None;
        },
    };
    let display_basis: DisplayBasis = DisplayBasis::from_field(field(fields, "display_basis"));
    let display_density: DisplayDensity = DisplayDensity::from_field(
        field(fields, "display_density")
    );
    let short_window_visibility: ShortWindowVisibility = ShortWindowVisibility::from_field(
        field(fields, "short_window_visibility")
    );
    let short_window_alert_sensitivity: ShortWindowAlertSensitivity =
        ShortWindowAlertSensitivity::from_field(field(fields, "short_window_alert_sensitivity"));
    let popup_layout: PopupLayout = PopupLayout::from_field(field(fields, "popup_layout"));
    let app_theme: AppTheme = AppTheme::from_field(field(fields, "app_theme"));
    Some(
        SettingsFile {
            tray_offset,
            taskbar_index: taskbar_index as usize,
            poll_interval_ms: poll_interval_ms as u32,
            language,
            last_update_check_unix,
            widget_visible,
            always_on_top,
            widget_width_logical,
            manual_x,
            manual_y,
            show_claude_code,
            show_codex,
            show_antigravity,
            show_github_copilot,
            github_copilot_plan,
            display_basis,
            display_density,
            short_window_visibility,
            short_window_alert_sensitivity,
            popup_layout,
            app_theme,
        },
    )
}

/// The keys of the settings file, in order.
#[verifier::opaque]
pub open spec fn settings_keys() -> Seq<Seq<char>> {
    seq![
        "tray_offset"@,
        "taskbar_index"@,
        "poll_interval_ms"@,
        "language"@,
        "last_update_check_unix"@,
        "widget_visible"@,
        "always_on_top"@,
        "widget_width_logical"@,
        "manual_x"@,
        "manual_y"@,
        "show_claude_code"@,
        "show_codex"@,
        "show_antigravity"@,
        "show_github_copilot"@,
        "github_copilot_plan"@,
        "display_basis"@,
        "display_density"@,
        "short_window_visibility"@,
        "short_window_alert_sensitivity"@,
        "popup_layout"@,
        "app_theme"@,
    ]
}

fn keys_of_settings() -> (r: Vec<String>)
    ensures
        keys_view(r@) == settings_keys(),
{
    let keys: Vec<String> = vec![
        "tray_offset".to_owned(),
        "taskbar_index".to_owned(),
        "poll_interval_ms".to_owned(),
        "language".to_owned(),
        "last_update_check_unix".to_owned(),
        "widget_visible".to_owned(),
        "always_on_top".to_owned(),
        "widget_width_logical".to_owned(),
        "manual_x".to_owned(),
        "manual_y".to_owned(),
        "show_claude_code".to_owned(),
        "show_codex".to_owned(),
        "show_antigravity".to_owned(),
        "show_github_copilot".to_owned(),
        "github_copilot_plan".to_owned(),
        "display_basis".to_owned(),
        "display_density".to_owned(),
        "short_window_visibility".to_owned(),
        "short_window_alert_sensitivity".to_owned(),
        "popup_layout".to_owned(),
        "app_theme".to_owned(),
    ];
    proof {
        reveal(settings_keys);
        assert(keys_view(keys@) =~= settings_keys());
    }
    keys
}

/// The settings that a text holds, if it holds any.
pub open spec fn settings_read(text: Seq<char>) -> Option<SettingsView> {
    match record_in(text, settings_keys()) {
        Some(fields) => settings_in(fields),
        None => None,
    }
}

/// The settings that a text holds, or the defaults where it holds none.
pub open spec fn settings_in_text(text: Seq<char>) -> SettingsView {
    match settings_read(text) {
        Some(settings) => settings,
        None => default_settings(),
    }
}

/// Reads the settings from the text of the settings file; there are none in a text that
/// is no record or has a field of the wrong kind. A choice that cannot be understood
/// counts as not made.
pub fn parse_settings(text: &str) -> (r: Option<SettingsFile>)
    ensures
        (match r {
            Some(settings) => settings_read(text@) == Some(settings@),
            None => settings_read(text@) is None,
        }),
{
    let keys: Vec<String> = keys_of_settings();
    match read_record(text, &keys) {
        Some(fields) => settings_from_fields(&fields),
        None => None,
    }
}

// ---- normalizing ------------------------------------------------------------------

pub open spec fn spec_normalize_saved_widget_width(width: Option<i32>) -> Option<i32> {
    match width {
        Some(w) => Some(
            if w < 1 {
                1
            } else if w > 1200 {
                1200
            } else {
                w
            },
        ),
        None => None,
    }
}

/// A saved width within what a widget can have.
#[verifier::when_used_as_spec(spec_normalize_saved_widget_width)]
pub fn normalize_saved_widget_width(width: Option<i32>) -> (r: Option<i32>)
    ensures
        r == spec_normalize_saved_widget_width(width),
{
    match width {
        Some(w) => Some(
            if w < 1 {
                1
            } else if w > MAX_WIDGET_WIDTH_LOGICAL {
                MAX_WIDGET_WIDTH_LOGICAL
            } else {
                w
            },
        ),
        None => None,
    }
}

/// A saved paid plan means that Copilot is shown.
pub open spec fn with_copilot_shown(settings: SettingsView) -> SettingsView {
    SettingsView {
        show_github_copilot: settings.show_github_copilot || !(
        settings.github_copilot_plan is Unknown),
        ..settings
    }
}

pub fn normalize_github_copilot_settings(settings: &mut SettingsFile)
    ensures
        final(settings)@ == with_copilot_shown(old(settings)@),
{
    if settings.github_copilot_plan != GithubCopilotPlan::Unknown {
        settings.show_github_copilot = true;
    }
}

/// Settings made fit for use: a sensible width, Copilot shown with a paid plan, no
/// provider that this build lacks, and at least one provider.
pub open spec fn normalized(settings: SettingsView, features: Features) -> SettingsView {
    let shown = with_copilot_shown(settings);
    let antigravity = shown.show_antigravity && features.antigravity;
    SettingsView {
        widget_width_logical: normalize_saved_widget_width(settings.widget_width_logical),
        show_antigravity: antigravity,
        show_claude_code: shown.show_claude_code || !(shown.show_codex || antigravity
            || shown.show_github_copilot),
        ..shown
    }
}

fn normalize(settings: &mut SettingsFile, features: Features)
    ensures
        final(settings)@ == normalized(old(settings)@, features),
{
    settings.widget_width_logical = normalize_saved_widget_width(settings.widget_width_logical);
    normalize_github_copilot_settings(settings);
    if !features.antigravity {
        settings.show_antigravity = false;
    }
    if !settings.show_claude_code && !settings.show_codex && !settings.show_antigravity
        && !settings.show_github_copilot {
        settings.show_claude_code = true;
    }
}

/// The settings to start with: those of the file, made fit for use, or the
/// defaults where the file cannot be read.
pub fn load_settings(content: Option<&str>, features: Features) -> (r: SettingsFile)
    ensures
        r@ == (match content {
            Some(text) => normalized(settings_in_text(text@), features),
            None => default_settings(),
        }),
{
    match content {
        Some(text) => {
            let mut settings: SettingsFile = match parse_settings(text) {
                Some(settings) => settings,
                None => SettingsFile::default(),
            };
            normalize(&mut settings, features);
            settings
        },
        None => SettingsFile::default(),
    }
}

/// After loading, whatever the file held, some provider is shown, none that the
/// build lacks, Copilot whenever a paid plan is set, and a width that fits.
pub proof fn loaded_settings_are_usable(settings: SettingsView, features: Features)
    ensures
        ({
            let s = normalized(settings, features);
            &&& s.show_claude_code || s.show_codex || s.show_antigravity || s.show_github_copilot
            &&& s.show_antigravity ==> features.antigravity
            &&& !(s.github_copilot_plan is Unknown) ==> s.show_github_copilot
            &&& (s.widget_width_logical matches Some(w) ==> 1 <= w <= MAX_WIDGET_WIDTH_LOGICAL)
        }),
{
}

/// Making settings fit for use twice changes nothing more.
pub proof fn normalizing_is_idempotent(settings: SettingsView, features: Features)
    ensures
        normalized(normalized(settings, features), features) == normalized(settings, features),
{
}

// ---- writing ------------------------------------------------------------------------

/// An integer as a JSON number.
pub open spec fn number(n: int) -> ScalarView {
    if n < 0 {
        ScalarView::Negative(n as i64)
    } else {
        ScalarView::Unsigned(n as u64)
    }
}

fn signed(n: i32) -> (r: JsonScalar)
    ensures
        r@ == number(n as int),
{
    if n < 0 {
        JsonScalar::Negative(n as i64)
    } else {
        JsonScalar::Unsigned(n as u64)
    }
}

/// The fields of slots that are filled, in order.
pub open spec fn filled(slots: Seq<(Seq<char>, Option<ScalarView>)>) -> Seq<(Seq<char>, ScalarView)>
    decreases slots.len(),
{
    if slots.len() == 0 {
        Seq::empty()
    } else {
        match slots.last().1 {
            Some(value) => filled(slots.drop_last()).push((slots.last().0, value)),
            None => filled(slots.drop_last()),
        }
    }
}

/// An optional integer.
pub open spec fn opt_number(value: Option<i32>) -> Option<ScalarView> {
    match value {
        Some(n) => Some(number(n as int)),
        None => None,
    }
}

/// An optional unsigned integer.
pub open spec fn opt_unsigned(value: Option<u64>) -> Option<ScalarView> {
    match value {
        Some(n) => Some(ScalarView::Unsigned(n)),
        None => None,
    }
}

/// An optional text.
pub open spec fn opt_text(value: Option<Seq<char>>) -> Option<ScalarView> {
    match value {
        Some(text) => Some(ScalarView::Text(text)),
        None => None,
    }
}

/// Every field of the settings file in file order; those without a value are left
/// out.
#[verifier::opaque]
pub open spec fn slots_of(s: SettingsView) -> Seq<(Seq<char>, Option<ScalarView>)> {
    seq![
        ("tray_offset"@, Some(number(s.tray_offset as int))),
        ("taskbar_index"@, Some(ScalarView::Unsigned(s.taskbar_index as u64))),
        ("poll_interval_ms"@, Some(ScalarView::Unsigned(s.poll_interval_ms as u64))),
        ("language"@, opt_text(s.language)),
        ("last_update_check_unix"@, opt_unsigned(s.last_update_check_unix)),
        ("widget_visible"@, Some(ScalarView::Bool(s.widget_visible))),
        ("always_on_top"@, Some(ScalarView::Bool(s.always_on_top))),
        ("widget_width_logical"@, opt_number(s.widget_width_logical)),
        ("manual_x"@, opt_number(s.manual_x)),
        ("manual_y"@, opt_number(s.manual_y)),
        ("show_claude_code"@, Some(ScalarView::Bool(s.show_claude_code))),
        ("show_codex"@, Some(ScalarView::Bool(s.show_codex))),
        ("show_antigravity"@, Some(ScalarView::Bool(s.show_antigravity))),
        ("show_github_copilot"@, Some(ScalarView::Bool(s.show_github_copilot))),
        ("github_copilot_plan"@, Some(ScalarView::Text(s.github_copilot_plan.name()@))),
        ("display_basis"@, Some(ScalarView::Text(s.display_basis.name()@))),
        ("display_density"@, Some(ScalarView::Text(s.display_density.name()@))),
        ("short_window_visibility"@, Some(ScalarView::Text(s.short_window_visibility.name()@))),
        (
            "short_window_alert_sensitivity"@,
            Some(ScalarView::Text(s.short_window_alert_sensitivity.name()@)),
        ),
        ("popup_layout"@, Some(ScalarView::Text(s.popup_layout.name()@))),
        ("app_theme"@, Some(ScalarView::Text(s.app_theme.name()@))),
    ]
}

/// The fields that are written for settings.
pub open spec fn written_fields(s: SettingsView) -> Seq<(Seq<char>, ScalarView)> {
    filled(slots_of(s))
}

/// The view of an optional scalar.
pub open spec fn scalar_view(value: Option<JsonScalar>) -> Option<ScalarView> {
    match value {
        Some(value) => Some(value@),
        None => None,
    }
}

fn push_field(
    fields: &mut Vec<(String, JsonScalar)>,
    slots: Ghost<Seq<(Seq<char>, Option<ScalarView>)>>,
    key: &str,
    value: Option<JsonScalar>,
) -> (r: Ghost<Seq<(Seq<char>, Option<ScalarView>)>>)
    requires
        scalars_view(old(fields)@) == filled(slots@),
    ensures
        r@ == slots@.push((key@, scalar_view(value))),
        scalars_view(final(fields)@) == filled(r@),
{
    let ghost next = slots@.push((key@, scalar_view(value)));
    assert(next.drop_last() =~= slots@);
    if let Some(value) = value {
        let ghost before = scalars_view(fields@);
        fields.push((key.to_owned(), value));
        assert(scalars_view(fields@) =~= before.push((key@, value@)));
    }
    Ghost(next)
}

fn text_scalar(text: &str) -> (r: Option<JsonScalar>)
    ensures
        scalar_view(r) == Some(ScalarView::Text(text@)),
{
    Some(JsonScalar::Text(text.to_owned()))
}

fn opt_signed(value: Option<i32>) -> (r: Option<JsonScalar>)
    ensures
        scalar_view(r) == opt_number(value),
{
    match value {
        Some(n) => Some(signed(n)),
        None => None,
    }
}

/// The fields of the settings file.
pub fn settings_fields(settings: &SettingsFile) -> (r: Vec<(String, JsonScalar)>)
    ensures
        scalars_view(r@) == written_fields(settings@),
{
    let mut fields: Vec<(String, JsonScalar)> = Vec::new();
    let slots: Ghost<Seq<(Seq<char>, Option<ScalarView>)>> = Ghost(Seq::empty());
    assert(scalars_view(fields@) =~= filled(slots@));
    let slots = push_field(&mut fields, slots, "tray_offset", Some(signed(settings.tray_offset)));
    let slots = push_field(
        &mut fields,
        slots,
        "taskbar_index",
        Some(JsonScalar::Unsigned(settings.taskbar_index as u64)),
    );
    let slots = push_field(
        &mut fields,
        slots,
        "poll_interval_ms",
        Some(JsonScalar::Unsigned(settings.poll_interval_ms as u64)),
    );
    let slots = push_field(&mut fields, slots, "language", match &settings.language {
        Some(text) => text_scalar(text.as_str()),
        None => None,
    });
    let slots = push_field(&mut fields, slots, "last_update_check_unix", match settings.last_update_check_unix {
        Some(n) => Some(JsonScalar::Unsigned(n)),
        None => None,
    });
    let slots = push_field(
        &mut fields,
        slots,
        "widget_visible",
        Some(JsonScalar::Bool(settings.widget_visible)),
    );
    let slots = push_field(
        &mut fields,
        slots,
        "always_on_top",
        Some(JsonScalar::Bool(settings.always_on_top)),
    );
    let slots = push_field(
        &mut fields,
        slots,
        "widget_width_logical",
        opt_signed(settings.widget_width_logical),
    );
    let slots = push_field(&mut fields, slots, "manual_x", opt_signed(settings.manual_x));
    let slots = push_field(&mut fields, slots, "manual_y", opt_signed(settings.manual_y));
    let slots = push_field(
        &mut fields,
        slots,
        "show_claude_code",
        Some(JsonScalar::Bool(settings.show_claude_code)),
    );
    let slots = push_field(
        &mut fields,
        slots,
        "show_codex",
        Some(JsonScalar::Bool(settings.show_codex)),
    );
    let slots = push_field(
        &mut fields,
        slots,
        "show_antigravity",
        Some(JsonScalar::Bool(settings.show_antigravity)),
    );
    let slots = push_field(
        &mut fields,
        slots,
        "show_github_copilot",
        Some(JsonScalar::Bool(settings.show_github_copilot)),
    );
    let slots = push_field(
        &mut fields,
        slots,
        "github_copilot_plan",
        text_scalar(settings.github_copilot_plan.name()),
    );
    let slots = push_field(
        &mut fields,
        slots,
        "display_basis",
        text_scalar(settings.display_basis.name()),
    );
    let slots = push_field(
        &mut fields,
        slots,
        "display_density",
        text_scalar(settings.display_density.name()),
    );
    let slots = push_field(
        &mut fields,
        slots,
        "short_window_visibility",
        text_scalar(settings.short_window_visibility.name()),
    );
    let slots = push_field(
        &mut fields,
        slots,
        "short_window_alert_sensitivity",
        text_scalar(settings.short_window_alert_sensitivity.name()),
    );
    let slots = push_field(
        &mut fields,
        slots,
        "popup_layout",
        text_scalar(settings.popup_layout.name()),
    );
    let slots = push_field(&mut fields, slots, "app_theme", text_scalar(settings.app_theme.name()));
    proof {
        reveal(slots_of);
        assert(slots@ =~= slots_of(settings@));
    }
    fields
}

/// The text of the settings file, which reads back as the settings it was made of.
pub fn settings_json(settings: &SettingsFile) -> (r: Option<String>)
    ensures
        r is Some,
        r->0@ == json_text(written_fields(settings@)),
        settings_read(r->0@) == Some(settings@),
{
    let fields: Vec<(String, JsonScalar)> = settings_fields(settings);
    let text: Option<String> = write_object(fields);
    proof {
        written_settings_read_back(settings@);
        lemma_written_keys(settings@);
        written_object_reads_back(text->0@, settings_keys(), written_fields(settings@));
    }
    text
}

/// What is written has keys of the settings file only.
proof fn lemma_written_keys(s: SettingsView)
    ensures
        forall|i: int|
            0 <= i < written_fields(s).len() ==> settings_keys().contains(
                (#[trigger] written_fields(s)[i]).0,
            ),
{
    reveal(settings_keys);
    reveal(slots_of);
    let slots = slots_of(s);
    let keys = settings_keys();
    assert forall|i: int| 0 <= i < slots.len() implies keys.contains((#[trigger] slots[i]).0) by {
        assert(keys[i] == slots[i].0);
    }
    lemma_filled_keys(slots, keys);
}

proof fn lemma_filled_keys(slots: Seq<(Seq<char>, Option<ScalarView>)>, keys: Seq<Seq<char>>)
    requires
        forall|i: int| 0 <= i < slots.len() ==> keys.contains((#[trigger] slots[i]).0),
    ensures
        forall|i: int|
            0 <= i < filled(slots).len() ==> keys.contains((#[trigger] filled(slots)[i]).0),
    decreases slots.len(),
{
    if slots.len() > 0 {
        let rest = slots.drop_last();
        assert forall|i: int| 0 <= i < rest.len() implies keys.contains((#[trigger] rest[i]).0) by {
            assert(rest[i] == slots[i]);
        }
        lemma_filled_keys(rest, keys);
        assert(keys.contains(slots[slots.len() - 1].0));
        assert forall|i: int| 0 <= i < filled(slots).len() implies keys.contains(
            (#[trigger] filled(slots)[i]).0,
        ) by {
            if i < filled(rest).len() {
                assert(filled(slots)[i] == filled(rest)[i]);
            }
        }
    }
}

/// What is written for settings reads back as the same settings.
pub proof fn written_settings_read_back(s: SettingsView)
    ensures
        writable(written_fields(s)),
        settings_in(as_read(written_fields(s))) == Some(s),
{
    assert(writable(written_fields(s))) by {
        lemma_slots_distinct(s);
        lemma_slots_negative(s);
        lemma_filled_writable(slots_of(s));
    }
    let fields = as_read(written_fields(s));
    assert(i32_in(field_of(fields, "tray_offset"@), 0) == Some(s.tray_offset)) by {
        lemma_slots(s);
        lemma_written_field(s, 0);
    }
    assert(
        unsigned_in(
            field_of(fields, "taskbar_index"@),
            0,
            usize::MAX as int,
        ) == Some(s.taskbar_index as u64)
    ) by {
        lemma_slots(s);
        lemma_written_field(s, 1);
    }
    assert(
        unsigned_in(
            field_of(fields, "poll_interval_ms"@),
            900_000,
            u32::MAX as int,
        ) == Some(s.poll_interval_ms as u64)
    ) by {
        lemma_slots(s);
        lemma_written_field(s, 2);
    }
    assert(opt_text_in(field_of(fields, "language"@)) == Some(s.language)) by {
        lemma_slots(s);
        lemma_written_field(s, 3);
    }
    assert(
        opt_u64_in(field_of(fields, "last_update_check_unix"@)) == Some(s.last_update_check_unix)
    ) by {
        lemma_slots(s);
        lemma_written_field(s, 4);
    }
    assert(bool_in(field_of(fields, "widget_visible"@), true) == Some(s.widget_visible)) by {
        lemma_slots(s);
        lemma_written_field(s, 5);
    }
    assert(bool_in(field_of(fields, "always_on_top"@), false) == Some(s.always_on_top)) by {
        lemma_slots(s);
        lemma_written_field(s, 6);
    }
    assert(
        opt_i32_in(field_of(fields, "widget_width_logical"@)) == Some(s.widget_width_logical)
    ) by {
        lemma_slots(s);
        lemma_written_field(s, 7);
    }
    assert(opt_i32_in(field_of(fields, "manual_x"@)) == Some(s.manual_x)) by {
        lemma_slots(s);
        lemma_written_field(s, 8);
    }
    assert(opt_i32_in(field_of(fields, "manual_y"@)) == Some(s.manual_y)) by {
        lemma_slots(s);
        lemma_written_field(s, 9);
    }
    assert(bool_in(field_of(fields, "show_claude_code"@), true) == Some(s.show_claude_code)) by {
        lemma_slots(s);
        lemma_written_field(s, 10);
    }
    assert(bool_in(field_of(fields, "show_codex"@), false) == Some(s.show_codex)) by {
        lemma_slots(s);
        lemma_written_field(s, 11);
    }
    assert(bool_in(field_of(fields, "show_antigravity"@), false) == Some(s.show_antigravity)) by {
        lemma_slots(s);
        lemma_written_field(s, 12);
    }
    assert(
        bool_in(field_of(fields, "show_github_copilot"@), false) == Some(s.show_github_copilot)
    ) by {
        lemma_slots(s);
        lemma_written_field(s, 13);
    }
    assert(
        GithubCopilotPlan::in_field(
            field_of(fields, "github_copilot_plan"@)
        ) == Some(s.github_copilot_plan)
    ) by {
        lemma_slots(s);
        lemma_written_field(s, 14);
        github_copilot_plan_name_round_trips(s.github_copilot_plan);
    }
    assert(DisplayBasis::in_field(field_of(fields, "display_basis"@)) == s.display_basis) by {
        lemma_slots(s);
        lemma_written_field(s, 15);
        display_basis_name_round_trips(s.display_basis);
    }
    assert(DisplayDensity::in_field(field_of(fields, "display_density"@)) == s.display_density) by {
        lemma_slots(s);
        lemma_written_field(s, 16);
        display_density_name_round_trips(s.display_density);
    }
    assert(
        ShortWindowVisibility::in_field(
            field_of(fields, "short_window_visibility"@)
        ) == s.short_window_visibility
    ) by {
        lemma_slots(s);
        lemma_written_field(s, 17);
        short_window_visibility_name_round_trips(s.short_window_visibility);
    }
    assert(
        ShortWindowAlertSensitivity::in_field(
            field_of(fields, "short_window_alert_sensitivity"@)
        ) == s.short_window_alert_sensitivity
    ) by {
        lemma_slots(s);
        lemma_written_field(s, 18);
        short_window_alert_sensitivity_name_round_trips(s.short_window_alert_sensitivity);
    }
    assert(PopupLayout::in_field(field_of(fields, "popup_layout"@)) == s.popup_layout) by {
        lemma_slots(s);
        lemma_written_field(s, 19);
        popup_layout_name_round_trips(s.popup_layout);
    }
    assert(AppTheme::in_field(field_of(fields, "app_theme"@)) == s.app_theme) by {
        lemma_slots(s);
        lemma_written_field(s, 20);
        app_theme_name_round_trips(s.app_theme);
    }
}

/// Under its key, each slot's value is found in what is written.
proof fn lemma_written_field(s: SettingsView, i: int)
    requires
        0 <= i < slots_of(s).len(),
    ensures
        field_of(as_read(written_fields(s)), slots_of(s)[i].0) == (match slots_of(s)[i].1 {
            Some(value) => Some(JsonView::Scalar(value)),
            None => None,
        }),
{
    lemma_slots_distinct(s);
    lemma_filled_field(slots_of(s), i);
}

/// The slots one by one.
proof fn lemma_slots(s: SettingsView)
    ensures
        slots_of(s).len() == 21,
        slots_of(s)[0] == ("tray_offset"@, Some(number(s.tray_offset as int))),
        slots_of(s)[1] == ("taskbar_index"@, Some(ScalarView::Unsigned(s.taskbar_index as u64))),
        slots_of(s)[2] == (
            "poll_interval_ms"@,
            Some(ScalarView::Unsigned(s.poll_interval_ms as u64)),
        ),
        slots_of(s)[3] == ("language"@, opt_text(s.language)),
        slots_of(s)[4] == ("last_update_check_unix"@, opt_unsigned(s.last_update_check_unix)),
        slots_of(s)[5] == ("widget_visible"@, Some(ScalarView::Bool(s.widget_visible))),
        slots_of(s)[6] == ("always_on_top"@, Some(ScalarView::Bool(s.always_on_top))),
        slots_of(s)[7] == ("widget_width_logical"@, opt_number(s.widget_width_logical)),
        slots_of(s)[8] == ("manual_x"@, opt_number(s.manual_x)),
        slots_of(s)[9] == ("manual_y"@, opt_number(s.manual_y)),
        slots_of(s)[10] == ("show_claude_code"@, Some(ScalarView::Bool(s.show_claude_code))),
        slots_of(s)[11] == ("show_codex"@, Some(ScalarView::Bool(s.show_codex))),
        slots_of(s)[12] == ("show_antigravity"@, Some(ScalarView::Bool(s.show_antigravity))),
        slots_of(s)[13] == ("show_github_copilot"@, Some(ScalarView::Bool(s.show_github_copilot))),
        slots_of(s)[14] == (
            "github_copilot_plan"@,
            Some(ScalarView::Text(s.github_copilot_plan.name()@)),
        ),
        slots_of(s)[15] == ("display_basis"@, Some(ScalarView::Text(s.display_basis.name()@))),
        slots_of(s)[16] == ("display_density"@, Some(ScalarView::Text(s.display_density.name()@))),
        slots_of(s)[17] == (
            "short_window_visibility"@,
            Some(ScalarView::Text(s.short_window_visibility.name()@)),
        ),
        slots_of(s)[18] == (
            "short_window_alert_sensitivity"@,
            Some(ScalarView::Text(s.short_window_alert_sensitivity.name()@)),
        ),
        slots_of(s)[19] == ("popup_layout"@, Some(ScalarView::Text(s.popup_layout.name()@))),
        slots_of(s)[20] == ("app_theme"@, Some(ScalarView::Text(s.app_theme.name()@))),
{
    reveal(slots_of);
}

proof fn lemma_slots_distinct(s: SettingsView)
    ensures
        slots_distinct(slots_of(s)),
{
    let slots = slots_of(s);
    lemma_slots(s);
    lemma_key_codes();
    assert forall|i: int| 0 <= i < slots.len() implies key_place((#[trigger] slots[i]).0) == i by {
        if i == 0 {
            assert(slots[i].0 == "tray_offset"@);
        } else if i == 1 {
            assert(slots[i].0 == "taskbar_index"@);
        } else if i == 2 {
            assert(slots[i].0 == "poll_interval_ms"@);
        } else if i == 3 {
            assert(slots[i].0 == "language"@);
        } else if i == 4 {
            assert(slots[i].0 == "last_update_check_unix"@);
        } else if i == 5 {
            assert(slots[i].0 == "widget_visible"@);
        } else if i == 6 {
            assert(slots[i].0 == "always_on_top"@);
        } else if i == 7 {
            assert(slots[i].0 == "widget_width_logical"@);
        } else if i == 8 {
            assert(slots[i].0 == "manual_x"@);
        } else if i == 9 {
            assert(slots[i].0 == "manual_y"@);
        } else if i == 10 {
            assert(slots[i].0 == "show_claude_code"@);
        } else if i == 11 {
            assert(slots[i].0 == "show_codex"@);
        } else if i == 12 {
            assert(slots[i].0 == "show_antigravity"@);
        } else if i == 13 {
            assert(slots[i].0 == "show_github_copilot"@);
        } else if i == 14 {
            assert(slots[i].0 == "github_copilot_plan"@);
        } else if i == 15 {
            assert(slots[i].0 == "display_basis"@);
        } else if i == 16 {
            assert(slots[i].0 == "display_density"@);
        } else if i == 17 {
            assert(slots[i].0 == "short_window_visibility"@);
        } else if i == 18 {
            assert(slots[i].0 == "short_window_alert_sensitivity"@);
        } else if i == 19 {
            assert(slots[i].0 == "popup_layout"@);
        } else if i == 20 {
            assert(slots[i].0 == "app_theme"@);
        }
    }
    assert forall|i: int, j: int| 0 <= i < j < slots.len() implies (#[trigger] slots[i]).0 != (
    #[trigger] slots[j]).0 by {
        assert(key_place(slots[i].0) != key_place(slots[j].0));
    }
}

proof fn lemma_slots_negative(s: SettingsView)
    ensures
        forall|i: int|
            0 <= i < slots_of(s).len() ==> (match (#[trigger] slots_of(s)[i]).1 {
                Some(ScalarView::Negative(n)) => n < 0,
                _ => true,
            }),
{
    lemma_slots(s);
}

/// A number that tells the keys of the settings file apart.
spec fn key_code(key: Seq<char>) -> int {
    key.len() * 1_000_000 + (key[0] as int) * 1_000 + (key[7] as int)
}

/// The place of a key in the settings file.
spec fn key_place(key: Seq<char>) -> int {
    let code = key_code(key);
    if code == 11116102 {
        0
    } else if code == 13116095 {
        1
    } else if code == 16112116 {
        2
    } else if code == 8108101 {
        3
    } else if code == 22108100 {
        4
    } else if code == 14119118 {
        5
    } else if code == 13097111 {
        6
    } else if code == 20119119 {
        7
    } else if code == 8109120 {
        8
    } else if code == 8109121 {
        9
    } else if code == 16115097 {
        10
    } else if code == 10115100 {
        11
    } else if code == 16115116 {
        12
    } else if code == 19115116 {
        13
    } else if code == 19103099 {
        14
    } else if code == 13100095 {
        15
    } else if code == 15100095 {
        16
    } else if code == 23115105 {
        17
    } else if code == 30115105 {
        18
    } else if code == 12112097 {
        19
    } else if code == 9097109 {
        20
    } else {
        -1
    }
}

proof fn lemma_key_codes()
    ensures
        key_code("tray_offset"@) == 11116102,
        key_code("taskbar_index"@) == 13116095,
        key_code("poll_interval_ms"@) == 16112116,
        key_code("language"@) == 8108101,
        key_code("last_update_check_unix"@) == 22108100,
        key_code("widget_visible"@) == 14119118,
        key_code("always_on_top"@) == 13097111,
        key_code("widget_width_logical"@) == 20119119,
        key_code("manual_x"@) == 8109120,
        key_code("manual_y"@) == 8109121,
        key_code("show_claude_code"@) == 16115097,
        key_code("show_codex"@) == 10115100,
        key_code("show_antigravity"@) == 16115116,
        key_code("show_github_copilot"@) == 19115116,
        key_code("github_copilot_plan"@) == 19103099,
        key_code("display_basis"@) == 13100095,
        key_code("display_density"@) == 15100095,
        key_code("short_window_visibility"@) == 23115105,
        key_code("short_window_alert_sensitivity"@) == 30115105,
        key_code("popup_layout"@) == 12112097,
        key_code("app_theme"@) == 9097109,
{
    reveal_strlit("tray_offset");
    reveal_strlit("taskbar_index");
    reveal_strlit("poll_interval_ms");
    reveal_strlit("language");
    reveal_strlit("last_update_check_unix");
    reveal_strlit("widget_visible");
    reveal_strlit("always_on_top");
    reveal_strlit("widget_width_logical");
    reveal_strlit("manual_x");
    reveal_strlit("manual_y");
    reveal_strlit("show_claude_code");
    reveal_strlit("show_codex");
    reveal_strlit("show_antigravity");
    reveal_strlit("show_github_copilot");
    reveal_strlit("github_copilot_plan");
    reveal_strlit("display_basis");
    reveal_strlit("display_density");
    reveal_strlit("short_window_visibility");
    reveal_strlit("short_window_alert_sensitivity");
    reveal_strlit("popup_layout");
    reveal_strlit("app_theme");
    assert("tray_offset"@.len() == 11 && "tray_offset"@[0] == 't' && "tray_offset"@[7] == 'f');
    assert(
        "taskbar_index"@.len() == 13 && "taskbar_index"@[0] == 't' && "taskbar_index"@[7] == '_'
    );
    assert(
        "poll_interval_ms"@.len() == 16 && "poll_interval_ms"@[0] == 'p' && "poll_interval_ms"@[7]
            == 't'
    );
    assert("language"@.len() == 8 && "language"@[0] == 'l' && "language"@[7] == 'e');
    assert(
        "last_update_check_unix"@.len() == 22 && "last_update_check_unix"@[0] == 'l'
            && "last_update_check_unix"@[7] == 'd'
    );
    assert(
        "widget_visible"@.len() == 14 && "widget_visible"@[0] == 'w' && "widget_visible"@[7] == 'v'
    );
    assert(
        "always_on_top"@.len() == 13 && "always_on_top"@[0] == 'a' && "always_on_top"@[7] == 'o'
    );
    assert(
        "widget_width_logical"@.len() == 20 && "widget_width_logical"@[0] == 'w'
            && "widget_width_logical"@[7] == 'w'
    );
    assert("manual_x"@.len() == 8 && "manual_x"@[0] == 'm' && "manual_x"@[7] == 'x');
    assert("manual_y"@.len() == 8 && "manual_y"@[0] == 'm' && "manual_y"@[7] == 'y');
    assert(
        "show_claude_code"@.len() == 16 && "show_claude_code"@[0] == 's' && "show_claude_code"@[7]
            == 'a'
    );
    assert("show_codex"@.len() == 10 && "show_codex"@[0] == 's' && "show_codex"@[7] == 'd');
    assert(
        "show_antigravity"@.len() == 16 && "show_antigravity"@[0] == 's' && "show_antigravity"@[7]
            == 't'
    );
    assert(
        "show_github_copilot"@.len() == 19 && "show_github_copilot"@[0] == 's'
            && "show_github_copilot"@[7] == 't'
    );
    assert(
        "github_copilot_plan"@.len() == 19 && "github_copilot_plan"@[0] == 'g'
            && "github_copilot_plan"@[7] == 'c'
    );
    assert(
        "display_basis"@.len() == 13 && "display_basis"@[0] == 'd' && "display_basis"@[7] == '_'
    );
    assert(
        "display_density"@.len() == 15 && "display_density"@[0] == 'd' && "display_density"@[7]
            == '_'
    );
    assert(
        "short_window_visibility"@.len() == 23 && "short_window_visibility"@[0] == 's'
            && "short_window_visibility"@[7] == 'i'
    );
    assert(
        "short_window_alert_sensitivity"@.len() == 30 && "short_window_alert_sensitivity"@[0]
            == 's' && "short_window_alert_sensitivity"@[7] == 'i'
    );
    assert("popup_layout"@.len() == 12 && "popup_layout"@[0] == 'p' && "popup_layout"@[7] == 'a');
    assert("app_theme"@.len() == 9 && "app_theme"@[0] == 'a' && "app_theme"@[7] == 'm');
}

/// No two slots share a key.
spec fn slots_distinct(slots: Seq<(Seq<char>, Option<ScalarView>)>) -> bool {
    forall|i: int, j: int|
        0 <= i < j < slots.len() ==> (#[trigger] slots[i]).0 != (#[trigger] slots[j]).0
}

proof fn lemma_field_of_push(
    fields: Seq<(Seq<char>, ScalarView)>,
    last: (Seq<char>, ScalarView),
    key: Seq<char>,
)
    ensures
        field_of(as_read(fields.push(last)), key) == (match field_of(as_read(fields), key) {
            Some(value) => Some(value),
            None => if last.0 == key {
                Some(JsonView::Scalar(last.1))
            } else {
                None
            },
        }),
    decreases fields.len(),
{
    reveal_with_fuel(field_of, 2);
    let all = fields.push(last);
    assert(as_read(all)[0] == (all[0].0, JsonView::Scalar(all[0].1)));
    assert(as_read(all).drop_first() =~= as_read(all.drop_first()));
    if fields.len() > 0 {
        assert(as_read(fields)[0] == (fields[0].0, JsonView::Scalar(fields[0].1)));
        assert(as_read(fields).drop_first() =~= as_read(fields.drop_first()));
        assert(all.drop_first() =~= fields.drop_first().push(last));
        lemma_field_of_push(fields.drop_first(), last, key);
    } else {
        assert(as_read(all).drop_first() =~= Seq::empty());
        assert(as_read(fields) =~= Seq::empty());
    }
}

/// A key that no slot has is not among the filled fields.
proof fn lemma_filled_absent(slots: Seq<(Seq<char>, Option<ScalarView>)>, key: Seq<char>)
    requires
        forall|i: int| 0 <= i < slots.len() ==> (#[trigger] slots[i]).0 != key,
    ensures
        field_of(as_read(filled(slots)), key) is None,
        forall|i: int| 0 <= i < filled(slots).len() ==> (#[trigger] filled(slots)[i]).0 != key,
    decreases slots.len(),
{
    if slots.len() > 0 {
        let rest = slots.drop_last();
        assert forall|i: int| 0 <= i < rest.len() implies (#[trigger] rest[i]).0 != key by {
            assert(rest[i] == slots[i]);
        }
        lemma_filled_absent(rest, key);
        assert(slots[slots.len() - 1].0 != key);
        if let Some(value) = slots.last().1 {
            lemma_field_of_push(filled(rest), (slots.last().0, value), key);
        }
    } else {
        assert(as_read(filled(slots)) =~= Seq::empty());
    }
}

/// Under its key, each slot's value is found.
proof fn lemma_filled_field(slots: Seq<(Seq<char>, Option<ScalarView>)>, i: int)
    requires
        slots_distinct(slots),
        0 <= i < slots.len(),
    ensures
        field_of(as_read(filled(slots)), slots[i].0) == (match slots[i].1 {
            Some(value) => Some(JsonView::Scalar(value)),
            None => None,
        }),
    decreases slots.len(),
{
    let rest = slots.drop_last();
    let key = slots[i].0;
    assert forall|a: int, b: int| 0 <= a < b < rest.len() implies (#[trigger] rest[a]).0 != (
    #[trigger] rest[b]).0 by {
        assert(rest[a] == slots[a] && rest[b] == slots[b]);
    }
    if i < rest.len() {
        lemma_filled_field(rest, i);
        assert(rest[i] == slots[i]);
        assert(slots[i].0 != slots[slots.len() - 1].0);
    } else {
        assert forall|a: int| 0 <= a < rest.len() implies (#[trigger] rest[a]).0 != key by {
            assert(rest[a] == slots[a]);
            assert(slots[a].0 != slots[i].0);
        }
        lemma_filled_absent(rest, key);
    }
    if let Some(value) = slots.last().1 {
        lemma_field_of_push(filled(rest), (slots.last().0, value), key);
    }
}

/// Slots without a negative zero or a repeated key fill an object that can be
/// written.
proof fn lemma_filled_writable(slots: Seq<(Seq<char>, Option<ScalarView>)>)
    requires
        slots_distinct(slots),
        forall|i: int|
            0 <= i < slots.len() ==> (match (#[trigger] slots[i]).1 {
                Some(ScalarView::Negative(n)) => n < 0,
                _ => true,
            }),
    ensures
        writable(filled(slots)),
    decreases slots.len(),
{
    if slots.len() > 0 {
        let rest = slots.drop_last();
        let last = slots[slots.len() - 1];
        assert forall|i: int| 0 <= i < rest.len() implies (match (#[trigger] rest[i]).1 {
            Some(ScalarView::Negative(n)) => n < 0,
            _ => true,
        }) && rest[i].0 != last.0 by {
            assert(rest[i] == slots[i]);
            assert(slots[i].0 != slots[slots.len() - 1].0);
        }
        assert forall|a: int, b: int| 0 <= a < b < rest.len() implies (#[trigger] rest[a]).0 != (
        #[trigger] rest[b]).0 by {
            assert(rest[a] == slots[a] && rest[b] == slots[b]);
        }
        lemma_filled_writable(rest);
        lemma_filled_absent(rest, last.0);
        let fields = filled(slots);
        assert forall|i: int, j: int| 0 <= i < j < fields.len() implies fields[i].0
            != fields[j].0 by {
            if let Some(value) = last.1 {
                if j == fields.len() - 1 {
                    assert(fields[i] == filled(rest)[i]);
                } else {
                    assert(fields[i] == filled(rest)[i] && fields[j] == filled(rest)[j]);
                }
            }
        }
        assert forall|i: int| 0 <= i < fields.len() implies (match #[trigger] fields[i].1 {
            ScalarView::Negative(n) => n < 0,
            _ => true,
        }) by {
            if last.1 is Some && i == fields.len() - 1 {
                assert(fields[i].1 == last.1->0);
            } else {
                assert(fields[i] == filled(rest)[i]);
            }
        }
    }
}

// ---- laws of the fields ---------------------------------------------------------------

/// Whether a field of this name holds this value.
pub open spec fn says(
    fields: Seq<(Seq<char>, JsonView)>,
    key: Seq<char>,
    value: ScalarView,
) -> bool {
    field_of(fields, key) == Some(JsonView::Scalar(value))
}

/// Whether there is no field of this name.
pub open spec fn lacks(fields: Seq<(Seq<char>, JsonView)>, key: Seq<char>) -> bool {
    field_of(fields, key) is None
}

/// What is shown and where is read from the fields of those names.
pub proof fn switches_are_read_by_their_names(fields: Seq<(Seq<char>, JsonView)>, on: bool)
    requires
        settings_in(fields) is Some,
    ensures
        ({
            let s = settings_in(fields)->0;
            let value = ScalarView::Bool(on);
            &&& says(fields, "show_claude_code"@, value) ==> s.show_claude_code == on
            &&& says(fields, "show_codex"@, value) ==> s.show_codex == on
            &&& says(fields, "show_antigravity"@, value) ==> s.show_antigravity == on
            &&& says(fields, "show_github_copilot"@, value) ==> s.show_github_copilot == on
            &&& says(fields, "widget_visible"@, value) ==> s.widget_visible == on
            &&& says(fields, "always_on_top"@, value) ==> s.always_on_top == on
        }),
{
}

/// Numbers and texts are read from the fields of their names.
pub proof fn values_are_read_by_their_names(
    fields: Seq<(Seq<char>, JsonView)>,
    n: u64,
    text: Seq<char>,
)
    requires
        settings_in(fields) is Some,
    ensures
        ({
            let s = settings_in(fields)->0;
            let value = ScalarView::Unsigned(n);
            &&& says(fields, "tray_offset"@, value) ==> s.tray_offset == n
            &&& says(fields, "taskbar_index"@, value) ==> s.taskbar_index == n
            &&& says(fields, "poll_interval_ms"@, value) ==> s.poll_interval_ms == n
            &&& says(fields, "last_update_check_unix"@, value) ==> s.last_update_check_unix
                == Some(n)
            &&& says(fields, "widget_width_logical"@, value) ==> s.widget_width_logical == Some(
                n as i32,
            )
            &&& says(fields, "manual_x"@, value) ==> s.manual_x == Some(n as i32)
            &&& says(fields, "manual_y"@, value) ==> s.manual_y == Some(n as i32)
            &&& says(fields, "language"@, ScalarView::Text(text)) ==> s.language == Some(text)
        }),
{
}

/// Choices are read from the fields of their names.
pub proof fn choices_are_read_by_their_names(
    fields: Seq<(Seq<char>, JsonView)>,
    wanted: SettingsView,
)
    requires
        settings_in(fields) is Some,
    ensures
        ({
            let s = settings_in(fields)->0;
            &&& says(fields, "display_basis"@, ScalarView::Text(wanted.display_basis.name()@))
                ==> s.display_basis == wanted.display_basis
            &&& says(fields, "display_density"@, ScalarView::Text(wanted.display_density.name()@))
                ==> s.display_density == wanted.display_density
            &&& says(
                fields,
                "short_window_visibility"@,
                ScalarView::Text(wanted.short_window_visibility.name()@),
            ) ==> s.short_window_visibility == wanted.short_window_visibility
            &&& says(
                fields,
                "short_window_alert_sensitivity"@,
                ScalarView::Text(wanted.short_window_alert_sensitivity.name()@),
            ) ==> s.short_window_alert_sensitivity == wanted.short_window_alert_sensitivity
            &&& says(fields, "popup_layout"@, ScalarView::Text(wanted.popup_layout.name()@))
                ==> s.popup_layout == wanted.popup_layout
            &&& says(fields, "app_theme"@, ScalarView::Text(wanted.app_theme.name()@))
                ==> s.app_theme == wanted.app_theme
            &&& says(
                fields,
                "github_copilot_plan"@,
                ScalarView::Text(wanted.github_copilot_plan.name()@),
            ) ==> s.github_copilot_plan == wanted.github_copilot_plan
        }),
{
    display_basis_name_round_trips(wanted.display_basis);
    display_density_name_round_trips(wanted.display_density);
    short_window_visibility_name_round_trips(wanted.short_window_visibility);
    short_window_alert_sensitivity_name_round_trips(wanted.short_window_alert_sensitivity);
    popup_layout_name_round_trips(wanted.popup_layout);
    app_theme_name_round_trips(wanted.app_theme);
    github_copilot_plan_name_round_trips(wanted.github_copilot_plan);
}

/// A setting whose field is missing is that of a user who never chose anything.
pub proof fn missing_fields_mean_the_defaults(fields: Seq<(Seq<char>, JsonView)>)
    requires
        settings_in(fields) is Some,
    ensures
        ({
            let s = settings_in(fields)->0;
            let usual = default_settings();
            &&& lacks(fields, "tray_offset"@) ==> s.tray_offset == usual.tray_offset
            &&& lacks(fields, "taskbar_index"@) ==> s.taskbar_index == usual.taskbar_index
            &&& lacks(fields, "poll_interval_ms"@) ==> s.poll_interval_ms == usual.poll_interval_ms
            &&& lacks(fields, "language"@) ==> s.language == usual.language
            &&& lacks(fields, "last_update_check_unix"@) ==> s.last_update_check_unix
                == usual.last_update_check_unix
            &&& lacks(fields, "widget_visible"@) ==> s.widget_visible == usual.widget_visible
            &&& lacks(fields, "always_on_top"@) ==> s.always_on_top == usual.always_on_top
            &&& lacks(fields, "widget_width_logical"@) ==> s.widget_width_logical
                == usual.widget_width_logical
            &&& lacks(fields, "manual_x"@) ==> s.manual_x == usual.manual_x
            &&& lacks(fields, "manual_y"@) ==> s.manual_y == usual.manual_y
            &&& lacks(fields, "show_claude_code"@) ==> s.show_claude_code == usual.show_claude_code
            &&& lacks(fields, "show_codex"@) ==> s.show_codex == usual.show_codex
            &&& lacks(fields, "show_antigravity"@) ==> s.show_antigravity == usual.show_antigravity
            &&& lacks(fields, "show_github_copilot"@) ==> s.show_github_copilot
                == usual.show_github_copilot
            &&& lacks(fields, "github_copilot_plan"@) ==> s.github_copilot_plan
                == usual.github_copilot_plan
            &&& lacks(fields, "display_basis"@) ==> s.display_basis == usual.display_basis
            &&& lacks(fields, "display_density"@) ==> s.display_density == usual.display_density
            &&& lacks(fields, "short_window_visibility"@) ==> s.short_window_visibility
                == usual.short_window_visibility
            &&& lacks(fields, "short_window_alert_sensitivity"@)
                ==> s.short_window_alert_sensitivity == usual.short_window_alert_sensitivity
            &&& lacks(fields, "popup_layout"@) ==> s.popup_layout == usual.popup_layout
            &&& lacks(fields, "app_theme"@) ==> s.app_theme == usual.app_theme
        }),
{
}

/// A switch that holds anything but a truth value spoils the file; a display choice that
/// does not hold a known name never does, and means the default.
pub proof fn only_strict_fields_spoil_the_file(fields: Seq<(Seq<char>, JsonView)>, value: JsonView)
    ensures
        ({
            let is_bool = value matches JsonView::Scalar(scalar) && scalar is Bool;
            &&& !is_bool && field_of(fields, "show_claude_code"@) == Some(value) ==> settings_in(
                fields,
            ) is None
            &&& !is_bool && field_of(fields, "show_codex"@) == Some(value) ==> settings_in(
                fields,
            ) is None
            &&& !is_bool && field_of(fields, "show_antigravity"@) == Some(value) ==> settings_in(
                fields,
            ) is None
            &&& !is_bool && field_of(fields, "show_github_copilot"@) == Some(value)
                ==> settings_in(fields) is None
            &&& !is_bool && field_of(fields, "widget_visible"@) == Some(value) ==> settings_in(
                fields,
            ) is None
            &&& !is_bool && field_of(fields, "always_on_top"@) == Some(value) ==> settings_in(
                fields,
            ) is None
        }),
        DisplayBasis::in_field(Some(value)) != default_settings().display_basis ==> variant_name(
            value,
        ) == Some(DisplayBasis::in_field(Some(value)).name()@),
        DisplayDensity::in_field(Some(value)) != default_settings().display_density
            ==> variant_name(value) == Some(DisplayDensity::in_field(Some(value)).name()@),
        PopupLayout::in_field(Some(value)) != default_settings().popup_layout ==> variant_name(
            value,
        ) == Some(PopupLayout::in_field(Some(value)).name()@),
        AppTheme::in_field(Some(value)) != default_settings().app_theme ==> variant_name(value)
            == Some(AppTheme::in_field(Some(value)).name()@),
        ShortWindowVisibility::in_field(Some(value)) != default_settings().short_window_visibility
            ==> variant_name(value) == Some(
            ShortWindowVisibility::in_field(Some(value)).name()@,
        ),
        ShortWindowAlertSensitivity::in_field(Some(value))
            != default_settings().short_window_alert_sensitivity ==> variant_name(value) == Some(
            ShortWindowAlertSensitivity::in_field(Some(value)).name()@,
        ),
{
}

/// Settings that are fit for use already stay as they are.
pub proof fn usable_settings_stay(settings: SettingsView, features: Features)
    requires
        settings.widget_width_logical matches Some(w) ==> 1 <= w <= MAX_WIDGET_WIDTH_LOGICAL,
        settings.show_antigravity ==> features.antigravity,
        !(settings.github_copilot_plan is Unknown) ==> settings.show_github_copilot,
        settings.show_claude_code || settings.show_codex || settings.show_antigravity
            || settings.show_github_copilot,
    ensures
        normalized(settings, features) == settings,
{
}

/// Making settings fit for use hides no provider that the build has, and shows one only
/// where a paid plan or an empty widget asks for it. A width out of range becomes the
/// nearest that is in it; nothing else changes.
pub proof fn normalizing_changes_only_what_it_must(settings: SettingsView, features: Features)
    ensures
        ({
            let s = normalized(settings, features);
            &&& s.show_codex == settings.show_codex
            &&& s.show_antigravity == (settings.show_antigravity && features.antigravity)
            &&& settings.show_github_copilot ==> s.show_github_copilot
            &&& s.show_github_copilot && !settings.show_github_copilot
                ==> !(settings.github_copilot_plan is Unknown)
            &&& settings.show_claude_code ==> s.show_claude_code
            &&& s.show_claude_code && !settings.show_claude_code ==> !s.show_codex
                && !s.show_antigravity && !s.show_github_copilot
            &&& s.widget_width_logical is Some <==> settings.widget_width_logical is Some
            &&& settings.widget_width_logical matches Some(w) ==> {
                &&& w < 1 ==> s.widget_width_logical == Some(1i32)
                &&& w > MAX_WIDGET_WIDTH_LOGICAL ==> s.widget_width_logical == Some(
                    MAX_WIDGET_WIDTH_LOGICAL,
                )
                &&& 1 <= w <= MAX_WIDGET_WIDTH_LOGICAL ==> s.widget_width_logical == Some(w)
            }
            &&& s == (SettingsView {
                show_claude_code: s.show_claude_code,
                show_antigravity: s.show_antigravity,
                show_github_copilot: s.show_github_copilot,
                widget_width_logical: s.widget_width_logical,
                ..settings
            })
        }),
{
}

} // verus!
