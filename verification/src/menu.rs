//! The context menu: its commands, their ids, and its layout.

use vstd::prelude::*;

use crate::models::QuotaFamilyId;
use crate::paint::is_family_shown;
use crate::polling::{POLL_15_MIN, POLL_1_HOUR, POLL_1_MIN, POLL_5_MIN};
use crate::settings::{
    AppTheme, DisplayBasis, DisplayDensity, Features, GithubCopilotPlan, LanguageId, PopupLayout,
    ShortWindowAlertSensitivity, ShortWindowVisibility,
};
use crate::state::{AppState, Preferences, UpdateStatus};
use crate::strings::{all_languages, is_all_languages, language_rank, Languages, Strings};
use crate::updates::is_busy;

verus! {

pub const IDM_REFRESH: u16 = 1;

pub const IDM_EXIT: u16 = 2;

pub const IDM_FREQ_1MIN: u16 = 10;

pub const IDM_FREQ_5MIN: u16 = 11;

pub const IDM_FREQ_15MIN: u16 = 12;

pub const IDM_FREQ_1HOUR: u16 = 13;

pub const IDM_START_WITH_WINDOWS: u16 = 20;

pub const IDM_RESET_POSITION: u16 = 30;

pub const IDM_VERSION_ACTION: u16 = 31;

pub const IDM_ALWAYS_ON_TOP: u16 = 32;

pub const IDM_LANG_SYSTEM: u16 = 40;

pub const IDM_LANG_ENGLISH: u16 = 41;

pub const IDM_LANG_DUTCH: u16 = 42;

pub const IDM_LANG_SPANISH: u16 = 43;

pub const IDM_LANG_FRENCH: u16 = 44;

pub const IDM_LANG_GERMAN: u16 = 45;

pub const IDM_LANG_JAPANESE: u16 = 46;

pub const IDM_LANG_KOREAN: u16 = 47;

pub const IDM_LANG_TRADITIONAL_CHINESE: u16 = 48;

pub const IDM_LANG_RUSSIAN: u16 = 49;

pub const IDM_LANG_PORTUGUESE_BRAZIL: u16 = 50;

pub const IDM_LANG_SIMPLIFIED_CHINESE: u16 = 51;

pub const IDM_MODEL_CLAUDE_CODE: u16 = 60;

pub const IDM_MODEL_CODEX: u16 = 61;

pub const IDM_MODEL_ANTIGRAVITY: u16 = 62;

pub const IDM_MODEL_GITHUB_COPILOT: u16 = 63;

pub const IDM_TOGGLE_WIDGET: u16 = 70;

pub const IDM_DISPLAY_BASIS_USED: u16 = 72;

pub const IDM_DISPLAY_BASIS_REMAINING: u16 = 73;

pub const IDM_DISPLAY_DENSITY_COMPACT: u16 = 80;

pub const IDM_DISPLAY_DENSITY_STANDARD: u16 = 81;

pub const IDM_DISPLAY_DENSITY_DETAILED: u16 = 82;

pub const IDM_SHORT_WINDOW_VISIBILITY_ALWAYS: u16 = 83;

pub const IDM_SHORT_WINDOW_VISIBILITY_WARNING_ONLY: u16 = 84;

pub const IDM_SHORT_WINDOW_VISIBILITY_HIDDEN: u16 = 85;

pub const IDM_SHORT_WINDOW_ALERT_SENSITIVITY_SENSITIVE: u16 = 86;

pub const IDM_SHORT_WINDOW_ALERT_SENSITIVITY_STANDARD: u16 = 87;

pub const IDM_SHORT_WINDOW_ALERT_SENSITIVITY_RELAXED: u16 = 88;

pub const IDM_POPUP_LAYOUT_COMPACT: u16 = 89;

pub const IDM_POPUP_LAYOUT_STANDARD: u16 = 90;

pub const IDM_APP_THEME_RECOMMENDED_DARK: u16 = 91;

pub const IDM_APP_THEME_LIGHT: u16 = 92;

pub const IDM_APP_THEME_HIGH_VISIBILITY: u16 = 93;

pub const IDM_GITHUB_COPILOT_PLAN_UNKNOWN: u16 = 94;

pub const IDM_GITHUB_COPILOT_PLAN_PRO: u16 = 95;

pub const IDM_GITHUB_COPILOT_PLAN_PRO_PLUS: u16 = 96;

pub const IDM_GITHUB_COPILOT_PLAN_MAX: u16 = 97;

// ---- ids and choices ----------------------------------------------------------

/// The id of a choice.
pub open spec fn display_density_id(choice: DisplayDensity) -> u16 {
    match choice {
        DisplayDensity::Compact => IDM_DISPLAY_DENSITY_COMPACT,
        DisplayDensity::Standard => IDM_DISPLAY_DENSITY_STANDARD,
        DisplayDensity::Detailed => IDM_DISPLAY_DENSITY_DETAILED,
    }
}

/// The choice with an id.
pub fn display_density_for_menu_id(id: u16) -> (r: Option<DisplayDensity>)
    ensures
        (match r {
            Some(choice) => id == display_density_id(choice),
            None => forall|choice: DisplayDensity| id != display_density_id(choice),
        }),
{
    match id {
        IDM_DISPLAY_DENSITY_COMPACT => Some(DisplayDensity::Compact),
        IDM_DISPLAY_DENSITY_STANDARD => Some(DisplayDensity::Standard),
        IDM_DISPLAY_DENSITY_DETAILED => Some(DisplayDensity::Detailed),
        _ => None,
    }
}

/// The id of a choice.
pub open spec fn short_window_visibility_id(choice: ShortWindowVisibility) -> u16 {
    match choice {
        ShortWindowVisibility::Always => IDM_SHORT_WINDOW_VISIBILITY_ALWAYS,
        ShortWindowVisibility::WarningOnly => IDM_SHORT_WINDOW_VISIBILITY_WARNING_ONLY,
        ShortWindowVisibility::Hidden => IDM_SHORT_WINDOW_VISIBILITY_HIDDEN,
    }
}

/// The choice with an id.
pub fn short_window_visibility_for_menu_id(id: u16) -> (r: Option<ShortWindowVisibility>)
    ensures
        (match r {
            Some(choice) => id == short_window_visibility_id(choice),
            None => forall|choice: ShortWindowVisibility| id != short_window_visibility_id(choice),
        }),
{
    match id {
        IDM_SHORT_WINDOW_VISIBILITY_ALWAYS => Some(ShortWindowVisibility::Always),
        IDM_SHORT_WINDOW_VISIBILITY_WARNING_ONLY => Some(ShortWindowVisibility::WarningOnly),
        IDM_SHORT_WINDOW_VISIBILITY_HIDDEN => Some(ShortWindowVisibility::Hidden),
        _ => None,
    }
}

/// The id of a choice.
pub open spec fn short_window_alert_sensitivity_id(choice: ShortWindowAlertSensitivity) -> u16 {
    match choice {
        ShortWindowAlertSensitivity::Sensitive => IDM_SHORT_WINDOW_ALERT_SENSITIVITY_SENSITIVE,
        ShortWindowAlertSensitivity::Standard => IDM_SHORT_WINDOW_ALERT_SENSITIVITY_STANDARD,
        ShortWindowAlertSensitivity::Relaxed => IDM_SHORT_WINDOW_ALERT_SENSITIVITY_RELAXED,
    }
}

/// The choice with an id.
pub fn short_window_alert_sensitivity_for_menu_id(id: u16) -> (
    r: Option<ShortWindowAlertSensitivity>
)
    ensures
        (match r {
            Some(choice) => id == short_window_alert_sensitivity_id(choice),
            None => forall|choice: ShortWindowAlertSensitivity| id != short_window_alert_sensitivity_id(choice),
        }),
{
    match id {
        IDM_SHORT_WINDOW_ALERT_SENSITIVITY_SENSITIVE => Some(
            ShortWindowAlertSensitivity::Sensitive
        ),
        IDM_SHORT_WINDOW_ALERT_SENSITIVITY_STANDARD => Some(ShortWindowAlertSensitivity::Standard),
        IDM_SHORT_WINDOW_ALERT_SENSITIVITY_RELAXED => Some(ShortWindowAlertSensitivity::Relaxed),
        _ => None,
    }
}

/// The id of a choice.
pub open spec fn popup_layout_id(choice: PopupLayout) -> u16 {
    match choice {
        PopupLayout::Compact => IDM_POPUP_LAYOUT_COMPACT,
        PopupLayout::Standard => IDM_POPUP_LAYOUT_STANDARD,
    }
}

/// The choice with an id.
pub fn popup_layout_for_menu_id(id: u16) -> (r: Option<PopupLayout>)
    ensures
        (match r {
            Some(choice) => id == popup_layout_id(choice),
            None => forall|choice: PopupLayout| id != popup_layout_id(choice),
        }),
{
    match id {
        IDM_POPUP_LAYOUT_COMPACT => Some(PopupLayout::Compact),
        IDM_POPUP_LAYOUT_STANDARD => Some(PopupLayout::Standard),
        _ => None,
    }
}

/// The id of a choice.
pub open spec fn app_theme_id(choice: AppTheme) -> u16 {
    match choice {
        AppTheme::RecommendedDark => IDM_APP_THEME_RECOMMENDED_DARK,
        AppTheme::Light => IDM_APP_THEME_LIGHT,
        AppTheme::HighVisibility => IDM_APP_THEME_HIGH_VISIBILITY,
    }
}

/// The choice with an id.
pub fn app_theme_for_menu_id(id: u16) -> (r: Option<AppTheme>)
    ensures
        (match r {
            Some(choice) => id == app_theme_id(choice),
            None => forall|choice: AppTheme| id != app_theme_id(choice),
        }),
{
    match id {
        IDM_APP_THEME_RECOMMENDED_DARK => Some(AppTheme::RecommendedDark),
        IDM_APP_THEME_LIGHT => Some(AppTheme::Light),
        IDM_APP_THEME_HIGH_VISIBILITY => Some(AppTheme::HighVisibility),
        _ => None,
    }
}

/// The id of a choice.
pub open spec fn github_copilot_plan_id(choice: GithubCopilotPlan) -> u16 {
    match choice {
        GithubCopilotPlan::Unknown => IDM_GITHUB_COPILOT_PLAN_UNKNOWN,
        GithubCopilotPlan::Pro => IDM_GITHUB_COPILOT_PLAN_PRO,
        GithubCopilotPlan::ProPlus => IDM_GITHUB_COPILOT_PLAN_PRO_PLUS,
        GithubCopilotPlan::Max => IDM_GITHUB_COPILOT_PLAN_MAX,
    }
}

/// The choice with an id.
pub fn github_copilot_plan_for_menu_id(id: u16) -> (r: Option<GithubCopilotPlan>)
    ensures
        (match r {
            Some(choice) => id == github_copilot_plan_id(choice),
            None => forall|choice: GithubCopilotPlan| id != github_copilot_plan_id(choice),
        }),
{
    match id {
        IDM_GITHUB_COPILOT_PLAN_UNKNOWN => Some(GithubCopilotPlan::Unknown),
        IDM_GITHUB_COPILOT_PLAN_PRO => Some(GithubCopilotPlan::Pro),
        IDM_GITHUB_COPILOT_PLAN_PRO_PLUS => Some(GithubCopilotPlan::ProPlus),
        IDM_GITHUB_COPILOT_PLAN_MAX => Some(GithubCopilotPlan::Max),
        _ => None,
    }
}

/// How often the providers are polled.
#[derive(Clone, Copy, Debug, PartialEq, Eq, Structural)]
pub enum PollFrequency {
    OneMinute,
    FiveMinutes,
    FifteenMinutes,
    OneHour,
}

impl PollFrequency {
    pub open spec fn spec_interval_ms(self) -> u32 {
        match self {
            PollFrequency::OneMinute => POLL_1_MIN,
            PollFrequency::FiveMinutes => POLL_5_MIN,
            PollFrequency::FifteenMinutes => POLL_15_MIN,
            PollFrequency::OneHour => POLL_1_HOUR,
        }
    }

    /// The interval in milliseconds.
    #[verifier::when_used_as_spec(spec_interval_ms)]
    pub fn interval_ms(self) -> (r: u32)
        ensures
            r == self.spec_interval_ms(),
    {
        match self {
            PollFrequency::OneMinute => POLL_1_MIN,
            PollFrequency::FiveMinutes => POLL_5_MIN,
            PollFrequency::FifteenMinutes => POLL_15_MIN,
            PollFrequency::OneHour => POLL_1_HOUR,
        }
    }
}

// ---- commands ---------------------------------------------------------------------

/// What a menu entry asks for.
#[derive(Clone, Copy, Debug, PartialEq, Eq, Structural)]
pub enum Command {
    Refresh,
    Exit,
    ResetPosition,
    ToggleStartup,
    ToggleAlwaysOnTop,
    ToggleWidget,
    VersionAction,
    SetInterval(PollFrequency),
    ToggleProvider(QuotaFamilyId),
    SetPlan(GithubCopilotPlan),
    SetLanguage(Option<LanguageId>),
    SetBasis(DisplayBasis),
    SetDensity(DisplayDensity),
    SetLayout(PopupLayout),
    SetTheme(AppTheme),
    SetVisibility(ShortWindowVisibility),
    SetSensitivity(ShortWindowAlertSensitivity),
}

pub open spec fn language_id(language: Option<LanguageId>) -> u16 {
    match language {
        None => IDM_LANG_SYSTEM,
        Some(LanguageId::English) => IDM_LANG_ENGLISH,
        Some(LanguageId::Dutch) => IDM_LANG_DUTCH,
        Some(LanguageId::Spanish) => IDM_LANG_SPANISH,
        Some(LanguageId::French) => IDM_LANG_FRENCH,
        Some(LanguageId::German) => IDM_LANG_GERMAN,
        Some(LanguageId::Japanese) => IDM_LANG_JAPANESE,
        Some(LanguageId::Korean) => IDM_LANG_KOREAN,
        Some(LanguageId::TraditionalChinese) => IDM_LANG_TRADITIONAL_CHINESE,
        Some(LanguageId::SimplifiedChinese) => IDM_LANG_SIMPLIFIED_CHINESE,
        Some(LanguageId::Russian) => IDM_LANG_RUSSIAN,
        Some(LanguageId::PortugueseBrazil) => IDM_LANG_PORTUGUESE_BRAZIL,
    }
}

/// The id of a language entry.
fn id_of_language(language: Option<LanguageId>) -> (r: u16)
    ensures
        r == language_id(language),
{
    match language {
        None => IDM_LANG_SYSTEM,
        Some(LanguageId::English) => IDM_LANG_ENGLISH,
        Some(LanguageId::Dutch) => IDM_LANG_DUTCH,
        Some(LanguageId::Spanish) => IDM_LANG_SPANISH,
        Some(LanguageId::French) => IDM_LANG_FRENCH,
        Some(LanguageId::German) => IDM_LANG_GERMAN,
        Some(LanguageId::Japanese) => IDM_LANG_JAPANESE,
        Some(LanguageId::Korean) => IDM_LANG_KOREAN,
        Some(LanguageId::TraditionalChinese) => IDM_LANG_TRADITIONAL_CHINESE,
        Some(LanguageId::SimplifiedChinese) => IDM_LANG_SIMPLIFIED_CHINESE,
        Some(LanguageId::Russian) => IDM_LANG_RUSSIAN,
        Some(LanguageId::PortugueseBrazil) => IDM_LANG_PORTUGUESE_BRAZIL,
    }
}

/// The id of a command.
pub open spec fn id_of(command: Command) -> u16 {
    match command {
        Command::Refresh => IDM_REFRESH,
        Command::Exit => IDM_EXIT,
        Command::ResetPosition => IDM_RESET_POSITION,
        Command::ToggleStartup => IDM_START_WITH_WINDOWS,
        Command::ToggleAlwaysOnTop => IDM_ALWAYS_ON_TOP,
        Command::ToggleWidget => IDM_TOGGLE_WIDGET,
        Command::VersionAction => IDM_VERSION_ACTION,
        Command::SetInterval(PollFrequency::OneMinute) => IDM_FREQ_1MIN,
        Command::SetInterval(PollFrequency::FiveMinutes) => IDM_FREQ_5MIN,
        Command::SetInterval(PollFrequency::FifteenMinutes) => IDM_FREQ_15MIN,
        Command::SetInterval(PollFrequency::OneHour) => IDM_FREQ_1HOUR,
        Command::ToggleProvider(QuotaFamilyId::Claude) => IDM_MODEL_CLAUDE_CODE,
        Command::ToggleProvider(QuotaFamilyId::Codex) => IDM_MODEL_CODEX,
        Command::ToggleProvider(QuotaFamilyId::Antigravity) => IDM_MODEL_ANTIGRAVITY,
        Command::ToggleProvider(QuotaFamilyId::GithubCopilot) => IDM_MODEL_GITHUB_COPILOT,
        Command::SetPlan(plan) => github_copilot_plan_id(plan),
        Command::SetLanguage(language) => language_id(language),
        Command::SetBasis(DisplayBasis::UsedPercentage) => IDM_DISPLAY_BASIS_USED,
        Command::SetBasis(DisplayBasis::RemainingAllowance) => IDM_DISPLAY_BASIS_REMAINING,
        Command::SetDensity(density) => display_density_id(density),
        Command::SetLayout(layout) => popup_layout_id(layout),
        Command::SetTheme(theme) => app_theme_id(theme),
        Command::SetVisibility(visibility) => short_window_visibility_id(visibility),
        Command::SetSensitivity(sensitivity) => short_window_alert_sensitivity_id(sensitivity),
    }
}

/// The command with an id.
spec fn command_with_id(id: u16) -> Option<Command> {
    match id {
        IDM_REFRESH => Some(Command::Refresh),
        IDM_EXIT => Some(Command::Exit),
        IDM_RESET_POSITION => Some(Command::ResetPosition),
        IDM_START_WITH_WINDOWS => Some(Command::ToggleStartup),
        IDM_ALWAYS_ON_TOP => Some(Command::ToggleAlwaysOnTop),
        IDM_TOGGLE_WIDGET => Some(Command::ToggleWidget),
        IDM_VERSION_ACTION => Some(Command::VersionAction),
        IDM_FREQ_1MIN => Some(Command::SetInterval(PollFrequency::OneMinute)),
        IDM_FREQ_5MIN => Some(Command::SetInterval(PollFrequency::FiveMinutes)),
        IDM_FREQ_15MIN => Some(Command::SetInterval(PollFrequency::FifteenMinutes)),
        IDM_FREQ_1HOUR => Some(Command::SetInterval(PollFrequency::OneHour)),
        IDM_MODEL_CLAUDE_CODE => Some(Command::ToggleProvider(QuotaFamilyId::Claude)),
        IDM_MODEL_CODEX => Some(Command::ToggleProvider(QuotaFamilyId::Codex)),
        IDM_MODEL_ANTIGRAVITY => Some(Command::ToggleProvider(QuotaFamilyId::Antigravity)),
        IDM_MODEL_GITHUB_COPILOT => Some(Command::ToggleProvider(QuotaFamilyId::GithubCopilot)),
        IDM_LANG_SYSTEM => Some(Command::SetLanguage(None)),
        IDM_DISPLAY_BASIS_USED => Some(Command::SetBasis(DisplayBasis::UsedPercentage)),
        IDM_DISPLAY_BASIS_REMAINING => Some(Command::SetBasis(DisplayBasis::RemainingAllowance)),
        IDM_LANG_ENGLISH => Some(Command::SetLanguage(Some(LanguageId::English))),
        IDM_LANG_DUTCH => Some(Command::SetLanguage(Some(LanguageId::Dutch))),
        IDM_LANG_SPANISH => Some(Command::SetLanguage(Some(LanguageId::Spanish))),
        IDM_LANG_FRENCH => Some(Command::SetLanguage(Some(LanguageId::French))),
        IDM_LANG_GERMAN => Some(Command::SetLanguage(Some(LanguageId::German))),
        IDM_LANG_JAPANESE => Some(Command::SetLanguage(Some(LanguageId::Japanese))),
        IDM_LANG_KOREAN => Some(Command::SetLanguage(Some(LanguageId::Korean))),
        IDM_LANG_TRADITIONAL_CHINESE => Some(
            Command::SetLanguage(Some(LanguageId::TraditionalChinese))
        ),
        IDM_LANG_SIMPLIFIED_CHINESE => Some(
            Command::SetLanguage(Some(LanguageId::SimplifiedChinese))
        ),
        IDM_LANG_RUSSIAN => Some(Command::SetLanguage(Some(LanguageId::Russian))),
        IDM_LANG_PORTUGUESE_BRAZIL => Some(
            Command::SetLanguage(Some(LanguageId::PortugueseBrazil))
        ),
        IDM_DISPLAY_DENSITY_COMPACT => Some(Command::SetDensity(DisplayDensity::Compact)),
        IDM_DISPLAY_DENSITY_STANDARD => Some(Command::SetDensity(DisplayDensity::Standard)),
        IDM_DISPLAY_DENSITY_DETAILED => Some(Command::SetDensity(DisplayDensity::Detailed)),
        IDM_SHORT_WINDOW_VISIBILITY_ALWAYS => Some(
            Command::SetVisibility(ShortWindowVisibility::Always)
        ),
        IDM_SHORT_WINDOW_VISIBILITY_WARNING_ONLY => Some(
            Command::SetVisibility(ShortWindowVisibility::WarningOnly)
        ),
        IDM_SHORT_WINDOW_VISIBILITY_HIDDEN => Some(
            Command::SetVisibility(ShortWindowVisibility::Hidden)
        ),
        IDM_SHORT_WINDOW_ALERT_SENSITIVITY_SENSITIVE => Some(
            Command::SetSensitivity(ShortWindowAlertSensitivity::Sensitive)
        ),
        IDM_SHORT_WINDOW_ALERT_SENSITIVITY_STANDARD => Some(
            Command::SetSensitivity(ShortWindowAlertSensitivity::Standard)
        ),
        IDM_SHORT_WINDOW_ALERT_SENSITIVITY_RELAXED => Some(
            Command::SetSensitivity(ShortWindowAlertSensitivity::Relaxed)
        ),
        IDM_POPUP_LAYOUT_COMPACT => Some(Command::SetLayout(PopupLayout::Compact)),
        IDM_POPUP_LAYOUT_STANDARD => Some(Command::SetLayout(PopupLayout::Standard)),
        IDM_APP_THEME_RECOMMENDED_DARK => Some(Command::SetTheme(AppTheme::RecommendedDark)),
        IDM_APP_THEME_LIGHT => Some(Command::SetTheme(AppTheme::Light)),
        IDM_APP_THEME_HIGH_VISIBILITY => Some(Command::SetTheme(AppTheme::HighVisibility)),
        IDM_GITHUB_COPILOT_PLAN_UNKNOWN => Some(Command::SetPlan(GithubCopilotPlan::Unknown)),
        IDM_GITHUB_COPILOT_PLAN_PRO => Some(Command::SetPlan(GithubCopilotPlan::Pro)),
        IDM_GITHUB_COPILOT_PLAN_PRO_PLUS => Some(Command::SetPlan(GithubCopilotPlan::ProPlus)),
        IDM_GITHUB_COPILOT_PLAN_MAX => Some(Command::SetPlan(GithubCopilotPlan::Max)),
        _ => None,
    }
}

/// Whether a build knows a command.
pub open spec fn is_offered(command: Command, features: Features) -> bool {
    match command {
        Command::VersionAction => features.self_update,
        Command::ToggleProvider(QuotaFamilyId::Antigravity) => features.antigravity,
        _ => true,
    }
}

/// The command with an id, in a build with these features.
pub fn command_for_id(id: u16, features: Features) -> (r: Option<Command>)
    ensures
        (match r {
            Some(command) => id == id_of(command) && is_offered(command, features),
            None => forall|command: Command|
                is_offered(command, features) ==> id != #[trigger] id_of(command),
        }),
{
    match id {
        IDM_REFRESH => Some(Command::Refresh),
        IDM_EXIT => Some(Command::Exit),
        IDM_RESET_POSITION => Some(Command::ResetPosition),
        IDM_START_WITH_WINDOWS => Some(Command::ToggleStartup),
        IDM_ALWAYS_ON_TOP => Some(Command::ToggleAlwaysOnTop),
        IDM_TOGGLE_WIDGET => Some(Command::ToggleWidget),
        IDM_VERSION_ACTION => if features.self_update {
            Some(Command::VersionAction)
        } else {
            None
        },
        IDM_FREQ_1MIN => Some(Command::SetInterval(PollFrequency::OneMinute)),
        IDM_FREQ_5MIN => Some(Command::SetInterval(PollFrequency::FiveMinutes)),
        IDM_FREQ_15MIN => Some(Command::SetInterval(PollFrequency::FifteenMinutes)),
        IDM_FREQ_1HOUR => Some(Command::SetInterval(PollFrequency::OneHour)),
        IDM_MODEL_CLAUDE_CODE => Some(Command::ToggleProvider(QuotaFamilyId::Claude)),
        IDM_MODEL_CODEX => Some(Command::ToggleProvider(QuotaFamilyId::Codex)),
        IDM_MODEL_ANTIGRAVITY => if features.antigravity {
            Some(Command::ToggleProvider(QuotaFamilyId::Antigravity))
        } else {
            None
        },
        IDM_MODEL_GITHUB_COPILOT => Some(Command::ToggleProvider(QuotaFamilyId::GithubCopilot)),
        IDM_LANG_SYSTEM => Some(Command::SetLanguage(None)),
        IDM_LANG_ENGLISH => Some(Command::SetLanguage(Some(LanguageId::English))),
        IDM_LANG_DUTCH => Some(Command::SetLanguage(Some(LanguageId::Dutch))),
        IDM_LANG_SPANISH => Some(Command::SetLanguage(Some(LanguageId::Spanish))),
        IDM_LANG_FRENCH => Some(Command::SetLanguage(Some(LanguageId::French))),
        IDM_LANG_GERMAN => Some(Command::SetLanguage(Some(LanguageId::German))),
        IDM_LANG_JAPANESE => Some(Command::SetLanguage(Some(LanguageId::Japanese))),
        IDM_LANG_KOREAN => Some(Command::SetLanguage(Some(LanguageId::Korean))),
        IDM_LANG_TRADITIONAL_CHINESE => Some(
            Command::SetLanguage(Some(LanguageId::TraditionalChinese))
        ),
        IDM_LANG_SIMPLIFIED_CHINESE => Some(
            Command::SetLanguage(Some(LanguageId::SimplifiedChinese))
        ),
        IDM_LANG_RUSSIAN => Some(Command::SetLanguage(Some(LanguageId::Russian))),
        IDM_LANG_PORTUGUESE_BRAZIL => Some(
            Command::SetLanguage(Some(LanguageId::PortugueseBrazil))
        ),
        IDM_DISPLAY_BASIS_USED => Some(Command::SetBasis(DisplayBasis::UsedPercentage)),
        IDM_DISPLAY_BASIS_REMAINING => Some(Command::SetBasis(DisplayBasis::RemainingAllowance)),
        IDM_DISPLAY_DENSITY_COMPACT => Some(Command::SetDensity(DisplayDensity::Compact)),
        IDM_DISPLAY_DENSITY_STANDARD => Some(Command::SetDensity(DisplayDensity::Standard)),
        IDM_DISPLAY_DENSITY_DETAILED => Some(Command::SetDensity(DisplayDensity::Detailed)),
        IDM_SHORT_WINDOW_VISIBILITY_ALWAYS => Some(
            Command::SetVisibility(ShortWindowVisibility::Always)
        ),
        IDM_SHORT_WINDOW_VISIBILITY_WARNING_ONLY => Some(
            Command::SetVisibility(ShortWindowVisibility::WarningOnly)
        ),
        IDM_SHORT_WINDOW_VISIBILITY_HIDDEN => Some(
            Command::SetVisibility(ShortWindowVisibility::Hidden)
        ),
        IDM_SHORT_WINDOW_ALERT_SENSITIVITY_SENSITIVE => Some(
            Command::SetSensitivity(ShortWindowAlertSensitivity::Sensitive)
        ),
        IDM_SHORT_WINDOW_ALERT_SENSITIVITY_STANDARD => Some(
            Command::SetSensitivity(ShortWindowAlertSensitivity::Standard)
        ),
        IDM_SHORT_WINDOW_ALERT_SENSITIVITY_RELAXED => Some(
            Command::SetSensitivity(ShortWindowAlertSensitivity::Relaxed)
        ),
        IDM_POPUP_LAYOUT_COMPACT => Some(Command::SetLayout(PopupLayout::Compact)),
        IDM_POPUP_LAYOUT_STANDARD => Some(Command::SetLayout(PopupLayout::Standard)),
        IDM_APP_THEME_RECOMMENDED_DARK => Some(Command::SetTheme(AppTheme::RecommendedDark)),
        IDM_APP_THEME_LIGHT => Some(Command::SetTheme(AppTheme::Light)),
        IDM_APP_THEME_HIGH_VISIBILITY => Some(Command::SetTheme(AppTheme::HighVisibility)),
        IDM_GITHUB_COPILOT_PLAN_UNKNOWN => Some(Command::SetPlan(GithubCopilotPlan::Unknown)),
        IDM_GITHUB_COPILOT_PLAN_PRO => Some(Command::SetPlan(GithubCopilotPlan::Pro)),
        IDM_GITHUB_COPILOT_PLAN_PRO_PLUS => Some(Command::SetPlan(GithubCopilotPlan::ProPlus)),
        IDM_GITHUB_COPILOT_PLAN_MAX => Some(Command::SetPlan(GithubCopilotPlan::Max)),
        _ => None,
    }
}

/// No two commands share an id.
pub proof fn commands_have_their_own_ids(a: Command, b: Command)
    requires
        id_of(a) == id_of(b),
    ensures
        a == b,
{
    id_names_its_command(a);
    id_names_its_command(b);
}

#[verifier::rlimit(60)]
proof fn id_names_its_command(command: Command)
    ensures
        command_with_id(id_of(command)) == Some(command),
{
    match command {
        Command::Refresh => {},
        Command::Exit => {},
        Command::ResetPosition => {},
        Command::ToggleStartup => {},
        Command::ToggleAlwaysOnTop => {},
        Command::ToggleWidget => {},
        Command::VersionAction => {},
        Command::SetInterval(frequency) => {
            assert(command_with_id(id_of(command)) == Some(command));
        },
        Command::ToggleProvider(family) => {
            assert(command_with_id(id_of(command)) == Some(command));
        },
        Command::SetPlan(plan) => { assert(command_with_id(id_of(command)) == Some(command)); },
        Command::SetLanguage(language) => {
            assert(command_with_id(id_of(command)) == Some(command));
        },
        Command::SetBasis(basis) => { assert(command_with_id(id_of(command)) == Some(command)); },
        Command::SetDensity(density) => {
            assert(command_with_id(id_of(command)) == Some(command));
        },
        Command::SetLayout(layout) => { assert(command_with_id(id_of(command)) == Some(command)); },
        Command::SetTheme(theme) => { assert(command_with_id(id_of(command)) == Some(command)); },
        Command::SetVisibility(visibility) => {
            assert(command_with_id(id_of(command)) == Some(command));
        },
        Command::SetSensitivity(sensitivity) => {
            assert(command_with_id(id_of(command)) == Some(command));
        },
    }
}

/// The command id in the parameter of a command message: its low sixteen bits.
pub fn command_id(wparam: u64) -> (r: u16)
    ensures
        r == wparam % 0x1_0000,
{
    (wparam % 0x1_0000) as u16
}

// ---- layout -----------------------------------------------------------------------

/// One step of building the menu. Submenus nest.
#[derive(Clone, Copy, Debug, PartialEq, Eq)]
pub enum MenuStep {
    Item { id: u16, label: &'static str, checked: bool },
    /// An entry that cannot be chosen.
    Placeholder { label: &'static str },
    /// The entry of the version; its label depends on the update status.
    Version { grayed: bool },
    Separator,
    Open { label: &'static str },
    /// Marks exactly one of the ids from `first` to `last` in the open submenu.
    Radio { first: u16, last: u16, selected: u16 },
    Close,
}

/// What the menu shows.
#[derive(Clone, Copy, Debug, PartialEq, Eq)]
pub struct MenuInput {
    pub prefs: Preferences,
    pub update_busy: bool,
    pub startup_enabled: bool,
    pub features: Features,
}

/// The preferences that a menu without a state shows.
pub open spec fn spec_default_preferences() -> Preferences {
    Preferences {
        language_override: None,
        language: LanguageId::English,
        display_basis: DisplayBasis::UsedPercentage,
        display_density: DisplayDensity::Standard,
        short_window_visibility: ShortWindowVisibility::WarningOnly,
        short_window_alert_sensitivity: ShortWindowAlertSensitivity::Standard,
        popup_layout: PopupLayout::Compact,
        app_theme: AppTheme::RecommendedDark,
        show_claude_code: true,
        show_codex: false,
        show_antigravity: false,
        show_github_copilot: false,
        github_copilot_plan: GithubCopilotPlan::Unknown,
        poll_interval_ms: POLL_15_MIN,
        last_update_check_unix: None,
        taskbar_index: 0,
        tray_offset: 0,
        manual_position: None,
        widget_width_logical: None,
        widget_visible: true,
        always_on_top: false,
    }
}

#[verifier::when_used_as_spec(spec_default_preferences)]
pub fn default_preferences() -> (r: Preferences)
    ensures
        r == spec_default_preferences(),
{
    Preferences {
        language_override: None,
        language: LanguageId::English,
        display_basis: DisplayBasis::UsedPercentage,
        display_density: DisplayDensity::Standard,
        short_window_visibility: ShortWindowVisibility::WarningOnly,
        short_window_alert_sensitivity: ShortWindowAlertSensitivity::Standard,
        popup_layout: PopupLayout::Compact,
        app_theme: AppTheme::RecommendedDark,
        show_claude_code: true,
        show_codex: false,
        show_antigravity: false,
        show_github_copilot: false,
        github_copilot_plan: GithubCopilotPlan::Unknown,
        poll_interval_ms: POLL_15_MIN,
        last_update_check_unix: None,
        taskbar_index: 0,
        tray_offset: 0,
        manual_position: None,
        widget_width_logical: None,
        widget_visible: true,
        always_on_top: false,
    }
}

pub open spec fn input_of(
    state: Option<AppState>,
    startup_enabled: bool,
    features: Features,
) -> MenuInput {
    match state {
        Some(s) => MenuInput {
            prefs: s.prefs,
            update_busy: is_busy(s.update_status),
            startup_enabled,
            features,
        },
        None => MenuInput {
            prefs: default_preferences(),
            update_busy: false,
            startup_enabled,
            features,
        },
    }
}

/// What the menu shows for a state.
pub fn menu_input(state: &Option<AppState>, startup_enabled: bool, features: Features) -> (r:
    MenuInput)
    ensures
        r == input_of(*state, startup_enabled, features),
{
    match state {
        Some(s) => MenuInput {
            prefs: s.prefs,
            update_busy: matches!(s.update_status, UpdateStatus::Checking | UpdateStatus::Applying),
            startup_enabled,
            features,
        },
        None => MenuInput {
            prefs: default_preferences(),
            update_busy: false,
            startup_enabled,
            features,
        },
    }
}

/// An entry.
pub open spec fn item(id: u16, label: &'static str, checked: bool) -> MenuStep {
    MenuStep::Item { id, label, checked }
}

fn entry(id: u16, label: &'static str, checked: bool) -> (r: MenuStep)
    ensures
        r == item(id, label, checked),
{
    MenuStep::Item { id, label, checked }
}

/// A submenu around some steps.
pub open spec fn submenu(label: &'static str, inner: Seq<MenuStep>) -> Seq<MenuStep> {
    seq![MenuStep::Open { label }] + inner + seq![MenuStep::Close]
}

/// The id that the frequency menu marks; fifteen minutes for any other interval.
pub open spec fn selected_frequency(interval: u32) -> u16 {
    if interval == POLL_1_MIN {
        IDM_FREQ_1MIN
    } else if interval == POLL_5_MIN {
        IDM_FREQ_5MIN
    } else if interval == POLL_1_HOUR {
        IDM_FREQ_1HOUR
    } else {
        IDM_FREQ_15MIN
    }
}

/// Polling frequencies.
#[verifier::opaque]
pub open spec fn frequency_entries(interval: u32, strings: Strings) -> Seq<MenuStep> {
    seq![
        item(IDM_FREQ_1MIN, strings.one_minute, interval == POLL_1_MIN),
        item(IDM_FREQ_5MIN, strings.five_minutes, interval == POLL_5_MIN),
        item(IDM_FREQ_15MIN, strings.fifteen_minutes, interval == POLL_15_MIN),
        item(IDM_FREQ_1HOUR, strings.one_hour, interval == POLL_1_HOUR),
        MenuStep::Radio {
            first: IDM_FREQ_1MIN,
            last: IDM_FREQ_1HOUR,
            selected: selected_frequency(interval),
        },
    ]
}

fn push_frequency(steps: &mut Vec<MenuStep>, interval: u32, strings: Strings)
    ensures
        final(steps)@ == old(steps)@ + frequency_entries(interval, strings),
{
    steps.push(entry(IDM_FREQ_1MIN, strings.one_minute, interval == POLL_1_MIN));
    steps.push(entry(IDM_FREQ_5MIN, strings.five_minutes, interval == POLL_5_MIN));
    steps.push(entry(IDM_FREQ_15MIN, strings.fifteen_minutes, interval == POLL_15_MIN));
    steps.push(entry(IDM_FREQ_1HOUR, strings.one_hour, interval == POLL_1_HOUR));
    steps.push(
        MenuStep::Radio {
            first: IDM_FREQ_1MIN,
            last: IDM_FREQ_1HOUR,
            selected: if interval == POLL_1_MIN {
                IDM_FREQ_1MIN
            } else if interval == POLL_5_MIN {
                IDM_FREQ_5MIN
            } else if interval == POLL_1_HOUR {
                IDM_FREQ_1HOUR
            } else {
                IDM_FREQ_15MIN
            },
        },
    );
    reveal(frequency_entries);
    assert(steps@ =~= old(steps)@ + frequency_entries(interval, strings));
}

/// Display densities.
#[verifier::opaque]
pub open spec fn display_density_entries(
    choice: DisplayDensity,
    strings: Strings,
) -> Seq<MenuStep> {
    seq![
        item(IDM_DISPLAY_DENSITY_COMPACT, strings.display_density_compact, choice is Compact),
        item(IDM_DISPLAY_DENSITY_STANDARD, strings.standard_level, choice is Standard),
        item(IDM_DISPLAY_DENSITY_DETAILED, strings.display_density_detailed, choice is Detailed),
        MenuStep::Radio {
            first: IDM_DISPLAY_DENSITY_COMPACT,
            last: IDM_DISPLAY_DENSITY_DETAILED,
            selected: display_density_id(choice),
        },
    ]
}

fn push_display_density(steps: &mut Vec<MenuStep>, choice: DisplayDensity, strings: Strings)
    ensures
        final(steps)@ == old(steps)@ + display_density_entries(choice, strings),
{
    steps.push(
        entry(
            IDM_DISPLAY_DENSITY_COMPACT,
            strings.display_density_compact,
            choice == DisplayDensity::Compact,
        )
    );
    steps.push(
        entry(
            IDM_DISPLAY_DENSITY_STANDARD,
            strings.standard_level,
            choice == DisplayDensity::Standard,
        )
    );
    steps.push(
        entry(
            IDM_DISPLAY_DENSITY_DETAILED,
            strings.display_density_detailed,
            choice == DisplayDensity::Detailed,
        )
    );
    steps.push(
        MenuStep::Radio {
            first: IDM_DISPLAY_DENSITY_COMPACT,
            last: IDM_DISPLAY_DENSITY_DETAILED,
            selected: match choice {
                DisplayDensity::Compact => IDM_DISPLAY_DENSITY_COMPACT,
                DisplayDensity::Standard => IDM_DISPLAY_DENSITY_STANDARD,
                DisplayDensity::Detailed => IDM_DISPLAY_DENSITY_DETAILED,
            },
        },
    );
    reveal(display_density_entries);
    assert(steps@ =~= old(steps)@ + display_density_entries(choice, strings));
}

/// Visibilities of the short window.
#[verifier::opaque]
pub open spec fn short_window_visibility_entries(
    choice: ShortWindowVisibility,
    strings: Strings,
) -> Seq<MenuStep> {
    seq![
        item(
            IDM_SHORT_WINDOW_VISIBILITY_ALWAYS,
            strings.short_window_visibility_always,
            choice is Always,
        ),
        item(
            IDM_SHORT_WINDOW_VISIBILITY_WARNING_ONLY,
            strings.short_window_visibility_warning_only,
            choice is WarningOnly,
        ),
        item(
            IDM_SHORT_WINDOW_VISIBILITY_HIDDEN,
            strings.short_window_visibility_hidden,
            choice is Hidden,
        ),
        MenuStep::Radio {
            first: IDM_SHORT_WINDOW_VISIBILITY_ALWAYS,
            last: IDM_SHORT_WINDOW_VISIBILITY_HIDDEN,
            selected: short_window_visibility_id(choice),
        },
    ]
}

fn push_short_window_visibility(
    steps: &mut Vec<MenuStep>,
    choice: ShortWindowVisibility,
    strings: Strings,
)
    ensures
        final(steps)@ == old(steps)@ + short_window_visibility_entries(choice, strings),
{
    steps.push(
        entry(
            IDM_SHORT_WINDOW_VISIBILITY_ALWAYS,
            strings.short_window_visibility_always,
            choice == ShortWindowVisibility::Always,
        )
    );
    steps.push(
        entry(
            IDM_SHORT_WINDOW_VISIBILITY_WARNING_ONLY,
            strings.short_window_visibility_warning_only,
            choice == ShortWindowVisibility::WarningOnly,
        )
    );
    steps.push(
        entry(
            IDM_SHORT_WINDOW_VISIBILITY_HIDDEN,
            strings.short_window_visibility_hidden,
            choice == ShortWindowVisibility::Hidden,
        )
    );
    steps.push(
        MenuStep::Radio {
            first: IDM_SHORT_WINDOW_VISIBILITY_ALWAYS,
            last: IDM_SHORT_WINDOW_VISIBILITY_HIDDEN,
            selected: match choice {
                ShortWindowVisibility::Always => IDM_SHORT_WINDOW_VISIBILITY_ALWAYS,
                ShortWindowVisibility::WarningOnly => IDM_SHORT_WINDOW_VISIBILITY_WARNING_ONLY,
                ShortWindowVisibility::Hidden => IDM_SHORT_WINDOW_VISIBILITY_HIDDEN,
            },
        },
    );
    reveal(short_window_visibility_entries);
    assert(steps@ =~= old(steps)@ + short_window_visibility_entries(choice, strings));
}

/// Alert sensitivities of the short window.
#[verifier::opaque]
pub open spec fn short_window_alert_sensitivity_entries(
    choice: ShortWindowAlertSensitivity,
    strings: Strings,
) -> Seq<MenuStep> {
    seq![
        item(
            IDM_SHORT_WINDOW_ALERT_SENSITIVITY_SENSITIVE,
            strings.short_window_alert_sensitivity_sensitive,
            choice is Sensitive,
        ),
        item(
            IDM_SHORT_WINDOW_ALERT_SENSITIVITY_STANDARD,
            strings.standard_level,
            choice is Standard,
        ),
        item(
            IDM_SHORT_WINDOW_ALERT_SENSITIVITY_RELAXED,
            strings.short_window_alert_sensitivity_relaxed,
            choice is Relaxed,
        ),
        MenuStep::Radio {
            first: IDM_SHORT_WINDOW_ALERT_SENSITIVITY_SENSITIVE,
            last: IDM_SHORT_WINDOW_ALERT_SENSITIVITY_RELAXED,
            selected: short_window_alert_sensitivity_id(choice),
        },
    ]
}

fn push_short_window_alert_sensitivity(
    steps: &mut Vec<MenuStep>,
    choice: ShortWindowAlertSensitivity,
    strings: Strings,
)
    ensures
        final(steps)@ == old(steps)@ + short_window_alert_sensitivity_entries(choice, strings),
{
    steps.push(
        entry(
            IDM_SHORT_WINDOW_ALERT_SENSITIVITY_SENSITIVE,
            strings.short_window_alert_sensitivity_sensitive,
            choice == ShortWindowAlertSensitivity::Sensitive,
        )
    );
    steps.push(
        entry(
            IDM_SHORT_WINDOW_ALERT_SENSITIVITY_STANDARD,
            strings.standard_level,
            choice == ShortWindowAlertSensitivity::Standard,
        )
    );
    steps.push(
        entry(
            IDM_SHORT_WINDOW_ALERT_SENSITIVITY_RELAXED,
            strings.short_window_alert_sensitivity_relaxed,
            choice == ShortWindowAlertSensitivity::Relaxed,
        )
    );
    steps.push(
        MenuStep::Radio {
            first: IDM_SHORT_WINDOW_ALERT_SENSITIVITY_SENSITIVE,
            last: IDM_SHORT_WINDOW_ALERT_SENSITIVITY_RELAXED,
            selected: match choice {
                ShortWindowAlertSensitivity::Sensitive => IDM_SHORT_WINDOW_ALERT_SENSITIVITY_SENSITIVE,
                ShortWindowAlertSensitivity::Standard => IDM_SHORT_WINDOW_ALERT_SENSITIVITY_STANDARD,
                ShortWindowAlertSensitivity::Relaxed => IDM_SHORT_WINDOW_ALERT_SENSITIVITY_RELAXED,
            },
        },
    );
    reveal(short_window_alert_sensitivity_entries);
    assert(steps@ =~= old(steps)@ + short_window_alert_sensitivity_entries(choice, strings));
}

/// Popup layouts.
#[verifier::opaque]
pub open spec fn popup_layout_entries(choice: PopupLayout, strings: Strings) -> Seq<MenuStep> {
    seq![
        item(IDM_POPUP_LAYOUT_COMPACT, strings.popup_layout_compact, choice is Compact),
        item(IDM_POPUP_LAYOUT_STANDARD, strings.popup_layout_standard, choice is Standard),
        MenuStep::Radio {
            first: IDM_POPUP_LAYOUT_COMPACT,
            last: IDM_POPUP_LAYOUT_STANDARD,
            selected: popup_layout_id(choice),
        },
    ]
}

fn push_popup_layout(steps: &mut Vec<MenuStep>, choice: PopupLayout, strings: Strings)
    ensures
        final(steps)@ == old(steps)@ + popup_layout_entries(choice, strings),
{
    steps.push(
        entry(
            IDM_POPUP_LAYOUT_COMPACT,
            strings.popup_layout_compact,
            choice == PopupLayout::Compact,
        )
    );
    steps.push(
        entry(
            IDM_POPUP_LAYOUT_STANDARD,
            strings.popup_layout_standard,
            choice == PopupLayout::Standard,
        )
    );
    steps.push(
        MenuStep::Radio {
            first: IDM_POPUP_LAYOUT_COMPACT,
            last: IDM_POPUP_LAYOUT_STANDARD,
            selected: match choice {
                PopupLayout::Compact => IDM_POPUP_LAYOUT_COMPACT,
                PopupLayout::Standard => IDM_POPUP_LAYOUT_STANDARD,
            },
        },
    );
    reveal(popup_layout_entries);
    assert(steps@ =~= old(steps)@ + popup_layout_entries(choice, strings));
}

/// Themes.
#[verifier::opaque]
pub open spec fn app_theme_entries(choice: AppTheme, strings: Strings) -> Seq<MenuStep> {
    seq![
        item(
            IDM_APP_THEME_RECOMMENDED_DARK,
            strings.app_theme_recommended_dark,
            choice is RecommendedDark,
        ),
        item(IDM_APP_THEME_LIGHT, strings.app_theme_light, choice is Light),
        item(
            IDM_APP_THEME_HIGH_VISIBILITY,
            strings.app_theme_high_visibility,
            choice is HighVisibility,
        ),
        MenuStep::Radio {
            first: IDM_APP_THEME_RECOMMENDED_DARK,
            last: IDM_APP_THEME_HIGH_VISIBILITY,
            selected: app_theme_id(choice),
        },
    ]
}

fn push_app_theme(steps: &mut Vec<MenuStep>, choice: AppTheme, strings: Strings)
    ensures
        final(steps)@ == old(steps)@ + app_theme_entries(choice, strings),
{
    steps.push(
        entry(
            IDM_APP_THEME_RECOMMENDED_DARK,
            strings.app_theme_recommended_dark,
            choice == AppTheme::RecommendedDark,
        )
    );
    steps.push(entry(IDM_APP_THEME_LIGHT, strings.app_theme_light, choice == AppTheme::Light));
    steps.push(
        entry(
            IDM_APP_THEME_HIGH_VISIBILITY,
            strings.app_theme_high_visibility,
            choice == AppTheme::HighVisibility,
        )
    );
    steps.push(
        MenuStep::Radio {
            first: IDM_APP_THEME_RECOMMENDED_DARK,
            last: IDM_APP_THEME_HIGH_VISIBILITY,
            selected: match choice {
                AppTheme::RecommendedDark => IDM_APP_THEME_RECOMMENDED_DARK,
                AppTheme::Light => IDM_APP_THEME_LIGHT,
                AppTheme::HighVisibility => IDM_APP_THEME_HIGH_VISIBILITY,
            },
        },
    );
    reveal(app_theme_entries);
    assert(steps@ =~= old(steps)@ + app_theme_entries(choice, strings));
}

/// Copilot plans.
#[verifier::opaque]
pub open spec fn github_copilot_plan_entries(
    choice: GithubCopilotPlan,
    strings: Strings,
) -> Seq<MenuStep> {
    seq![
        item(
            IDM_GITHUB_COPILOT_PLAN_UNKNOWN,
            strings.github_copilot_plan_unknown,
            choice is Unknown,
        ),
        item(IDM_GITHUB_COPILOT_PLAN_PRO, strings.github_copilot_plan_pro, choice is Pro),
        item(
            IDM_GITHUB_COPILOT_PLAN_PRO_PLUS,
            strings.github_copilot_plan_pro_plus,
            choice is ProPlus,
        ),
        item(IDM_GITHUB_COPILOT_PLAN_MAX, strings.github_copilot_plan_max, choice is Max),
        MenuStep::Radio {
            first: IDM_GITHUB_COPILOT_PLAN_UNKNOWN,
            last: IDM_GITHUB_COPILOT_PLAN_MAX,
            selected: github_copilot_plan_id(choice),
        },
    ]
}

fn push_github_copilot_plan(steps: &mut Vec<MenuStep>, choice: GithubCopilotPlan, strings: Strings)
    ensures
        final(steps)@ == old(steps)@ + github_copilot_plan_entries(choice, strings),
{
    steps.push(
        entry(
            IDM_GITHUB_COPILOT_PLAN_UNKNOWN,
            strings.github_copilot_plan_unknown,
            choice == GithubCopilotPlan::Unknown,
        )
    );
    steps.push(
        entry(
            IDM_GITHUB_COPILOT_PLAN_PRO,
            strings.github_copilot_plan_pro,
            choice == GithubCopilotPlan::Pro,
        )
    );
    steps.push(
        entry(
            IDM_GITHUB_COPILOT_PLAN_PRO_PLUS,
            strings.github_copilot_plan_pro_plus,
            choice == GithubCopilotPlan::ProPlus,
        )
    );
    steps.push(
        entry(
            IDM_GITHUB_COPILOT_PLAN_MAX,
            strings.github_copilot_plan_max,
            choice == GithubCopilotPlan::Max,
        )
    );
    steps.push(
        MenuStep::Radio {
            first: IDM_GITHUB_COPILOT_PLAN_UNKNOWN,
            last: IDM_GITHUB_COPILOT_PLAN_MAX,
            selected: match choice {
                GithubCopilotPlan::Unknown => IDM_GITHUB_COPILOT_PLAN_UNKNOWN,
                GithubCopilotPlan::Pro => IDM_GITHUB_COPILOT_PLAN_PRO,
                GithubCopilotPlan::ProPlus => IDM_GITHUB_COPILOT_PLAN_PRO_PLUS,
                GithubCopilotPlan::Max => IDM_GITHUB_COPILOT_PLAN_MAX,
            },
        },
    );
    reveal(github_copilot_plan_entries);
    assert(steps@ =~= old(steps)@ + github_copilot_plan_entries(choice, strings));
}

/// Display bases.
#[verifier::opaque]
pub open spec fn display_basis_entries(choice: DisplayBasis, strings: Strings) -> Seq<MenuStep> {
    seq![
        item(IDM_DISPLAY_BASIS_USED, strings.used_percentage, choice is UsedPercentage),
        item(
            IDM_DISPLAY_BASIS_REMAINING,
            strings.remaining_allowance,
            choice is RemainingAllowance,
        ),
        MenuStep::Radio {
            first: IDM_DISPLAY_BASIS_USED,
            last: IDM_DISPLAY_BASIS_REMAINING,
            selected: id_of(Command::SetBasis(choice)),
        },
    ]
}

fn push_display_basis(steps: &mut Vec<MenuStep>, choice: DisplayBasis, strings: Strings)
    ensures
        final(steps)@ == old(steps)@ + display_basis_entries(choice, strings),
{
    steps.push(
        entry(
            IDM_DISPLAY_BASIS_USED,
            strings.used_percentage,
            choice == DisplayBasis::UsedPercentage,
        )
    );
    steps.push(
        entry(
            IDM_DISPLAY_BASIS_REMAINING,
            strings.remaining_allowance,
            choice == DisplayBasis::RemainingAllowance,
        )
    );
    steps.push(
        MenuStep::Radio {
            first: IDM_DISPLAY_BASIS_USED,
            last: IDM_DISPLAY_BASIS_REMAINING,
            selected: match choice {
                DisplayBasis::UsedPercentage => IDM_DISPLAY_BASIS_USED,
                DisplayBasis::RemainingAllowance => IDM_DISPLAY_BASIS_REMAINING,
            },
        },
    );
    reveal(display_basis_entries);
    assert(steps@ =~= old(steps)@ + display_basis_entries(choice, strings));
}

/// The entry of a language.
pub open spec fn language_entry(
    language: LanguageId,
    chosen: Option<LanguageId>,
    languages: Languages,
) -> MenuStep {
    item(
        language_id(Some(language)),
        languages.pack(language).native_name,
        chosen == Some(language),
    )
}

/// Languages: the system's first, then each under its own name.
#[verifier::opaque]
pub open spec fn language_entries(
    chosen: Option<LanguageId>,
    languages: Languages,
    strings: Strings,
) -> Seq<MenuStep> {
    seq![
        item(IDM_LANG_SYSTEM, strings.system_default, chosen is None),
        language_entry(LanguageId::English, chosen, languages),
        language_entry(LanguageId::Dutch, chosen, languages),
        language_entry(LanguageId::Spanish, chosen, languages),
        language_entry(LanguageId::French, chosen, languages),
        language_entry(LanguageId::German, chosen, languages),
        language_entry(LanguageId::Japanese, chosen, languages),
        language_entry(LanguageId::Korean, chosen, languages),
        language_entry(LanguageId::TraditionalChinese, chosen, languages),
        language_entry(LanguageId::SimplifiedChinese, chosen, languages),
        language_entry(LanguageId::Russian, chosen, languages),
        language_entry(LanguageId::PortugueseBrazil, chosen, languages),
        MenuStep::Radio {
            first: IDM_LANG_SYSTEM,
            last: IDM_LANG_SIMPLIFIED_CHINESE,
            selected: language_id(chosen),
        },
    ]
}

fn push_language(
    steps: &mut Vec<MenuStep>,
    chosen: Option<LanguageId>,
    languages: &Languages,
    strings: Strings,
)
    ensures
        final(steps)@ == old(steps)@ + language_entries(chosen, *languages, strings),
{
    steps.push(entry(IDM_LANG_SYSTEM, strings.system_default, chosen.is_none()));
    let all: Vec<LanguageId> = all_languages();
    let mut i: usize = 0;
    let ghost start = steps@;
    while i < all.len()
        invariant
            i <= all.len(),
            is_all_languages(all@),
            steps@ == start + Seq::new(
                i as nat,
                |k: int| language_entry(all@[k], chosen, *languages),
            ),
        decreases all.len() - i,
    {
        let language: LanguageId = all[i];
        let checked: bool = match chosen {
            Some(c) => c == language,
            None => false,
        };
        steps.push(
            entry(
                id_of_language(Some(language)),
                languages.pack(language).native_name,
                checked,
            ),
        );
        i += 1;
        assert(steps@ =~= start + Seq::new(
            i as nat,
            |k: int| language_entry(all@[k], chosen, *languages),
        ));
    }
    steps.push(
        MenuStep::Radio {
            first: IDM_LANG_SYSTEM,
            last: IDM_LANG_SIMPLIFIED_CHINESE,
            selected: id_of_language(chosen),
        },
    );
    proof {
        assert(all@[language_rank(LanguageId::English)] == LanguageId::English);
        assert(all@[language_rank(LanguageId::Dutch)] == LanguageId::Dutch);
        assert(all@[language_rank(LanguageId::Spanish)] == LanguageId::Spanish);
        assert(all@[language_rank(LanguageId::French)] == LanguageId::French);
        assert(all@[language_rank(LanguageId::German)] == LanguageId::German);
        assert(all@[language_rank(LanguageId::Japanese)] == LanguageId::Japanese);
        assert(all@[language_rank(LanguageId::Korean)] == LanguageId::Korean);
        assert(
            all@[language_rank(LanguageId::TraditionalChinese)] == LanguageId::TraditionalChinese
        );
        assert(all@[language_rank(LanguageId::SimplifiedChinese)] == LanguageId::SimplifiedChinese);
        assert(all@[language_rank(LanguageId::Russian)] == LanguageId::Russian);
        assert(all@[language_rank(LanguageId::PortugueseBrazil)] == LanguageId::PortugueseBrazil);
        reveal(language_entries);
        assert(steps@ =~= old(steps)@ + language_entries(chosen, *languages, strings));
    }
}

/// Providers, each checked while it is shown.
#[verifier::opaque]
pub open spec fn provider_entries(input: MenuInput, strings: Strings) -> Seq<MenuStep> {
    seq![
        item(IDM_MODEL_CLAUDE_CODE, strings.claude_code_model, input.prefs.show_claude_code),
        item(IDM_MODEL_CODEX, strings.codex_model, input.prefs.show_codex),
    ] + (if input.features.antigravity {
        seq![item(IDM_MODEL_ANTIGRAVITY, strings.antigravity_model, input.prefs.show_antigravity)]
    } else {
        Seq::empty()
    }) + seq![
        item(IDM_MODEL_GITHUB_COPILOT, strings.github_copilot, input.prefs.show_github_copilot),
    ]
}

fn push_provider(steps: &mut Vec<MenuStep>, input: MenuInput, strings: Strings)
    ensures
        final(steps)@ == old(steps)@ + provider_entries(input, strings),
{
    steps.push(
        entry(IDM_MODEL_CLAUDE_CODE, strings.claude_code_model, input.prefs.show_claude_code),
    );
    steps.push(entry(IDM_MODEL_CODEX, strings.codex_model, input.prefs.show_codex));
    if input.features.antigravity {
        steps.push(
            entry(IDM_MODEL_ANTIGRAVITY, strings.antigravity_model, input.prefs.show_antigravity),
        );
    }
    steps.push(
        entry(IDM_MODEL_GITHUB_COPILOT, strings.github_copilot, input.prefs.show_github_copilot),
    );
    reveal(provider_entries);
    assert(steps@ =~= old(steps)@ + provider_entries(input, strings));
}

/// Display settings: what is shown, then how.
#[verifier::opaque]
pub open spec fn display_entries(prefs: Preferences, strings: Strings) -> Seq<MenuStep> {
    submenu(strings.usage_display_basis, display_basis_entries(prefs.display_basis, strings))
        + submenu(
        strings.session_window_label,
        submenu(
            strings.short_window_visibility,
            short_window_visibility_entries(prefs.short_window_visibility, strings),
        ) + submenu(
            strings.short_window_alert_sensitivity,
            short_window_alert_sensitivity_entries(prefs.short_window_alert_sensitivity, strings),
        ),
    ) + seq![MenuStep::Separator] + submenu(
        strings.display_density,
        display_density_entries(prefs.display_density, strings),
    ) + submenu(strings.popup_layout, popup_layout_entries(prefs.popup_layout, strings)) + submenu(
        strings.app_theme,
        app_theme_entries(prefs.app_theme, strings),
    )
}

fn push_display(steps: &mut Vec<MenuStep>, prefs: Preferences, strings: Strings)
    ensures
        final(steps)@ == old(steps)@ + display_entries(prefs, strings),
{
    steps.push(MenuStep::Open { label: strings.usage_display_basis });
    push_display_basis(steps, prefs.display_basis, strings);
    steps.push(MenuStep::Close);
    assert(steps@ =~= old(steps)@ + submenu(
        strings.usage_display_basis,
        display_basis_entries(prefs.display_basis, strings),
    ));
    let ghost after_basis = steps@;
    steps.push(MenuStep::Open { label: strings.session_window_label });
    steps.push(MenuStep::Open { label: strings.short_window_visibility });
    push_short_window_visibility(steps, prefs.short_window_visibility, strings);
    steps.push(MenuStep::Close);
    steps.push(MenuStep::Open { label: strings.short_window_alert_sensitivity });
    push_short_window_alert_sensitivity(steps, prefs.short_window_alert_sensitivity, strings);
    steps.push(MenuStep::Close);
    steps.push(MenuStep::Close);
    let ghost short_window = submenu(
        strings.session_window_label,
        submenu(
            strings.short_window_visibility,
            short_window_visibility_entries(prefs.short_window_visibility, strings),
        ) + submenu(
            strings.short_window_alert_sensitivity,
            short_window_alert_sensitivity_entries(prefs.short_window_alert_sensitivity, strings),
        ),
    );
    assert(steps@ =~= after_basis + short_window);
    let ghost after_short = steps@;
    steps.push(MenuStep::Separator);
    steps.push(MenuStep::Open { label: strings.display_density });
    push_display_density(steps, prefs.display_density, strings);
    steps.push(MenuStep::Close);
    let ghost density = submenu(
        strings.display_density,
        display_density_entries(prefs.display_density, strings),
    );
    assert(steps@ =~= after_short + seq![MenuStep::Separator] + density);
    let ghost after_density = steps@;
    steps.push(MenuStep::Open { label: strings.popup_layout });
    push_popup_layout(steps, prefs.popup_layout, strings);
    steps.push(MenuStep::Close);
    let ghost layout = submenu(
        strings.popup_layout,
        popup_layout_entries(prefs.popup_layout, strings),
    );
    assert(steps@ =~= after_density + layout);
    let ghost after_layout = steps@;
    steps.push(MenuStep::Open { label: strings.app_theme });
    push_app_theme(steps, prefs.app_theme, strings);
    steps.push(MenuStep::Close);
    assert(steps@ =~= after_layout + submenu(
        strings.app_theme,
        app_theme_entries(prefs.app_theme, strings),
    ));
    reveal(display_entries);
    assert(steps@ =~= old(steps)@ + display_entries(prefs, strings));
}

/// Help: placeholders, and the version entry in a build that updates itself.
#[verifier::opaque]
pub open spec fn help_entries(input: MenuInput, strings: Strings) -> Seq<MenuStep> {
    seq![
        MenuStep::Placeholder { label: strings.help_readme_placeholder },
        MenuStep::Placeholder { label: strings.help_update_placeholder },
        MenuStep::Placeholder { label: strings.help_version_placeholder },
    ] + (if input.features.self_update {
        seq![MenuStep::Separator, MenuStep::Version { grayed: input.update_busy }]
    } else {
        Seq::empty()
    })
}

fn push_help(steps: &mut Vec<MenuStep>, input: MenuInput, strings: Strings)
    ensures
        final(steps)@ == old(steps)@ + help_entries(input, strings),
{
    steps.push(MenuStep::Placeholder { label: strings.help_readme_placeholder });
    steps.push(MenuStep::Placeholder { label: strings.help_update_placeholder });
    steps.push(MenuStep::Placeholder { label: strings.help_version_placeholder });
    if input.features.self_update {
        steps.push(MenuStep::Separator);
        steps.push(MenuStep::Version { grayed: input.update_busy });
    }
    reveal(help_entries);
    assert(steps@ =~= old(steps)@ + help_entries(input, strings));
}

/// The context menu.
pub open spec fn menu_steps(input: MenuInput, languages: Languages) -> Seq<MenuStep> {
    let prefs = input.prefs;
    let strings = languages.strings(prefs.language);
    seq![
        item(IDM_REFRESH, strings.refresh, false),
        item(IDM_RESET_POSITION, strings.reset_position, false),
        MenuStep::Separator,
        item(IDM_TOGGLE_WIDGET, strings.show_widget, prefs.widget_visible),
        item(IDM_ALWAYS_ON_TOP, strings.always_on_top, prefs.always_on_top),
        item(IDM_START_WITH_WINDOWS, strings.start_with_windows, input.startup_enabled),
        MenuStep::Separator,
    ] + submenu(strings.update_frequency, frequency_entries(prefs.poll_interval_ms, strings))
        + submenu(strings.displayed_ai, provider_entries(input, strings)) + submenu(
        strings.display_settings,
        display_entries(prefs, strings),
    ) + submenu(strings.language, language_entries(prefs.language_override, languages, strings))
        + submenu(
        strings.github_copilot,
        github_copilot_plan_entries(prefs.github_copilot_plan, strings),
    ) + submenu(strings.help, help_entries(input, strings)) + seq![
        MenuStep::Separator,
        item(IDM_EXIT, strings.exit, false),
    ]
}

/// Builds the context menu.
pub fn context_menu(input: MenuInput, languages: &Languages) -> (r: Vec<MenuStep>)
    ensures
        r@ == menu_steps(input, *languages),
{
    let prefs: Preferences = input.prefs;
    let strings: Strings = languages.strings(prefs.language);
    let mut steps: Vec<MenuStep> = Vec::new();
    steps.push(entry(IDM_REFRESH, strings.refresh, false));
    steps.push(entry(IDM_RESET_POSITION, strings.reset_position, false));
    steps.push(MenuStep::Separator);
    steps.push(entry(IDM_TOGGLE_WIDGET, strings.show_widget, prefs.widget_visible));
    steps.push(entry(IDM_ALWAYS_ON_TOP, strings.always_on_top, prefs.always_on_top));
    steps.push(entry(IDM_START_WITH_WINDOWS, strings.start_with_windows, input.startup_enabled));
    steps.push(MenuStep::Separator);
    let ghost top = steps@;
    steps.push(MenuStep::Open { label: strings.update_frequency });
    push_frequency(&mut steps, prefs.poll_interval_ms, strings);
    steps.push(MenuStep::Close);
    let ghost s1 = submenu(
        strings.update_frequency,
        frequency_entries(prefs.poll_interval_ms, strings),
    );
    assert(steps@ =~= top + s1);
    steps.push(MenuStep::Open { label: strings.displayed_ai });
    push_provider(&mut steps, input, strings);
    steps.push(MenuStep::Close);
    let ghost s2 = submenu(strings.displayed_ai, provider_entries(input, strings));
    assert(steps@ =~= top + s1 + s2);
    steps.push(MenuStep::Open { label: strings.display_settings });
    push_display(&mut steps, prefs, strings);
    steps.push(MenuStep::Close);
    let ghost s3 = submenu(strings.display_settings, display_entries(prefs, strings));
    assert(steps@ =~= top + s1 + s2 + s3);
    steps.push(MenuStep::Open { label: strings.language });
    push_language(&mut steps, prefs.language_override, languages, strings);
    steps.push(MenuStep::Close);
    let ghost s4 = submenu(
        strings.language,
        language_entries(prefs.language_override, *languages, strings),
    );
    assert(steps@ =~= top + s1 + s2 + s3 + s4);
    steps.push(MenuStep::Open { label: strings.github_copilot });
    push_github_copilot_plan(&mut steps, prefs.github_copilot_plan, strings);
    steps.push(MenuStep::Close);
    let ghost s5 = submenu(
        strings.github_copilot,
        github_copilot_plan_entries(prefs.github_copilot_plan, strings),
    );
    assert(steps@ =~= top + s1 + s2 + s3 + s4 + s5);
    steps.push(MenuStep::Open { label: strings.help });
    push_help(&mut steps, input, strings);
    steps.push(MenuStep::Close);
    let ghost s6 = submenu(strings.help, help_entries(input, strings));
    assert(steps@ =~= top + s1 + s2 + s3 + s4 + s5 + s6);
    steps.push(MenuStep::Separator);
    steps.push(entry(IDM_EXIT, strings.exit, false));
    steps
}

// ---- laws of the layout -----------------------------------------------------------------

/// A submenu of choices: one mark, on an entry that is there once, and no other entry
/// checked.
pub open spec fn one_choice(steps: Seq<MenuStep>) -> bool {
    &&& steps.len() > 0
    &&& (steps.last() matches MenuStep::Radio { first, last, selected } && {
        &&& forall|i: int|
            0 <= i < steps.len() - 1 ==> (#[trigger] steps[i] matches MenuStep::Item {
                id,
                checked,
                ..
            } && first <= id <= last && (checked ==> id == selected))
        &&& forall|i: int, j: int|
            0 <= i < j < steps.len() - 1
                ==> #[trigger] steps[i]->Item_id != #[trigger] steps[j]->Item_id
        &&& exists|i: int|
            0 <= i < steps.len() - 1 && #[trigger] steps[i]->Item_id == selected
    })
}

/// Every submenu of choices marks exactly one of them.
pub proof fn submenus_mark_one_choice(prefs: Preferences, languages: Languages, strings: Strings)
    ensures
        one_choice(frequency_entries(prefs.poll_interval_ms, strings)),
        one_choice(display_basis_entries(prefs.display_basis, strings)),
        one_choice(display_density_entries(prefs.display_density, strings)),
        one_choice(popup_layout_entries(prefs.popup_layout, strings)),
        one_choice(app_theme_entries(prefs.app_theme, strings)),
        one_choice(short_window_visibility_entries(prefs.short_window_visibility, strings)),
        one_choice(
            short_window_alert_sensitivity_entries(prefs.short_window_alert_sensitivity, strings),
        ),
        one_choice(github_copilot_plan_entries(prefs.github_copilot_plan, strings)),
        one_choice(language_entries(prefs.language_override, languages, strings)),
{
    assert(one_choice(frequency_entries(prefs.poll_interval_ms, strings))) by {
        reveal(frequency_entries);
        let steps = frequency_entries(prefs.poll_interval_ms, strings);
        assert(steps[0]->Item_id == IDM_FREQ_1MIN);
        assert(steps[1]->Item_id == IDM_FREQ_5MIN);
        assert(steps[2]->Item_id == IDM_FREQ_15MIN);
        assert(steps[3]->Item_id == IDM_FREQ_1HOUR);
    }
    assert(one_choice(display_basis_entries(prefs.display_basis, strings))) by {
        reveal(display_basis_entries);
        let steps = display_basis_entries(prefs.display_basis, strings);
        assert(steps[0]->Item_id == IDM_DISPLAY_BASIS_USED);
        assert(steps[1]->Item_id == IDM_DISPLAY_BASIS_REMAINING);
    }
    assert(one_choice(display_density_entries(prefs.display_density, strings))) by {
        reveal(display_density_entries);
        let steps = display_density_entries(prefs.display_density, strings);
        assert(steps[0]->Item_id == IDM_DISPLAY_DENSITY_COMPACT);
        assert(steps[1]->Item_id == IDM_DISPLAY_DENSITY_STANDARD);
        assert(steps[2]->Item_id == IDM_DISPLAY_DENSITY_DETAILED);
    }
    assert(one_choice(popup_layout_entries(prefs.popup_layout, strings))) by {
        reveal(popup_layout_entries);
        let steps = popup_layout_entries(prefs.popup_layout, strings);
        assert(steps[0]->Item_id == IDM_POPUP_LAYOUT_COMPACT);
        assert(steps[1]->Item_id == IDM_POPUP_LAYOUT_STANDARD);
    }
    assert(one_choice(app_theme_entries(prefs.app_theme, strings))) by {
        reveal(app_theme_entries);
        let steps = app_theme_entries(prefs.app_theme, strings);
        assert(steps[0]->Item_id == IDM_APP_THEME_RECOMMENDED_DARK);
        assert(steps[1]->Item_id == IDM_APP_THEME_LIGHT);
        assert(steps[2]->Item_id == IDM_APP_THEME_HIGH_VISIBILITY);
    }
    assert(one_choice(short_window_visibility_entries(prefs.short_window_visibility, strings))) by {
        reveal(short_window_visibility_entries);
        let steps = short_window_visibility_entries(prefs.short_window_visibility, strings);
        assert(steps[0]->Item_id == IDM_SHORT_WINDOW_VISIBILITY_ALWAYS);
        assert(steps[1]->Item_id == IDM_SHORT_WINDOW_VISIBILITY_WARNING_ONLY);
        assert(steps[2]->Item_id == IDM_SHORT_WINDOW_VISIBILITY_HIDDEN);
    }
    assert(one_choice(
        short_window_alert_sensitivity_entries(prefs.short_window_alert_sensitivity, strings),
    )) by {
        reveal(short_window_alert_sensitivity_entries);
        let steps = short_window_alert_sensitivity_entries(
            prefs.short_window_alert_sensitivity,
            strings,
        );
        assert(steps[0]->Item_id == IDM_SHORT_WINDOW_ALERT_SENSITIVITY_SENSITIVE);
        assert(steps[1]->Item_id == IDM_SHORT_WINDOW_ALERT_SENSITIVITY_STANDARD);
        assert(steps[2]->Item_id == IDM_SHORT_WINDOW_ALERT_SENSITIVITY_RELAXED);
    }
    assert(one_choice(github_copilot_plan_entries(prefs.github_copilot_plan, strings))) by {
        reveal(github_copilot_plan_entries);
        let steps = github_copilot_plan_entries(prefs.github_copilot_plan, strings);
        assert(steps[0]->Item_id == IDM_GITHUB_COPILOT_PLAN_UNKNOWN);
        assert(steps[1]->Item_id == IDM_GITHUB_COPILOT_PLAN_PRO);
        assert(steps[2]->Item_id == IDM_GITHUB_COPILOT_PLAN_PRO_PLUS);
        assert(steps[3]->Item_id == IDM_GITHUB_COPILOT_PLAN_MAX);
    }
    assert(one_choice(language_entries(prefs.language_override, languages, strings))) by {
        reveal(language_entries);
        let steps = language_entries(prefs.language_override, languages, strings);
        assert(steps[0]->Item_id == IDM_LANG_SYSTEM);
        assert(steps[1]->Item_id == IDM_LANG_ENGLISH);
        assert(steps[2]->Item_id == IDM_LANG_DUTCH);
        assert(steps[3]->Item_id == IDM_LANG_SPANISH);
        assert(steps[4]->Item_id == IDM_LANG_FRENCH);
        assert(steps[5]->Item_id == IDM_LANG_GERMAN);
        assert(steps[6]->Item_id == IDM_LANG_JAPANESE);
        assert(steps[7]->Item_id == IDM_LANG_KOREAN);
        assert(steps[8]->Item_id == IDM_LANG_TRADITIONAL_CHINESE);
        assert(steps[9]->Item_id == IDM_LANG_SIMPLIFIED_CHINESE);
        assert(steps[10]->Item_id == IDM_LANG_RUSSIAN);
        assert(steps[11]->Item_id == IDM_LANG_PORTUGUESE_BRAZIL);
    }
}

/// Whether a step is an entry of a command that the build knows, or no entry.
pub open spec fn is_understood(step: MenuStep, features: Features) -> bool {
    match step {
        MenuStep::Item { id, .. } => exists|command: Command| #[trigger]
            id_of(command) == id && is_offered(command, features),
        MenuStep::Version { .. } => is_offered(Command::VersionAction, features),
        _ => true,
    }
}

/// Whether all steps are understood.
pub open spec fn all_understood(steps: Seq<MenuStep>, features: Features) -> bool {
    forall|i: int| 0 <= i < steps.len() ==> is_understood(#[trigger] steps[i], features)
}

proof fn understood_submenu(label: &'static str, inner: Seq<MenuStep>, features: Features)
    requires
        all_understood(inner, features),
    ensures
        all_understood(submenu(label, inner), features),
{
    assert forall|i: int| 0 <= i < submenu(label, inner).len() implies is_understood(
        #[trigger] submenu(label, inner)[i],
        features,
    ) by {
        if 1 <= i <= inner.len() {
            assert(submenu(label, inner)[i] == inner[i - 1]);
        }
    }
}

proof fn understood_parts(a: Seq<MenuStep>, b: Seq<MenuStep>, features: Features)
    requires
        all_understood(a, features),
        all_understood(b, features),
    ensures
        all_understood(a + b, features),
{
}

proof fn choices_are_understood(
    prefs: Preferences,
    languages: Languages,
    strings: Strings,
    features: Features,
)
    ensures
        all_understood(frequency_entries(prefs.poll_interval_ms, strings), features),
        all_understood(github_copilot_plan_entries(prefs.github_copilot_plan, strings), features),
{
    reveal(frequency_entries);
    reveal(github_copilot_plan_entries);
    assert(id_of(Command::SetInterval(PollFrequency::OneMinute)) == IDM_FREQ_1MIN);
    assert(id_of(Command::SetInterval(PollFrequency::FiveMinutes)) == IDM_FREQ_5MIN);
    assert(id_of(Command::SetInterval(PollFrequency::FifteenMinutes)) == IDM_FREQ_15MIN);
    assert(id_of(Command::SetInterval(PollFrequency::OneHour)) == IDM_FREQ_1HOUR);
    assert(id_of(Command::SetPlan(GithubCopilotPlan::Unknown)) == IDM_GITHUB_COPILOT_PLAN_UNKNOWN);
    assert(id_of(Command::SetPlan(GithubCopilotPlan::Pro)) == IDM_GITHUB_COPILOT_PLAN_PRO);
    assert(id_of(Command::SetPlan(GithubCopilotPlan::ProPlus)) == IDM_GITHUB_COPILOT_PLAN_PRO_PLUS);
    assert(id_of(Command::SetPlan(GithubCopilotPlan::Max)) == IDM_GITHUB_COPILOT_PLAN_MAX);
}

proof fn languages_are_understood(
    chosen: Option<LanguageId>,
    languages: Languages,
    strings: Strings,
    features: Features,
)
    ensures
        all_understood(language_entries(chosen, languages, strings), features),
{
    reveal(language_entries);
    assert(id_of(Command::SetLanguage(None)) == IDM_LANG_SYSTEM);
    assert(id_of(Command::SetLanguage(Some(LanguageId::English))) == IDM_LANG_ENGLISH);
    assert(id_of(Command::SetLanguage(Some(LanguageId::Dutch))) == IDM_LANG_DUTCH);
    assert(id_of(Command::SetLanguage(Some(LanguageId::Spanish))) == IDM_LANG_SPANISH);
    assert(id_of(Command::SetLanguage(Some(LanguageId::French))) == IDM_LANG_FRENCH);
    assert(id_of(Command::SetLanguage(Some(LanguageId::German))) == IDM_LANG_GERMAN);
    assert(id_of(Command::SetLanguage(Some(LanguageId::Japanese))) == IDM_LANG_JAPANESE);
    assert(id_of(Command::SetLanguage(Some(LanguageId::Korean))) == IDM_LANG_KOREAN);
    assert(
        id_of(
            Command::SetLanguage(Some(LanguageId::TraditionalChinese))
        ) == IDM_LANG_TRADITIONAL_CHINESE
    );
    assert(
        id_of(
            Command::SetLanguage(Some(LanguageId::SimplifiedChinese))
        ) == IDM_LANG_SIMPLIFIED_CHINESE
    );
    assert(id_of(Command::SetLanguage(Some(LanguageId::Russian))) == IDM_LANG_RUSSIAN);
    assert(
        id_of(
            Command::SetLanguage(Some(LanguageId::PortugueseBrazil))
        ) == IDM_LANG_PORTUGUESE_BRAZIL
    );
}

proof fn providers_are_understood(input: MenuInput, strings: Strings)
    ensures
        all_understood(provider_entries(input, strings), input.features),
        all_understood(help_entries(input, strings), input.features),
{
    reveal(provider_entries);
    reveal(help_entries);
    assert(id_of(Command::ToggleProvider(QuotaFamilyId::Claude)) == IDM_MODEL_CLAUDE_CODE);
    assert(id_of(Command::ToggleProvider(QuotaFamilyId::Codex)) == IDM_MODEL_CODEX);
    assert(id_of(Command::ToggleProvider(QuotaFamilyId::Antigravity)) == IDM_MODEL_ANTIGRAVITY);
    assert(
        id_of(Command::ToggleProvider(QuotaFamilyId::GithubCopilot)) == IDM_MODEL_GITHUB_COPILOT
    );
}

proof fn display_is_understood(prefs: Preferences, strings: Strings, features: Features)
    ensures
        all_understood(display_entries(prefs, strings), features),
{
    let basis = display_basis_entries(prefs.display_basis, strings);
    let visibility = short_window_visibility_entries(prefs.short_window_visibility, strings);
    let sensitivity = short_window_alert_sensitivity_entries(
        prefs.short_window_alert_sensitivity,
        strings,
    );
    let density = display_density_entries(prefs.display_density, strings);
    let layout = popup_layout_entries(prefs.popup_layout, strings);
    let theme = app_theme_entries(prefs.app_theme, strings);
    assert(all_understood(basis, features)) by {
        reveal(display_basis_entries);
        assert(id_of(Command::SetBasis(DisplayBasis::UsedPercentage)) == IDM_DISPLAY_BASIS_USED);
        assert(id_of(Command::SetBasis(DisplayBasis::RemainingAllowance))
            == IDM_DISPLAY_BASIS_REMAINING);
    }
    assert(all_understood(visibility, features)) by {
        reveal(short_window_visibility_entries);
        assert(id_of(Command::SetVisibility(ShortWindowVisibility::Always))
            == IDM_SHORT_WINDOW_VISIBILITY_ALWAYS);
        assert(id_of(Command::SetVisibility(ShortWindowVisibility::WarningOnly))
            == IDM_SHORT_WINDOW_VISIBILITY_WARNING_ONLY);
        assert(id_of(Command::SetVisibility(ShortWindowVisibility::Hidden))
            == IDM_SHORT_WINDOW_VISIBILITY_HIDDEN);
    }
    assert(all_understood(sensitivity, features)) by {
        reveal(short_window_alert_sensitivity_entries);
        assert(id_of(Command::SetSensitivity(ShortWindowAlertSensitivity::Sensitive))
            == IDM_SHORT_WINDOW_ALERT_SENSITIVITY_SENSITIVE);
        assert(id_of(Command::SetSensitivity(ShortWindowAlertSensitivity::Standard))
            == IDM_SHORT_WINDOW_ALERT_SENSITIVITY_STANDARD);
        assert(id_of(Command::SetSensitivity(ShortWindowAlertSensitivity::Relaxed))
            == IDM_SHORT_WINDOW_ALERT_SENSITIVITY_RELAXED);
    }
    assert(all_understood(density, features)) by {
        reveal(display_density_entries);
        assert(id_of(Command::SetDensity(DisplayDensity::Compact)) == IDM_DISPLAY_DENSITY_COMPACT);
        assert(
            id_of(Command::SetDensity(DisplayDensity::Standard)) == IDM_DISPLAY_DENSITY_STANDARD
        );
        assert(
            id_of(Command::SetDensity(DisplayDensity::Detailed)) == IDM_DISPLAY_DENSITY_DETAILED
        );
    }
    assert(all_understood(layout, features)) by {
        reveal(popup_layout_entries);
        assert(id_of(Command::SetLayout(PopupLayout::Compact)) == IDM_POPUP_LAYOUT_COMPACT);
        assert(id_of(Command::SetLayout(PopupLayout::Standard)) == IDM_POPUP_LAYOUT_STANDARD);
    }
    assert(all_understood(theme, features)) by {
        reveal(app_theme_entries);
        assert(id_of(Command::SetTheme(AppTheme::RecommendedDark))
            == IDM_APP_THEME_RECOMMENDED_DARK);
        assert(id_of(Command::SetTheme(AppTheme::Light)) == IDM_APP_THEME_LIGHT);
        assert(id_of(Command::SetTheme(AppTheme::HighVisibility)) == IDM_APP_THEME_HIGH_VISIBILITY);
    }
    understood_submenu(strings.usage_display_basis, basis, features);
    understood_submenu(strings.short_window_visibility, visibility, features);
    understood_submenu(strings.short_window_alert_sensitivity, sensitivity, features);
    let short_window = submenu(strings.short_window_visibility, visibility) + submenu(
        strings.short_window_alert_sensitivity,
        sensitivity,
    );
    understood_parts(
        submenu(strings.short_window_visibility, visibility),
        submenu(strings.short_window_alert_sensitivity, sensitivity),
        features,
    );
    understood_submenu(strings.session_window_label, short_window, features);
    understood_submenu(strings.display_density, density, features);
    understood_submenu(strings.popup_layout, layout, features);
    understood_submenu(strings.app_theme, theme, features);
    let a = submenu(strings.usage_display_basis, basis);
    let b = a + submenu(strings.session_window_label, short_window);
    let c = b + seq![MenuStep::Separator];
    let d = c + submenu(strings.display_density, density);
    let e = d + submenu(strings.popup_layout, layout);
    understood_parts(a, submenu(strings.session_window_label, short_window), features);
    understood_parts(b, seq![MenuStep::Separator], features);
    understood_parts(c, submenu(strings.display_density, density), features);
    understood_parts(d, submenu(strings.popup_layout, layout), features);
    understood_parts(e, submenu(strings.app_theme, theme), features);
    reveal(display_entries);
}

/// Every entry of the menu is a command that the build carries out.
pub proof fn every_entry_is_understood(input: MenuInput, languages: Languages)
    ensures
        all_understood(menu_steps(input, languages), input.features),
{
    let features = input.features;
    let prefs = input.prefs;
    let strings = languages.strings(prefs.language);
    let top = seq![
        item(IDM_REFRESH, strings.refresh, false),
        item(IDM_RESET_POSITION, strings.reset_position, false),
        MenuStep::Separator,
        item(IDM_TOGGLE_WIDGET, strings.show_widget, prefs.widget_visible),
        item(IDM_ALWAYS_ON_TOP, strings.always_on_top, prefs.always_on_top),
        item(IDM_START_WITH_WINDOWS, strings.start_with_windows, input.startup_enabled),
        MenuStep::Separator,
    ];
    assert(all_understood(top, features)) by {
        assert(id_of(Command::Refresh) == IDM_REFRESH);
        assert(id_of(Command::ResetPosition) == IDM_RESET_POSITION);
        assert(id_of(Command::ToggleWidget) == IDM_TOGGLE_WIDGET);
        assert(id_of(Command::ToggleAlwaysOnTop) == IDM_ALWAYS_ON_TOP);
        assert(id_of(Command::ToggleStartup) == IDM_START_WITH_WINDOWS);
    }
    let bottom = seq![MenuStep::Separator, item(IDM_EXIT, strings.exit, false)];
    assert(all_understood(bottom, features)) by {
        assert(id_of(Command::Exit) == IDM_EXIT);
    }
    choices_are_understood(prefs, languages, strings, features);
    languages_are_understood(prefs.language_override, languages, strings, features);
    providers_are_understood(input, strings);
    display_is_understood(prefs, strings, features);
    let frequency = frequency_entries(prefs.poll_interval_ms, strings);
    let providers = provider_entries(input, strings);
    let display = display_entries(prefs, strings);
    let language = language_entries(prefs.language_override, languages, strings);
    let plan = github_copilot_plan_entries(prefs.github_copilot_plan, strings);
    let help = help_entries(input, strings);
    understood_submenu(strings.update_frequency, frequency, features);
    understood_submenu(strings.displayed_ai, providers, features);
    understood_submenu(strings.display_settings, display, features);
    understood_submenu(strings.language, language, features);
    understood_submenu(strings.github_copilot, plan, features);
    understood_submenu(strings.help, help, features);
    let a = top + submenu(strings.update_frequency, frequency);
    let b = a + submenu(strings.displayed_ai, providers);
    let c = b + submenu(strings.display_settings, display);
    let d = c + submenu(strings.language, language);
    let e = d + submenu(strings.github_copilot, plan);
    let f = e + submenu(strings.help, help);
    understood_parts(top, submenu(strings.update_frequency, frequency), features);
    understood_parts(a, submenu(strings.displayed_ai, providers), features);
    understood_parts(b, submenu(strings.display_settings, display), features);
    understood_parts(c, submenu(strings.language, language), features);
    understood_parts(d, submenu(strings.github_copilot, plan), features);
    understood_parts(e, submenu(strings.help, help), features);
    understood_parts(f, bottom, features);
}

/// Whether what a command sets is already so.
pub open spec fn is_in_effect(command: Command, input: MenuInput) -> bool {
    let prefs = input.prefs;
    match command {
        Command::ToggleStartup => input.startup_enabled,
        Command::ToggleAlwaysOnTop => prefs.always_on_top,
        Command::ToggleWidget => prefs.widget_visible,
        Command::SetInterval(frequency) => prefs.poll_interval_ms == frequency.interval_ms(),
        Command::ToggleProvider(id) => is_family_shown(prefs, id),
        Command::SetPlan(plan) => prefs.github_copilot_plan == plan,
        Command::SetLanguage(language) => prefs.language_override == language,
        Command::SetBasis(basis) => prefs.display_basis == basis,
        Command::SetDensity(density) => prefs.display_density == density,
        Command::SetLayout(layout) => prefs.popup_layout == layout,
        Command::SetTheme(theme) => prefs.app_theme == theme,
        Command::SetVisibility(visibility) => prefs.short_window_visibility == visibility,
        Command::SetSensitivity(sensitivity) => prefs.short_window_alert_sensitivity == sensitivity,
        _ => false,
    }
}

/// What the entry of a command says.
pub open spec fn words_of(command: Command, languages: Languages, strings: Strings) -> &'static str
    recommends
        !(command is VersionAction),
{
    match command {
        Command::Refresh => strings.refresh,
        Command::Exit => strings.exit,
        Command::ResetPosition => strings.reset_position,
        Command::ToggleStartup => strings.start_with_windows,
        Command::ToggleAlwaysOnTop => strings.always_on_top,
        Command::ToggleWidget => strings.show_widget,
        Command::VersionAction => strings.help,
        Command::SetInterval(PollFrequency::OneMinute) => strings.one_minute,
        Command::SetInterval(PollFrequency::FiveMinutes) => strings.five_minutes,
        Command::SetInterval(PollFrequency::FifteenMinutes) => strings.fifteen_minutes,
        Command::SetInterval(PollFrequency::OneHour) => strings.one_hour,
        Command::ToggleProvider(QuotaFamilyId::Claude) => strings.claude_code_model,
        Command::ToggleProvider(QuotaFamilyId::Codex) => strings.codex_model,
        Command::ToggleProvider(QuotaFamilyId::Antigravity) => strings.antigravity_model,
        Command::ToggleProvider(QuotaFamilyId::GithubCopilot) => strings.github_copilot,
        Command::SetPlan(GithubCopilotPlan::Unknown) => strings.github_copilot_plan_unknown,
        Command::SetPlan(GithubCopilotPlan::Pro) => strings.github_copilot_plan_pro,
        Command::SetPlan(GithubCopilotPlan::ProPlus) => strings.github_copilot_plan_pro_plus,
        Command::SetPlan(GithubCopilotPlan::Max) => strings.github_copilot_plan_max,
        Command::SetLanguage(None) => strings.system_default,
        Command::SetLanguage(Some(language)) => languages.pack(language).native_name,
        Command::SetBasis(DisplayBasis::UsedPercentage) => strings.used_percentage,
        Command::SetBasis(DisplayBasis::RemainingAllowance) => strings.remaining_allowance,
        Command::SetDensity(DisplayDensity::Compact) => strings.display_density_compact,
        Command::SetDensity(DisplayDensity::Standard) => strings.standard_level,
        Command::SetDensity(DisplayDensity::Detailed) => strings.display_density_detailed,
        Command::SetLayout(PopupLayout::Compact) => strings.popup_layout_compact,
        Command::SetLayout(PopupLayout::Standard) => strings.popup_layout_standard,
        Command::SetTheme(AppTheme::RecommendedDark) => strings.app_theme_recommended_dark,
        Command::SetTheme(AppTheme::Light) => strings.app_theme_light,
        Command::SetTheme(AppTheme::HighVisibility) => strings.app_theme_high_visibility,
        Command::SetVisibility(ShortWindowVisibility::Always) => {
            strings.short_window_visibility_always
        },
        Command::SetVisibility(ShortWindowVisibility::WarningOnly) => {
            strings.short_window_visibility_warning_only
        },
        Command::SetVisibility(ShortWindowVisibility::Hidden) => {
            strings.short_window_visibility_hidden
        },
        Command::SetSensitivity(ShortWindowAlertSensitivity::Sensitive) => {
            strings.short_window_alert_sensitivity_sensitive
        },
        Command::SetSensitivity(ShortWindowAlertSensitivity::Standard) => strings.standard_level,
        Command::SetSensitivity(ShortWindowAlertSensitivity::Relaxed) => {
            strings.short_window_alert_sensitivity_relaxed
        },
    }
}

/// The entry of a command: under its id and in its words, checked while what it sets is so.
pub open spec fn entry_of(
    command: Command,
    input: MenuInput,
    languages: Languages,
    strings: Strings,
) -> MenuStep {
    MenuStep::Item {
        id: id_of(command),
        label: words_of(command, languages, strings),
        checked: is_in_effect(command, input),
    }
}

proof fn lemma_in_parts(a: Seq<MenuStep>, b: Seq<MenuStep>, step: MenuStep)
    ensures
        a.contains(step) || b.contains(step) ==> (a + b).contains(step),
{
    if a.contains(step) {
        let i = choose|i: int| 0 <= i < a.len() && a[i] == step;
        assert((a + b)[i] == step);
    } else if b.contains(step) {
        let i = choose|i: int| 0 <= i < b.len() && b[i] == step;
        assert((a + b)[a.len() + i] == step);
    }
}

proof fn lemma_in_submenu(label: &'static str, inner: Seq<MenuStep>, step: MenuStep)
    ensures
        inner.contains(step) ==> submenu(label, inner).contains(step),
{
    lemma_in_parts(seq![MenuStep::Open { label }], inner, step);
    lemma_in_parts(seq![MenuStep::Open { label }] + inner, seq![MenuStep::Close], step);
}

proof fn lemma_choice_has_its_entry(
    command: Command,
    input: MenuInput,
    languages: Languages,
    strings: Strings,
)
    ensures
        ({
            let prefs = input.prefs;
            let step = entry_of(command, input, languages, strings);
            match command {
                Command::SetInterval(_) => frequency_entries(
                    prefs.poll_interval_ms,
                    strings,
                ).contains(step),
                Command::SetPlan(_) => github_copilot_plan_entries(
                    prefs.github_copilot_plan,
                    strings,
                ).contains(step),
                Command::SetBasis(_) => display_basis_entries(
                    prefs.display_basis,
                    strings,
                ).contains(step),
                Command::SetDensity(_) => display_density_entries(
                    prefs.display_density,
                    strings,
                ).contains(step),
                Command::SetLayout(_) => popup_layout_entries(prefs.popup_layout, strings).contains(
                    step,
                ),
                Command::SetTheme(_) => app_theme_entries(prefs.app_theme, strings).contains(step),
                Command::SetVisibility(_) => short_window_visibility_entries(
                    prefs.short_window_visibility,
                    strings,
                ).contains(step),
                Command::SetSensitivity(_) => short_window_alert_sensitivity_entries(
                    prefs.short_window_alert_sensitivity,
                    strings,
                ).contains(step),
                _ => true,
            }
        }),
{
    let prefs = input.prefs;
    let step = entry_of(command, input, languages, strings);
    match command {
        Command::SetInterval(frequency) => {
            reveal(frequency_entries);
            let steps = frequency_entries(prefs.poll_interval_ms, strings);
            assert(steps.contains(step)) by {
                match frequency {
                    PollFrequency::OneMinute => assert(steps[0] == step),
                    PollFrequency::FiveMinutes => assert(steps[1] == step),
                    PollFrequency::FifteenMinutes => assert(steps[2] == step),
                    PollFrequency::OneHour => assert(steps[3] == step),
                }
            }
        },
        Command::SetPlan(plan) => {
            reveal(github_copilot_plan_entries);
            let steps = github_copilot_plan_entries(prefs.github_copilot_plan, strings);
            assert(steps.contains(step)) by {
                match plan {
                    GithubCopilotPlan::Unknown => assert(steps[0] == step),
                    GithubCopilotPlan::Pro => assert(steps[1] == step),
                    GithubCopilotPlan::ProPlus => assert(steps[2] == step),
                    GithubCopilotPlan::Max => assert(steps[3] == step),
                }
            }
        },
        Command::SetBasis(basis) => {
            reveal(display_basis_entries);
            let steps = display_basis_entries(prefs.display_basis, strings);
            assert(steps.contains(step)) by {
                match basis {
                    DisplayBasis::UsedPercentage => assert(steps[0] == step),
                    DisplayBasis::RemainingAllowance => assert(steps[1] == step),
                }
            }
        },
        Command::SetDensity(density) => {
            reveal(display_density_entries);
            let steps = display_density_entries(prefs.display_density, strings);
            assert(steps.contains(step)) by {
                match density {
                    DisplayDensity::Compact => assert(steps[0] == step),
                    DisplayDensity::Standard => assert(steps[1] == step),
                    DisplayDensity::Detailed => assert(steps[2] == step),
                }
            }
        },
        Command::SetLayout(layout) => {
            reveal(popup_layout_entries);
            let steps = popup_layout_entries(prefs.popup_layout, strings);
            assert(steps.contains(step)) by {
                match layout {
                    PopupLayout::Compact => assert(steps[0] == step),
                    PopupLayout::Standard => assert(steps[1] == step),
                }
            }
        },
        Command::SetTheme(theme) => {
            reveal(app_theme_entries);
            let steps = app_theme_entries(prefs.app_theme, strings);
            assert(steps.contains(step)) by {
                match theme {
                    AppTheme::RecommendedDark => assert(steps[0] == step),
                    AppTheme::Light => assert(steps[1] == step),
                    AppTheme::HighVisibility => assert(steps[2] == step),
                }
            }
        },
        Command::SetVisibility(visibility) => {
            reveal(short_window_visibility_entries);
            let steps = short_window_visibility_entries(prefs.short_window_visibility, strings);
            assert(steps.contains(step)) by {
                match visibility {
                    ShortWindowVisibility::Always => assert(steps[0] == step),
                    ShortWindowVisibility::WarningOnly => assert(steps[1] == step),
                    ShortWindowVisibility::Hidden => assert(steps[2] == step),
                }
            }
        },
        Command::SetSensitivity(sensitivity) => {
            reveal(short_window_alert_sensitivity_entries);
            let steps = short_window_alert_sensitivity_entries(
                prefs.short_window_alert_sensitivity,
                strings,
            );
            assert(steps.contains(step)) by {
                match sensitivity {
                    ShortWindowAlertSensitivity::Sensitive => assert(steps[0] == step),
                    ShortWindowAlertSensitivity::Standard => assert(steps[1] == step),
                    ShortWindowAlertSensitivity::Relaxed => assert(steps[2] == step),
                }
            }
        },
        _ => {},
    }
}

proof fn lemma_language_has_its_entry(
    language: Option<LanguageId>,
    input: MenuInput,
    languages: Languages,
    strings: Strings,
)
    ensures
        language_entries(input.prefs.language_override, languages, strings).contains(
            entry_of(Command::SetLanguage(language), input, languages, strings),
        ),
{
    reveal(language_entries);
    let steps = language_entries(input.prefs.language_override, languages, strings);
    let step = entry_of(Command::SetLanguage(language), input, languages, strings);
    match language {
        None => assert(steps[0] == step),
        Some(LanguageId::English) => assert(steps[1] == step),
        Some(LanguageId::Dutch) => assert(steps[2] == step),
        Some(LanguageId::Spanish) => assert(steps[3] == step),
        Some(LanguageId::French) => assert(steps[4] == step),
        Some(LanguageId::German) => assert(steps[5] == step),
        Some(LanguageId::Japanese) => assert(steps[6] == step),
        Some(LanguageId::Korean) => assert(steps[7] == step),
        Some(LanguageId::TraditionalChinese) => assert(steps[8] == step),
        Some(LanguageId::SimplifiedChinese) => assert(steps[9] == step),
        Some(LanguageId::Russian) => assert(steps[10] == step),
        Some(LanguageId::PortugueseBrazil) => assert(steps[11] == step),
    }
}

proof fn lemma_provider_has_its_entry(
    id: QuotaFamilyId,
    input: MenuInput,
    languages: Languages,
    strings: Strings,
)
    requires
        is_offered(Command::ToggleProvider(id), input.features),
    ensures
        provider_entries(input, strings).contains(
            entry_of(Command::ToggleProvider(id), input, languages, strings),
        ),
{
    reveal(provider_entries);
    let steps = provider_entries(input, strings);
    let step = entry_of(Command::ToggleProvider(id), input, languages, strings);
    match id {
        QuotaFamilyId::Claude => assert(steps[0] == step),
        QuotaFamilyId::Codex => assert(steps[1] == step),
        QuotaFamilyId::Antigravity => assert(steps[2] == step),
        QuotaFamilyId::GithubCopilot => assert(steps[steps.len() - 1] == step),
    }
}

proof fn lemma_display_choice_has_its_entry(
    command: Command,
    input: MenuInput,
    languages: Languages,
    strings: Strings,
)
    requires
        command is SetBasis || command is SetDensity || command is SetLayout || command is SetTheme
            || command is SetVisibility || command is SetSensitivity,
    ensures
        display_entries(input.prefs, strings).contains(
            entry_of(command, input, languages, strings),
        ),
{
    let prefs = input.prefs;
    let step = entry_of(command, input, languages, strings);
    lemma_choice_has_its_entry(command, input, languages, strings);
    let basis = display_basis_entries(prefs.display_basis, strings);
    let visibility = short_window_visibility_entries(prefs.short_window_visibility, strings);
    let sensitivity = short_window_alert_sensitivity_entries(
        prefs.short_window_alert_sensitivity,
        strings,
    );
    let density = display_density_entries(prefs.display_density, strings);
    let layout = popup_layout_entries(prefs.popup_layout, strings);
    let theme = app_theme_entries(prefs.app_theme, strings);
    lemma_in_submenu(strings.usage_display_basis, basis, step);
    lemma_in_submenu(strings.short_window_visibility, visibility, step);
    lemma_in_submenu(strings.short_window_alert_sensitivity, sensitivity, step);
    lemma_in_submenu(strings.display_density, density, step);
    lemma_in_submenu(strings.popup_layout, layout, step);
    lemma_in_submenu(strings.app_theme, theme, step);
    let short_window = submenu(strings.short_window_visibility, visibility) + submenu(
        strings.short_window_alert_sensitivity,
        sensitivity,
    );
    lemma_in_parts(
        submenu(strings.short_window_visibility, visibility),
        submenu(strings.short_window_alert_sensitivity, sensitivity),
        step,
    );
    lemma_in_submenu(strings.session_window_label, short_window, step);
    let a = submenu(strings.usage_display_basis, basis);
    let b = a + submenu(strings.session_window_label, short_window);
    let c = b + seq![MenuStep::Separator];
    let d = c + submenu(strings.display_density, density);
    let e = d + submenu(strings.popup_layout, layout);
    lemma_in_parts(a, submenu(strings.session_window_label, short_window), step);
    lemma_in_parts(b, seq![MenuStep::Separator], step);
    lemma_in_parts(c, submenu(strings.display_density, density), step);
    lemma_in_parts(d, submenu(strings.popup_layout, layout), step);
    lemma_in_parts(e, submenu(strings.app_theme, theme), step);
    reveal(display_entries);
}

/// Every command that the build knows has its entry in the menu: under its own id, in its
/// own words, and checked just while what it sets is so. An update has the version entry
/// instead, which is grayed while one goes on.
pub proof fn every_command_has_its_entry(
    command: Command,
    input: MenuInput,
    languages: Languages,
)
    requires
        is_offered(command, input.features),
    ensures
        ({
            let steps = menu_steps(input, languages);
            if command is VersionAction {
                steps.contains(MenuStep::Version { grayed: input.update_busy })
            } else {
                steps.contains(
                    entry_of(command, input, languages, languages.strings(input.prefs.language)),
                )
            }
        }),
{
    let prefs = input.prefs;
    let strings = languages.strings(prefs.language);
    let top = seq![
        item(IDM_REFRESH, strings.refresh, false),
        item(IDM_RESET_POSITION, strings.reset_position, false),
        MenuStep::Separator,
        item(IDM_TOGGLE_WIDGET, strings.show_widget, prefs.widget_visible),
        item(IDM_ALWAYS_ON_TOP, strings.always_on_top, prefs.always_on_top),
        item(IDM_START_WITH_WINDOWS, strings.start_with_windows, input.startup_enabled),
        MenuStep::Separator,
    ];
    let bottom = seq![MenuStep::Separator, item(IDM_EXIT, strings.exit, false)];
    let frequency = frequency_entries(prefs.poll_interval_ms, strings);
    let providers = provider_entries(input, strings);
    let display = display_entries(prefs, strings);
    let language = language_entries(prefs.language_override, languages, strings);
    let plan = github_copilot_plan_entries(prefs.github_copilot_plan, strings);
    let help = help_entries(input, strings);
    let step = if command is VersionAction {
        MenuStep::Version { grayed: input.update_busy }
    } else {
        entry_of(command, input, languages, strings)
    };
    match command {
        Command::Refresh => assert(top[0] == step),
        Command::ResetPosition => assert(top[1] == step),
        Command::ToggleWidget => assert(top[3] == step),
        Command::ToggleAlwaysOnTop => assert(top[4] == step),
        Command::ToggleStartup => assert(top[5] == step),
        Command::Exit => assert(bottom[1] == step),
        Command::VersionAction => {
            reveal(help_entries);
            assert(help[4] == step);
        },
        Command::SetInterval(_) => {
            lemma_choice_has_its_entry(command, input, languages, strings);
        },
        Command::SetPlan(_) => {
            lemma_choice_has_its_entry(command, input, languages, strings);
        },
        Command::ToggleProvider(id) => {
            lemma_provider_has_its_entry(id, input, languages, strings);
        },
        Command::SetLanguage(chosen) => {
            lemma_language_has_its_entry(chosen, input, languages, strings);
        },
        _ => {
            lemma_display_choice_has_its_entry(command, input, languages, strings);
        },
    }
    lemma_in_submenu(strings.update_frequency, frequency, step);
    lemma_in_submenu(strings.displayed_ai, providers, step);
    lemma_in_submenu(strings.display_settings, display, step);
    lemma_in_submenu(strings.language, language, step);
    lemma_in_submenu(strings.github_copilot, plan, step);
    lemma_in_submenu(strings.help, help, step);
    let a = top + submenu(strings.update_frequency, frequency);
    let b = a + submenu(strings.displayed_ai, providers);
    let c = b + submenu(strings.display_settings, display);
    let d = c + submenu(strings.language, language);
    let e = d + submenu(strings.github_copilot, plan);
    let f = e + submenu(strings.help, help);
    lemma_in_parts(top, submenu(strings.update_frequency, frequency), step);
    lemma_in_parts(a, submenu(strings.displayed_ai, providers), step);
    lemma_in_parts(b, submenu(strings.display_settings, display), step);
    lemma_in_parts(c, submenu(strings.language, language), step);
    lemma_in_parts(d, submenu(strings.github_copilot, plan), step);
    lemma_in_parts(e, submenu(strings.help, help), step);
    lemma_in_parts(f, bottom, step);
}

/// An interval that is none of those on offer counts as fifteen minutes in the menu.
pub proof fn any_other_interval_is_marked_as_fifteen_minutes(interval: u32, strings: Strings)
    requires
        forall|frequency: PollFrequency| #[trigger] frequency.interval_ms() != interval,
    ensures
        frequency_entries(interval, strings).last() matches MenuStep::Radio { selected, .. }
            && selected == id_of(Command::SetInterval(PollFrequency::FifteenMinutes)),
{
    reveal(frequency_entries);
    assert(PollFrequency::OneMinute.interval_ms() != interval);
    assert(PollFrequency::FiveMinutes.interval_ms() != interval);
    assert(PollFrequency::OneHour.interval_ms() != interval);
}

/// The polling intervals are as long as they are called.
pub proof fn intervals_are_as_long_as_they_are_called(minutes: u32)
    ensures
        forall|frequency: PollFrequency| #[trigger]
            frequency.interval_ms() == 60_000 * minutes ==> (match frequency {
                PollFrequency::OneMinute => minutes == 1,
                PollFrequency::FiveMinutes => minutes == 5,
                PollFrequency::FifteenMinutes => minutes == 15,
                PollFrequency::OneHour => minutes == 60,
            }),
        forall|frequency: PollFrequency| (#[trigger] frequency.interval_ms()) % 60_000 == 0,
{
}

/// The menu shows the state as it is: its preferences, and whether an update goes on.
pub proof fn menu_shows_the_state(s: AppState, startup_enabled: bool, features: Features)
    ensures
        ({
            let input = input_of(Some(s), startup_enabled, features);
            &&& input.prefs == s.prefs
            &&& input.startup_enabled == startup_enabled
            &&& input.features == features
            &&& input.update_busy <==> s.update_status is Checking || s.update_status is Applying
        }),
{
}

} // verus!
