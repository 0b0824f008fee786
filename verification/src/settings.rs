//! What the user can choose, and how it is saved.

use vstd::prelude::*;

verus! {

/// Whether usage numbers and bars show what is used or what is left.
#[derive(Clone, Copy, Debug, PartialEq, Eq, Structural)]
pub enum DisplayBasis {
    UsedPercentage,
    RemainingAllowance,
}

impl Default for DisplayBasis {
    fn default() -> (r: Self)
        ensures
            r is UsedPercentage,
    {
        DisplayBasis::UsedPercentage
    }
}

/// How much pace detail each weekly row carries.
#[derive(Clone, Copy, Debug, PartialEq, Eq, Structural)]
pub enum DisplayDensity {
    Compact,
    Standard,
    Detailed,
}

impl Default for DisplayDensity {
    fn default() -> (r: Self)
        ensures
            r is Standard,
    {
        DisplayDensity::Standard
    }
}

/// Which rows the popup shows; independent of [`DisplayDensity`].
#[derive(Clone, Copy, Debug, PartialEq, Eq, Structural)]
pub enum PopupLayout {
    Compact,
    Standard,
}

impl Default for PopupLayout {
    fn default() -> (r: Self)
        ensures
            r is Compact,
    {
        PopupLayout::Compact
    }
}

/// The popup's own color scheme, independent of the system's.
#[derive(Clone, Copy, Debug, PartialEq, Eq, Structural)]
pub enum AppTheme {
    RecommendedDark,
    Light,
    HighVisibility,
}

impl Default for AppTheme {
    fn default() -> (r: Self)
        ensures
            r is RecommendedDark,
    {
        AppTheme::RecommendedDark
    }
}

/// When the short (5h) window is shown.
#[derive(Clone, Copy, Debug, PartialEq, Eq, Structural)]
pub enum ShortWindowVisibility {
    Always,
    WarningOnly,
    Hidden,
}

impl Default for ShortWindowVisibility {
    fn default() -> (r: Self)
        ensures
            r is WarningOnly,
    {
        ShortWindowVisibility::WarningOnly
    }
}

/// How early the short window warns.
#[derive(Clone, Copy, Debug, PartialEq, Eq, Structural)]
pub enum ShortWindowAlertSensitivity {
    Sensitive,
    Standard,
    Relaxed,
}

impl Default for ShortWindowAlertSensitivity {
    fn default() -> (r: Self)
        ensures
            r is Standard,
    {
        ShortWindowAlertSensitivity::Standard
    }
}

/// The Copilot plan whose allowance is assumed.
#[derive(Clone, Copy, Debug, PartialEq, Eq, Structural)]
pub enum GithubCopilotPlan {
    Unknown,
    Pro,
    ProPlus,
    Max,
}

/// A language that the widget speaks.
#[derive(Clone, Copy, Debug, PartialEq, Eq, Structural)]
pub enum LanguageId {
    English,
    Dutch,
    Spanish,
    French,
    German,
    Japanese,
    Korean,
    TraditionalChinese,
    SimplifiedChinese,
    Russian,
    PortugueseBrazil,
}

/// What a particular build of the widget offers.
#[derive(Clone, Copy, Debug, PartialEq, Eq, Structural)]
pub struct Features {
    pub antigravity: bool,
    pub self_update: bool,
}

} // verus!
