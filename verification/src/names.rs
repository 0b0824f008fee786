//! The names under which choices are saved.

use vstd::prelude::*;

use crate::json::{read_variant_name, variant_name, JsonValue, JsonView};
use crate::settings::{
    AppTheme, DisplayBasis, DisplayDensity, GithubCopilotPlan, PopupLayout,
    ShortWindowAlertSensitivity, ShortWindowVisibility,
};

verus! {

/// Whether two texts are the same.
pub fn same_text(a: &str, b: &str) -> (r: bool)
    ensures
        r == (a@ == b@),
{
    a.to_owned() == b.to_owned()
}

impl DisplayBasis {
    pub open spec fn spec_name(self) -> &'static str {
        match self {
            DisplayBasis::UsedPercentage => "used_percentage",
            DisplayBasis::RemainingAllowance => "remaining_allowance",
        }
    }

    /// The name under which the choice is saved.
    #[verifier::when_used_as_spec(spec_name)]
    pub fn name(self) -> (r: &'static str)
        ensures
            r@ == self.spec_name()@,
    {
        match self {
            DisplayBasis::UsedPercentage => "used_percentage",
            DisplayBasis::RemainingAllowance => "remaining_allowance",
        }
    }

    /// The choice with a saved name.
    pub open spec fn named(name: Seq<char>) -> Option<DisplayBasis> {
        if name == "used_percentage"@ {
            Some(DisplayBasis::UsedPercentage)
        } else if name == "remaining_allowance"@ {
            Some(DisplayBasis::RemainingAllowance)
        } else {
            None
        }
    }

    /// Finds the choice with a saved name.
    pub fn from_name(name: &str) -> (r: Option<DisplayBasis>)
        ensures
            r == DisplayBasis::named(name@),
    {
        if same_text(name, "used_percentage") {
            Some(DisplayBasis::UsedPercentage)
        } else if same_text(name, "remaining_allowance") {
            Some(DisplayBasis::RemainingAllowance)
        } else {
            None
        }
    }

    /// What a field holds of this choice. A field that is not there, or holds
    /// anything unknown, means the default.
    pub open spec fn in_field(field: Option<JsonView>) -> DisplayBasis {
        match field {
            Some(value) => match variant_name(value) {
                Some(name) => match DisplayBasis::named(name) {
                    Some(choice) => choice,
                    None => DisplayBasis::UsedPercentage,
                },
                None => DisplayBasis::UsedPercentage,
            },
            None => DisplayBasis::UsedPercentage,
        }
    }

    /// Reads this choice from a field.
    pub fn from_field(field: Option<&JsonValue>) -> (r: DisplayBasis)
        ensures
            r == DisplayBasis::in_field(crate::json::field_view(field)),
    {
        match field {
            Some(value) => match read_variant_name(value) {
                Some(name) => match DisplayBasis::from_name(name) {
                    Some(choice) => choice,
                    None => DisplayBasis::UsedPercentage,
                },
                None => DisplayBasis::UsedPercentage,
            },
            None => DisplayBasis::UsedPercentage,
        }
    }
}

/// Reading a saved name gives the choice back.
pub proof fn display_basis_name_round_trips(choice: DisplayBasis)
    ensures
        DisplayBasis::named(choice.name()@) == Some(choice),
{
    reveal_strlit("used_percentage");
    reveal_strlit("remaining_allowance");
    assert("used_percentage"@.len() == 15 && "used_percentage"@[0] == 'u');
    assert("remaining_allowance"@.len() == 19 && "remaining_allowance"@[0] == 'r');
}

impl DisplayDensity {
    pub open spec fn spec_name(self) -> &'static str {
        match self {
            DisplayDensity::Compact => "compact",
            DisplayDensity::Standard => "standard",
            DisplayDensity::Detailed => "detailed",
        }
    }

    /// The name under which the choice is saved.
    #[verifier::when_used_as_spec(spec_name)]
    pub fn name(self) -> (r: &'static str)
        ensures
            r@ == self.spec_name()@,
    {
        match self {
            DisplayDensity::Compact => "compact",
            DisplayDensity::Standard => "standard",
            DisplayDensity::Detailed => "detailed",
        }
    }

    /// The choice with a saved name.
    pub open spec fn named(name: Seq<char>) -> Option<DisplayDensity> {
        if name == "compact"@ {
            Some(DisplayDensity::Compact)
        } else if name == "standard"@ {
            Some(DisplayDensity::Standard)
        } else if name == "detailed"@ {
            Some(DisplayDensity::Detailed)
        } else {
            None
        }
    }

    /// Finds the choice with a saved name.
    pub fn from_name(name: &str) -> (r: Option<DisplayDensity>)
        ensures
            r == DisplayDensity::named(name@),
    {
        if same_text(name, "compact") {
            Some(DisplayDensity::Compact)
        } else if same_text(name, "standard") {
            Some(DisplayDensity::Standard)
        } else if same_text(name, "detailed") {
            Some(DisplayDensity::Detailed)
        } else {
            None
        }
    }

    /// What a field holds of this choice. A field that is not there, or holds
    /// anything unknown, means the default.
    pub open spec fn in_field(field: Option<JsonView>) -> DisplayDensity {
        match field {
            Some(value) => match variant_name(value) {
                Some(name) => match DisplayDensity::named(name) {
                    Some(choice) => choice,
                    None => DisplayDensity::Standard,
                },
                None => DisplayDensity::Standard,
            },
            None => DisplayDensity::Standard,
        }
    }

    /// Reads this choice from a field.
    pub fn from_field(field: Option<&JsonValue>) -> (r: DisplayDensity)
        ensures
            r == DisplayDensity::in_field(crate::json::field_view(field)),
    {
        match field {
            Some(value) => match read_variant_name(value) {
                Some(name) => match DisplayDensity::from_name(name) {
                    Some(choice) => choice,
                    None => DisplayDensity::Standard,
                },
                None => DisplayDensity::Standard,
            },
            None => DisplayDensity::Standard,
        }
    }
}

/// Reading a saved name gives the choice back.
pub proof fn display_density_name_round_trips(choice: DisplayDensity)
    ensures
        DisplayDensity::named(choice.name()@) == Some(choice),
{
    reveal_strlit("compact");
    reveal_strlit("standard");
    reveal_strlit("detailed");
    assert("compact"@.len() == 7 && "compact"@[0] == 'c');
    assert("standard"@.len() == 8 && "standard"@[0] == 's');
    assert("detailed"@.len() == 8 && "detailed"@[0] == 'd');
}

impl PopupLayout {
    pub open spec fn spec_name(self) -> &'static str {
        match self {
            PopupLayout::Compact => "compact",
            PopupLayout::Standard => "standard",
        }
    }

    /// The name under which the choice is saved.
    #[verifier::when_used_as_spec(spec_name)]
    pub fn name(self) -> (r: &'static str)
        ensures
            r@ == self.spec_name()@,
    {
        match self {
            PopupLayout::Compact => "compact",
            PopupLayout::Standard => "standard",
        }
    }

    /// The choice with a saved name.
    pub open spec fn named(name: Seq<char>) -> Option<PopupLayout> {
        if name == "compact"@ {
            Some(PopupLayout::Compact)
        } else if name == "standard"@ {
            Some(PopupLayout::Standard)
        } else {
            None
        }
    }

    /// Finds the choice with a saved name.
    pub fn from_name(name: &str) -> (r: Option<PopupLayout>)
        ensures
            r == PopupLayout::named(name@),
    {
        if same_text(name, "compact") {
            Some(PopupLayout::Compact)
        } else if same_text(name, "standard") {
            Some(PopupLayout::Standard)
        } else {
            None
        }
    }

    /// What a field holds of this choice. A field that is not there, or holds
    /// anything unknown, means the default.
    pub open spec fn in_field(field: Option<JsonView>) -> PopupLayout {
        match field {
            Some(value) => match variant_name(value) {
                Some(name) => match PopupLayout::named(name) {
                    Some(choice) => choice,
                    None => PopupLayout::Compact,
                },
                None => PopupLayout::Compact,
            },
            None => PopupLayout::Compact,
        }
    }

    /// Reads this choice from a field.
    pub fn from_field(field: Option<&JsonValue>) -> (r: PopupLayout)
        ensures
            r == PopupLayout::in_field(crate::json::field_view(field)),
    {
        match field {
            Some(value) => match read_variant_name(value) {
                Some(name) => match PopupLayout::from_name(name) {
                    Some(choice) => choice,
                    None => PopupLayout::Compact,
                },
                None => PopupLayout::Compact,
            },
            None => PopupLayout::Compact,
        }
    }
}

/// Reading a saved name gives the choice back.
pub proof fn popup_layout_name_round_trips(choice: PopupLayout)
    ensures
        PopupLayout::named(choice.name()@) == Some(choice),
{
    reveal_strlit("compact");
    reveal_strlit("standard");
    assert("compact"@.len() == 7 && "compact"@[0] == 'c');
    assert("standard"@.len() == 8 && "standard"@[0] == 's');
}

impl AppTheme {
    pub open spec fn spec_name(self) -> &'static str {
        match self {
            AppTheme::RecommendedDark => "recommended_dark",
            AppTheme::Light => "light",
            AppTheme::HighVisibility => "high_visibility",
        }
    }

    /// The name under which the choice is saved.
    #[verifier::when_used_as_spec(spec_name)]
    pub fn name(self) -> (r: &'static str)
        ensures
            r@ == self.spec_name()@,
    {
        match self {
            AppTheme::RecommendedDark => "recommended_dark",
            AppTheme::Light => "light",
            AppTheme::HighVisibility => "high_visibility",
        }
    }

    /// The choice with a saved name.
    pub open spec fn named(name: Seq<char>) -> Option<AppTheme> {
        if name == "recommended_dark"@ {
            Some(AppTheme::RecommendedDark)
        } else if name == "light"@ {
            Some(AppTheme::Light)
        } else if name == "high_visibility"@ {
            Some(AppTheme::HighVisibility)
        } else {
            None
        }
    }

    /// Finds the choice with a saved name.
    pub fn from_name(name: &str) -> (r: Option<AppTheme>)
        ensures
            r == AppTheme::named(name@),
    {
        if same_text(name, "recommended_dark") {
            Some(AppTheme::RecommendedDark)
        } else if same_text(name, "light") {
            Some(AppTheme::Light)
        } else if same_text(name, "high_visibility") {
            Some(AppTheme::HighVisibility)
        } else {
            None
        }
    }

    /// What a field holds of this choice. A field that is not there, or holds
    /// anything unknown, means the default.
    pub open spec fn in_field(field: Option<JsonView>) -> AppTheme {
        match field {
            Some(value) => match variant_name(value) {
                Some(name) => match AppTheme::named(name) {
                    Some(choice) => choice,
                    None => AppTheme::RecommendedDark,
                },
                None => AppTheme::RecommendedDark,
            },
            None => AppTheme::RecommendedDark,
        }
    }

    /// Reads this choice from a field.
    pub fn from_field(field: Option<&JsonValue>) -> (r: AppTheme)
        ensures
            r == AppTheme::in_field(crate::json::field_view(field)),
    {
        match field {
            Some(value) => match read_variant_name(value) {
                Some(name) => match AppTheme::from_name(name) {
                    Some(choice) => choice,
                    None => AppTheme::RecommendedDark,
                },
                None => AppTheme::RecommendedDark,
            },
            None => AppTheme::RecommendedDark,
        }
    }
}

/// Reading a saved name gives the choice back.
pub proof fn app_theme_name_round_trips(choice: AppTheme)
    ensures
        AppTheme::named(choice.name()@) == Some(choice),
{
    reveal_strlit("recommended_dark");
    reveal_strlit("light");
    reveal_strlit("high_visibility");
    assert("recommended_dark"@.len() == 16 && "recommended_dark"@[0] == 'r');
    assert("light"@.len() == 5 && "light"@[0] == 'l');
    assert("high_visibility"@.len() == 15 && "high_visibility"@[0] == 'h');
}

impl ShortWindowVisibility {
    pub open spec fn spec_name(self) -> &'static str {
        match self {
            ShortWindowVisibility::Always => "always",
            ShortWindowVisibility::WarningOnly => "warning_only",
            ShortWindowVisibility::Hidden => "hidden",
        }
    }

    /// The name under which the choice is saved.
    #[verifier::when_used_as_spec(spec_name)]
    pub fn name(self) -> (r: &'static str)
        ensures
            r@ == self.spec_name()@,
    {
        match self {
            ShortWindowVisibility::Always => "always",
            ShortWindowVisibility::WarningOnly => "warning_only",
            ShortWindowVisibility::Hidden => "hidden",
        }
    }

    /// The choice with a saved name.
    pub open spec fn named(name: Seq<char>) -> Option<ShortWindowVisibility> {
        if name == "always"@ {
            Some(ShortWindowVisibility::Always)
        } else if name == "warning_only"@ {
            Some(ShortWindowVisibility::WarningOnly)
        } else if name == "hidden"@ {
            Some(ShortWindowVisibility::Hidden)
        } else {
            None
        }
    }

    /// Finds the choice with a saved name.
    pub fn from_name(name: &str) -> (r: Option<ShortWindowVisibility>)
        ensures
            r == ShortWindowVisibility::named(name@),
    {
        if same_text(name, "always") {
            Some(ShortWindowVisibility::Always)
        } else if same_text(name, "warning_only") {
            Some(ShortWindowVisibility::WarningOnly)
        } else if same_text(name, "hidden") {
            Some(ShortWindowVisibility::Hidden)
        } else {
            None
        }
    }

    /// What a field holds of this choice. A field that is not there, or holds
    /// anything unknown, means the default.
    pub open spec fn in_field(field: Option<JsonView>) -> ShortWindowVisibility {
        match field {
            Some(value) => match variant_name(value) {
                Some(name) => match ShortWindowVisibility::named(name) {
                    Some(choice) => choice,
                    None => ShortWindowVisibility::WarningOnly,
                },
                None => ShortWindowVisibility::WarningOnly,
            },
            None => ShortWindowVisibility::WarningOnly,
        }
    }

    /// Reads this choice from a field.
    pub fn from_field(field: Option<&JsonValue>) -> (r: ShortWindowVisibility)
        ensures
            r == ShortWindowVisibility::in_field(crate::json::field_view(field)),
    {
        match field {
            Some(value) => match read_variant_name(value) {
                Some(name) => match ShortWindowVisibility::from_name(name) {
                    Some(choice) => choice,
                    None => ShortWindowVisibility::WarningOnly,
                },
                None => ShortWindowVisibility::WarningOnly,
            },
            None => ShortWindowVisibility::WarningOnly,
        }
    }
}

/// Reading a saved name gives the choice back.
pub proof fn short_window_visibility_name_round_trips(choice: ShortWindowVisibility)
    ensures
        ShortWindowVisibility::named(choice.name()@) == Some(choice),
{
    reveal_strlit("always");
    reveal_strlit("warning_only");
    reveal_strlit("hidden");
    assert("always"@.len() == 6 && "always"@[0] == 'a');
    assert("warning_only"@.len() == 12 && "warning_only"@[0] == 'w');
    assert("hidden"@.len() == 6 && "hidden"@[0] == 'h');
}

impl ShortWindowAlertSensitivity {
    pub open spec fn spec_name(self) -> &'static str {
        match self {
            ShortWindowAlertSensitivity::Sensitive => "sensitive",
            ShortWindowAlertSensitivity::Standard => "standard",
            ShortWindowAlertSensitivity::Relaxed => "relaxed",
        }
    }

    /// The name under which the choice is saved.
    #[verifier::when_used_as_spec(spec_name)]
    pub fn name(self) -> (r: &'static str)
        ensures
            r@ == self.spec_name()@,
    {
        match self {
            ShortWindowAlertSensitivity::Sensitive => "sensitive",
            ShortWindowAlertSensitivity::Standard => "standard",
            ShortWindowAlertSensitivity::Relaxed => "relaxed",
        }
    }

    /// The choice with a saved name.
    pub open spec fn named(name: Seq<char>) -> Option<ShortWindowAlertSensitivity> {
        if name == "sensitive"@ {
            Some(ShortWindowAlertSensitivity::Sensitive)
        } else if name == "standard"@ {
            Some(ShortWindowAlertSensitivity::Standard)
        } else if name == "relaxed"@ {
            Some(ShortWindowAlertSensitivity::Relaxed)
        } else {
            None
        }
    }

    /// Finds the choice with a saved name.
    pub fn from_name(name: &str) -> (r: Option<ShortWindowAlertSensitivity>)
        ensures
            r == ShortWindowAlertSensitivity::named(name@),
    {
        if same_text(name, "sensitive") {
            Some(ShortWindowAlertSensitivity::Sensitive)
        } else if same_text(name, "standard") {
            Some(ShortWindowAlertSensitivity::Standard)
        } else if same_text(name, "relaxed") {
            Some(ShortWindowAlertSensitivity::Relaxed)
        } else {
            None
        }
    }

    /// What a field holds of this choice. A field that is not there, or holds
    /// anything unknown, means the default.
    pub open spec fn in_field(field: Option<JsonView>) -> ShortWindowAlertSensitivity {
        match field {
            Some(value) => match variant_name(value) {
                Some(name) => match ShortWindowAlertSensitivity::named(name) {
                    Some(choice) => choice,
                    None => ShortWindowAlertSensitivity::Standard,
                },
                None => ShortWindowAlertSensitivity::Standard,
            },
            None => ShortWindowAlertSensitivity::Standard,
        }
    }

    /// Reads this choice from a field.
    pub fn from_field(field: Option<&JsonValue>) -> (r: ShortWindowAlertSensitivity)
        ensures
            r == ShortWindowAlertSensitivity::in_field(crate::json::field_view(field)),
    {
        match field {
            Some(value) => match read_variant_name(value) {
                Some(name) => match ShortWindowAlertSensitivity::from_name(name) {
                    Some(choice) => choice,
                    None => ShortWindowAlertSensitivity::Standard,
                },
                None => ShortWindowAlertSensitivity::Standard,
            },
            None => ShortWindowAlertSensitivity::Standard,
        }
    }
}

/// Reading a saved name gives the choice back.
pub proof fn short_window_alert_sensitivity_name_round_trips(choice: ShortWindowAlertSensitivity)
    ensures
        ShortWindowAlertSensitivity::named(choice.name()@) == Some(choice),
{
    reveal_strlit("sensitive");
    reveal_strlit("standard");
    reveal_strlit("relaxed");
    assert("sensitive"@.len() == 9 && "sensitive"@[0] == 's');
    assert("standard"@.len() == 8 && "standard"@[0] == 's');
    assert("relaxed"@.len() == 7 && "relaxed"@[0] == 'r');
}

impl GithubCopilotPlan {
    pub open spec fn spec_name(self) -> &'static str {
        match self {
            GithubCopilotPlan::Unknown => "unknown",
            GithubCopilotPlan::Pro => "pro",
            GithubCopilotPlan::ProPlus => "pro_plus",
            GithubCopilotPlan::Max => "max",
        }
    }

    /// The name under which the choice is saved.
    #[verifier::when_used_as_spec(spec_name)]
    pub fn name(self) -> (r: &'static str)
        ensures
            r@ == self.spec_name()@,
    {
        match self {
            GithubCopilotPlan::Unknown => "unknown",
            GithubCopilotPlan::Pro => "pro",
            GithubCopilotPlan::ProPlus => "pro_plus",
            GithubCopilotPlan::Max => "max",
        }
    }

    /// The choice with a saved name.
    pub open spec fn named(name: Seq<char>) -> Option<GithubCopilotPlan> {
        if name == "unknown"@ {
            Some(GithubCopilotPlan::Unknown)
        } else if name == "pro"@ {
            Some(GithubCopilotPlan::Pro)
        } else if name == "pro_plus"@ {
            Some(GithubCopilotPlan::ProPlus)
        } else if name == "max"@ {
            Some(GithubCopilotPlan::Max)
        } else {
            None
        }
    }

    /// Finds the choice with a saved name.
    pub fn from_name(name: &str) -> (r: Option<GithubCopilotPlan>)
        ensures
            r == GithubCopilotPlan::named(name@),
    {
        if same_text(name, "unknown") {
            Some(GithubCopilotPlan::Unknown)
        } else if same_text(name, "pro") {
            Some(GithubCopilotPlan::Pro)
        } else if same_text(name, "pro_plus") {
            Some(GithubCopilotPlan::ProPlus)
        } else if same_text(name, "max") {
            Some(GithubCopilotPlan::Max)
        } else {
            None
        }
    }

    /// What a field holds of the plan: unknown where it is not there, and nothing
    /// where it holds anything else than a plan.
    pub open spec fn in_field(field: Option<JsonView>) -> Option<GithubCopilotPlan> {
        match field {
            Some(value) => match variant_name(value) {
                Some(name) => GithubCopilotPlan::named(name),
                None => None,
            },
            None => Some(GithubCopilotPlan::Unknown),
        }
    }

    /// Reads the plan from a field.
    pub fn from_field(field: Option<&JsonValue>) -> (r: Option<GithubCopilotPlan>)
        ensures
            r == GithubCopilotPlan::in_field(crate::json::field_view(field)),
    {
        match field {
            Some(value) => match read_variant_name(value) {
                Some(name) => GithubCopilotPlan::from_name(name),
                None => None,
            },
            None => Some(GithubCopilotPlan::Unknown),
        }
    }
}

/// Reading a saved name gives the choice back.
pub proof fn github_copilot_plan_name_round_trips(choice: GithubCopilotPlan)
    ensures
        GithubCopilotPlan::named(choice.name()@) == Some(choice),
{
    reveal_strlit("unknown");
    reveal_strlit("pro");
    reveal_strlit("pro_plus");
    reveal_strlit("max");
    assert("unknown"@.len() == 7 && "unknown"@[0] == 'u');
    assert("pro"@.len() == 3 && "pro"@[0] == 'p');
    assert("pro_plus"@.len() == 8 && "pro_plus"@[0] == 'p');
    assert("max"@.len() == 3 && "max"@[0] == 'm');
}

} // verus!
