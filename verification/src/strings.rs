//! User-facing words of every language.

use vstd::prelude::*;

use crate::settings::LanguageId;

verus! {

/// The words that the widget shows, in one language. The tables themselves belong
/// to the embedding program; `Strings::default()` is the table of empty words.
#[derive(Clone, Copy, Debug, Default)]
pub struct Strings {
    pub always_on_top: &'static str,
    pub antigravity_model: &'static str,
    pub antigravity_token_expired_body: &'static str,
    pub antigravity_token_expired_title: &'static str,
    pub app_theme: &'static str,
    pub app_theme_high_visibility: &'static str,
    pub app_theme_light: &'static str,
    pub app_theme_recommended_dark: &'static str,
    pub applying_update: &'static str,
    pub authentication_expired: &'static str,
    pub authentication_problem: &'static str,
    pub check_for_updates: &'static str,
    pub checking_for_updates: &'static str,
    pub claude_code_model: &'static str,
    pub codex_model: &'static str,
    pub codex_token_expired_body: &'static str,
    pub codex_token_expired_title: &'static str,
    pub credentials_unavailable: &'static str,
    pub day_suffix: &'static str,
    pub display_density: &'static str,
    pub display_density_compact: &'static str,
    pub display_density_detailed: &'static str,
    pub display_settings: &'static str,
    pub displayed_ai: &'static str,
    pub elapsed: &'static str,
    pub exhaustion_before_reset: &'static str,
    pub exhaustion_label: &'static str,
    pub exit: &'static str,
    pub fetch_failed: &'static str,
    pub fifteen_minutes: &'static str,
    pub five_minutes: &'static str,
    pub full_reset: &'static str,
    pub future_pace_label: &'static str,
    pub github_copilot: &'static str,
    pub github_copilot_plan_max: &'static str,
    pub github_copilot_plan_pro: &'static str,
    pub github_copilot_plan_pro_plus: &'static str,
    pub github_copilot_plan_unknown: &'static str,
    pub help: &'static str,
    pub help_readme_placeholder: &'static str,
    pub help_update_placeholder: &'static str,
    pub help_version_placeholder: &'static str,
    pub hour_suffix: &'static str,
    pub language: &'static str,
    pub loading: &'static str,
    pub minute_suffix: &'static str,
    pub not_available: &'static str,
    pub now: &'static str,
    pub one_hour: &'static str,
    pub one_minute: &'static str,
    pub pace_diff_label: &'static str,
    pub pace_remaining_prefix: &'static str,
    pub pace_used_prefix: &'static str,
    pub per_day_suffix: &'static str,
    pub per_hour_suffix: &'static str,
    pub popup_layout: &'static str,
    pub popup_layout_compact: &'static str,
    pub popup_layout_standard: &'static str,
    pub refresh: &'static str,
    pub remaining_allowance: &'static str,
    pub reset_in: &'static str,
    pub reset_in_separator: &'static str,
    pub reset_position: &'static str,
    pub second_suffix: &'static str,
    pub session_window: &'static str,
    pub session_window_label: &'static str,
    pub short_window_alert_sensitivity: &'static str,
    pub short_window_alert_sensitivity_relaxed: &'static str,
    pub short_window_alert_sensitivity_sensitive: &'static str,
    pub short_window_visibility: &'static str,
    pub short_window_visibility_always: &'static str,
    pub short_window_visibility_hidden: &'static str,
    pub short_window_visibility_warning_only: &'static str,
    pub show_widget: &'static str,
    pub standard_level: &'static str,
    pub start_with_windows: &'static str,
    pub system_default: &'static str,
    pub token_expired_body: &'static str,
    pub token_expired_title: &'static str,
    pub up_to_date: &'static str,
    pub up_to_date_short: &'static str,
    pub update_available: &'static str,
    pub update_failed: &'static str,
    pub update_frequency: &'static str,
    pub update_in_progress: &'static str,
    pub update_prompt_now: &'static str,
    pub update_to: &'static str,
    pub updates: &'static str,
    pub usage_display_basis: &'static str,
    pub used_percentage: &'static str,
    pub weekly_pace_judging: &'static str,
    pub weekly_pace_on_track: &'static str,
    pub weekly_pace_overpacing: &'static str,
    pub weekly_pace_slightly_overpacing: &'static str,
    pub weekly_pace_under_pace: &'static str,
    pub weekly_window: &'static str,
    pub weekly_window_label: &'static str,
    pub window_title: &'static str,
}

/// One language: how it is saved, what it calls itself, and its words.
#[derive(Clone, Copy, Debug, Default)]
pub struct LanguagePack {
    pub code: &'static str,
    pub native_name: &'static str,
    pub update_via_winget: &'static str,
    pub strings: Strings,
}

/// The packs of all languages.
#[derive(Clone, Copy, Debug, Default)]
pub struct Languages {
    pub english: LanguagePack,
    pub dutch: LanguagePack,
    pub spanish: LanguagePack,
    pub french: LanguagePack,
    pub german: LanguagePack,
    pub japanese: LanguagePack,
    pub korean: LanguagePack,
    pub traditional_chinese: LanguagePack,
    pub simplified_chinese: LanguagePack,
    pub russian: LanguagePack,
    pub portuguese_brazil: LanguagePack,
}

impl Languages {
    pub open spec fn spec_pack(self, language: LanguageId) -> LanguagePack {
        match language {
            LanguageId::English => self.english,
            LanguageId::Dutch => self.dutch,
            LanguageId::Spanish => self.spanish,
            LanguageId::French => self.french,
            LanguageId::German => self.german,
            LanguageId::Japanese => self.japanese,
            LanguageId::Korean => self.korean,
            LanguageId::TraditionalChinese => self.traditional_chinese,
            LanguageId::SimplifiedChinese => self.simplified_chinese,
            LanguageId::Russian => self.russian,
            LanguageId::PortugueseBrazil => self.portuguese_brazil,
        }
    }

    /// The pack of a language.
    #[verifier::when_used_as_spec(spec_pack)]
    pub fn pack(self, language: LanguageId) -> (r: LanguagePack)
        ensures
            r == self.spec_pack(language),
    {
        match language {
            LanguageId::English => self.english,
            LanguageId::Dutch => self.dutch,
            LanguageId::Spanish => self.spanish,
            LanguageId::French => self.french,
            LanguageId::German => self.german,
            LanguageId::Japanese => self.japanese,
            LanguageId::Korean => self.korean,
            LanguageId::TraditionalChinese => self.traditional_chinese,
            LanguageId::SimplifiedChinese => self.simplified_chinese,
            LanguageId::Russian => self.russian,
            LanguageId::PortugueseBrazil => self.portuguese_brazil,
        }
    }

    pub open spec fn spec_strings(self, language: LanguageId) -> Strings {
        self.spec_pack(language).strings
    }

    /// The words of a language.
    #[verifier::when_used_as_spec(spec_strings)]
    pub fn strings(self, language: LanguageId) -> (r: Strings)
        ensures
            r == self.spec_strings(language),
    {
        self.pack(language).strings
    }

    /// Whether `language` is the first, in menu order, that is saved as `code`.
    pub open spec fn is_first_with_code(self, language: LanguageId, code: Seq<char>) -> bool {
        &&& self.pack(language).code@ == code
        &&& forall|earlier: LanguageId|
            language_rank(earlier) < language_rank(language) ==> self.pack(earlier).code@ != code
    }

    /// The language that is saved under a code.
    pub fn from_code(self, code: &str) -> (r: Option<LanguageId>)
        ensures
            (match r {
                Some(language) => self.is_first_with_code(language, code@),
                None => forall|language: LanguageId| self.pack(language).code@ != code@,
            }),
    {
        let wanted: String = code.to_owned();
        let all: Vec<LanguageId> = all_languages();
        let mut i: usize = 0;
        while i < all.len()
            invariant
                i <= all.len(),
                is_all_languages(all@),
                wanted@ == code@,
                forall|l: LanguageId|
                    language_rank(l) < i ==> self.pack(l).code@ != code@,
            decreases all.len() - i,
        {
            let language: LanguageId = all[i];
            assert(language_rank(language) == i) by {
                lemma_rank_of_member(all@, i as int);
            }
            if self.pack(language).code.to_owned() == wanted {
                return Some(language);
            }
            assert forall|l: LanguageId| language_rank(l) < i + 1 implies self.pack(l).code@
                != code@ by {
                if language_rank(l) == i {
                    assert(all@[language_rank(l)] == l);
                }
            }
            i += 1;
        }
        assert forall|l: LanguageId| self.pack(l).code@ != code@ by {
            assert(language_rank(l) < 11);
        }
        None
    }
}

/// Place of a language in the language menu.
pub open spec fn language_rank(language: LanguageId) -> int {
    match language {
        LanguageId::English => 0,
        LanguageId::Dutch => 1,
        LanguageId::Spanish => 2,
        LanguageId::French => 3,
        LanguageId::German => 4,
        LanguageId::Japanese => 5,
        LanguageId::Korean => 6,
        LanguageId::TraditionalChinese => 7,
        LanguageId::SimplifiedChinese => 8,
        LanguageId::Russian => 9,
        LanguageId::PortugueseBrazil => 10,
    }
}

/// Every language once, in menu order.
pub open spec fn is_all_languages(all: Seq<LanguageId>) -> bool {
    all.len() == 11 && forall|l: LanguageId|
        0 <= #[trigger] language_rank(l) < 11 && all[language_rank(l)] == l
}

proof fn lemma_rank_of_member(all: Seq<LanguageId>, i: int)
    requires
        0 <= i < 11,
        is_all_languages(all),
    ensures
        language_rank(all[i]) == i,
{
    assert(all[language_rank(LanguageId::English)] == LanguageId::English);
    assert(all[language_rank(LanguageId::Dutch)] == LanguageId::Dutch);
    assert(all[language_rank(LanguageId::Spanish)] == LanguageId::Spanish);
    assert(all[language_rank(LanguageId::French)] == LanguageId::French);
    assert(all[language_rank(LanguageId::German)] == LanguageId::German);
    assert(all[language_rank(LanguageId::Japanese)] == LanguageId::Japanese);
    assert(all[language_rank(LanguageId::Korean)] == LanguageId::Korean);
    assert(all[language_rank(LanguageId::TraditionalChinese)] == LanguageId::TraditionalChinese);
    assert(all[language_rank(LanguageId::SimplifiedChinese)] == LanguageId::SimplifiedChinese);
    assert(all[language_rank(LanguageId::Russian)] == LanguageId::Russian);
    assert(all[language_rank(LanguageId::PortugueseBrazil)] == LanguageId::PortugueseBrazil);
}

/// All languages in menu order.
pub fn all_languages() -> (r: Vec<LanguageId>)
    ensures
        is_all_languages(r@),
{
    vec![
        LanguageId::English,
        LanguageId::Dutch,
        LanguageId::Spanish,
        LanguageId::French,
        LanguageId::German,
        LanguageId::Japanese,
        LanguageId::Korean,
        LanguageId::TraditionalChinese,
        LanguageId::SimplifiedChinese,
        LanguageId::Russian,
        LanguageId::PortugueseBrazil,
    ]
}

pub open spec fn spec_resolve_language(
    language_override: Option<LanguageId>,
    system: LanguageId,
) -> LanguageId {
    match language_override {
        Some(language) => language,
        None => system,
    }
}

/// The language to speak: the user's choice, else the system's.
#[verifier::when_used_as_spec(spec_resolve_language)]
pub fn resolve_language(
    language_override: Option<LanguageId>,
    system: LanguageId,
) -> (r: LanguageId)
    ensures
        r == spec_resolve_language(language_override, system),
{
    match language_override {
        Some(language) => language,
        None => system,
    }
}

} // verus!
