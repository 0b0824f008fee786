//! The state of the running widget and what it shows.

use vstd::prelude::*;

use crate::cells::{
    banked_reset_text, bar_and_number_agree, cached_section, display_value,
    format_banked_reset_text, percent_text, quota_item_section, render_cell,
    render_generic_quota_item, rendered_cell, rendered_item, status_text, CellDisplay, CellState,
    CellView,
};
use crate::geometry::{
    active_family_count, sc, scaled, total_widget_width_for, widget_width_logical,
    HorizontalResizeSession, TEXT_WIDTH,
};
use crate::models::{
    find_item, AppUsageData, BankedResetCount, QuotaFamilyId, QuotaItem,
    UsageSection, GITHUB_COPILOT_MONTHLY_ITEM_ID, SESSION_ITEM_ID, WEEKLY_ITEM_ID,
};
use crate::numbers::Quantity;
use crate::pace::{
    cell_session_lines, cell_weekly_lines, cell_weekly_remaining,
    compact_weekly_remaining_for_cell, pace_view, session_pace_for_cell, short_window_lines,
    weekly_lines, weekly_pace_for_cell, weekly_remaining_text, PaceGuidanceLines, PaceView,
};
use crate::paint::is_family_shown;
use crate::poll::held;
use crate::rows::{
    extra_lines, extra_lines_shown, header_bottom, height_device, needed_height_fits,
    pace_row_layout, row_cell_shows, session_row_cell_shows, session_row_visible, visible_rows,
    weekly_pace_extra_lines_shown, widget_height_for_rows, without_monthly_row, VisibleRows,
    WIDGET_HEIGHT,
};
use crate::settings::{
    AppTheme, DisplayBasis, DisplayDensity, GithubCopilotPlan, LanguageId, PopupLayout,
    ShortWindowAlertSensitivity, ShortWindowVisibility,
};
use crate::strings::{Languages, Strings};
use crate::time::{text_view, Timestamp};

verus! {

/// Everything that the user chose and that outlives the process.
#[derive(Clone, Copy, Debug, PartialEq, Eq)]
pub struct Preferences {
    pub language_override: Option<LanguageId>,
    pub language: LanguageId,
    pub display_basis: DisplayBasis,
    pub display_density: DisplayDensity,
    pub short_window_visibility: ShortWindowVisibility,
    pub short_window_alert_sensitivity: ShortWindowAlertSensitivity,
    pub popup_layout: PopupLayout,
    pub app_theme: AppTheme,
    pub show_claude_code: bool,
    pub show_codex: bool,
    pub show_antigravity: bool,
    pub show_github_copilot: bool,
    pub github_copilot_plan: GithubCopilotPlan,
    pub poll_interval_ms: u32,
    pub last_update_check_unix: Option<u64>,
    pub taskbar_index: usize,
    pub tray_offset: i32,
    pub manual_position: Option<(i32, i32)>,
    pub widget_width_logical: Option<i32>,
    pub widget_visible: bool,
    pub always_on_top: bool,
}

impl Preferences {
    /// At least one provider is shown.
    pub open spec fn shows_a_provider(self) -> bool {
        self.show_claude_code || self.show_codex || self.show_antigravity
            || self.show_github_copilot
    }

    /// How many provider columns there are.
    pub fn active_family_count(&self) -> (r: i32)
        ensures
            r == active_family_count(
                self.show_claude_code,
                self.show_codex,
                self.show_antigravity,
                self.show_github_copilot,
            ),
            1 <= r <= 4,
    {
        active_family_count(
            self.show_claude_code,
            self.show_codex,
            self.show_antigravity,
            self.show_github_copilot,
        )
    }
}

/// States of a provider's two windows.
#[derive(Clone, Copy, Debug, PartialEq, Eq, Structural)]
pub struct WindowStates {
    pub session: CellState,
    pub weekly: CellState,
}

/// States of all cells, as the last poll left them.
#[derive(Clone, Copy, Debug, PartialEq, Eq, Structural)]
pub struct CellStates {
    pub claude: WindowStates,
    pub codex: WindowStates,
    pub antigravity: WindowStates,
    pub github_copilot: CellState,
    pub codex_banked_reset_count: BankedResetCount,
}

impl CellStates {
    /// Every cell waiting for data; the banked-reset count stays.
    pub open spec fn spec_loading(self) -> CellStates {
        let waiting = WindowStates { session: CellState::Loading, weekly: CellState::Loading };
        CellStates {
            claude: waiting,
            codex: waiting,
            antigravity: waiting,
            github_copilot: CellState::Loading,
            codex_banked_reset_count: self.codex_banked_reset_count,
        }
    }

    #[verifier::when_used_as_spec(spec_loading)]
    pub fn loading(self) -> (r: CellStates)
        ensures
            r == self.spec_loading(),
    {
        let waiting: WindowStates = WindowStates {
            session: CellState::Loading,
            weekly: CellState::Loading,
        };
        CellStates {
            claude: waiting,
            codex: waiting,
            antigravity: waiting,
            github_copilot: CellState::Loading,
            codex_banked_reset_count: self.codex_banked_reset_count,
        }
    }
}

/// What one window of a provider shows.
#[derive(Debug)]
pub struct ShownWindow {
    pub percent: Option<Quantity>,
    pub text: String,
    pub pace: Option<PaceGuidanceLines>,
}

/// What a provider shows.
#[derive(Debug)]
pub struct ShownProvider {
    pub session: ShownWindow,
    pub weekly: ShownWindow,
    pub weekly_remaining_text: Option<String>,
}

/// Everything the popup shows about usage.
#[derive(Debug)]
pub struct ShownUsage {
    pub claude: ShownProvider,
    pub codex: ShownProvider,
    pub codex_banked_reset_text: String,
    pub antigravity: ShownProvider,
    pub github_copilot: CellDisplay,
}

/// What one window shows, as a value.
pub struct WindowView {
    pub percent: Option<Quantity>,
    pub text: Seq<char>,
    pub pace: Option<PaceView>,
}

/// What a provider shows, as a value.
pub struct ProviderView {
    pub session: WindowView,
    pub weekly: WindowView,
    pub weekly_remaining_text: Option<Seq<char>>,
}

/// Everything the popup shows about usage, as a value.
pub struct UsageView {
    pub claude: ProviderView,
    pub codex: ProviderView,
    pub codex_banked_reset_text: Seq<char>,
    pub antigravity: ProviderView,
    pub github_copilot: CellView,
}

impl View for ShownWindow {
    type V = WindowView;

    open spec fn view(&self) -> WindowView {
        WindowView { percent: self.percent, text: self.text@, pace: pace_view(self.pace) }
    }
}

impl View for ShownProvider {
    type V = ProviderView;

    open spec fn view(&self) -> ProviderView {
        ProviderView {
            session: self.session@,
            weekly: self.weekly@,
            weekly_remaining_text: text_view(self.weekly_remaining_text),
        }
    }
}

impl View for ShownUsage {
    type V = UsageView;

    open spec fn view(&self) -> UsageView {
        UsageView {
            claude: self.claude@,
            codex: self.codex@,
            codex_banked_reset_text: self.codex_banked_reset_text@,
            antigravity: self.antigravity@,
            github_copilot: self.github_copilot@,
        }
    }
}

/// What a provider shows, given its states, the cache and the preferences.
pub open spec fn provider_shown(
    states: WindowStates,
    data: Option<AppUsageData>,
    family: QuotaFamilyId,
    prefs: Preferences,
    now: Timestamp,
    strings: Strings,
) -> ProviderView {
    let session = cached_section(data, family, SESSION_ITEM_ID@);
    let weekly = cached_section(data, family, WEEKLY_ITEM_ID@);
    let session_cell = rendered_cell(states.session, session, prefs.display_basis, now, strings);
    let weekly_cell = rendered_cell(states.weekly, weekly, prefs.display_basis, now, strings);
    ProviderView {
        session: WindowView {
            percent: session_cell.bar_percent,
            text: session_cell.text,
            pace: cell_session_lines(
                states.session,
                session,
                now,
                prefs.display_basis,
                prefs.short_window_visibility,
                prefs.short_window_alert_sensitivity,
                strings,
            ),
        },
        weekly: WindowView {
            percent: weekly_cell.bar_percent,
            text: weekly_cell.text,
            pace: cell_weekly_lines(
                states.weekly,
                weekly,
                now,
                prefs.display_basis,
                prefs.display_density,
                strings,
            ),
        },
        weekly_remaining_text: cell_weekly_remaining(states.weekly, weekly, now, strings),
    }
}

fn show_provider(
    states: WindowStates,
    data: &Option<AppUsageData>,
    family: QuotaFamilyId,
    prefs: Preferences,
    now: Timestamp,
    strings: Strings,
) -> (r: ShownProvider)
    ensures
        r@ == provider_shown(states, *data, family, prefs, now, strings),
{
    let basis: DisplayBasis = prefs.display_basis;
    let session_section: Option<UsageSection> = quota_item_section(data, family, SESSION_ITEM_ID);
    let weekly_section: Option<UsageSection> = quota_item_section(data, family, WEEKLY_ITEM_ID);
    let session: CellDisplay = render_cell(states.session, session_section, basis, now, strings);
    let session_pace: Option<PaceGuidanceLines> = session_pace_for_cell(
        states.session,
        session_section,
        now,
        basis,
        prefs.short_window_visibility,
        prefs.short_window_alert_sensitivity,
        strings,
    );
    let weekly: CellDisplay = render_cell(states.weekly, weekly_section, basis, now, strings);
    let weekly_pace: Option<PaceGuidanceLines> = weekly_pace_for_cell(
        states.weekly,
        weekly_section,
        now,
        basis,
        prefs.display_density,
        strings,
    );
    let weekly_remaining_text: Option<String> = compact_weekly_remaining_for_cell(
        states.weekly,
        weekly_section,
        now,
        strings,
    );
    ShownProvider {
        session: ShownWindow {
            percent: session.bar_percent,
            text: session.text,
            pace: session_pace,
        },
        weekly: ShownWindow { percent: weekly.bar_percent, text: weekly.text, pace: weekly_pace },
        weekly_remaining_text,
    }
}

/// The Copilot item that the cache holds.
pub open spec fn copilot_item(data: Option<AppUsageData>) -> Option<QuotaItem> {
    match held(data, QuotaFamilyId::GithubCopilot) {
        Some(family) => find_item(family.items, GITHUB_COPILOT_MONTHLY_ITEM_ID@),
        None => None,
    }
}

/// Everything the popup shows: a function of the cells' states, the cache, the
/// preferences, the time and the language.
pub open spec fn usage_shown(
    states: CellStates,
    data: Option<AppUsageData>,
    prefs: Preferences,
    now: Timestamp,
    strings: Strings,
) -> UsageView {
    UsageView {
        claude: provider_shown(states.claude, data, QuotaFamilyId::Claude, prefs, now, strings),
        codex: provider_shown(states.codex, data, QuotaFamilyId::Codex, prefs, now, strings),
        codex_banked_reset_text: banked_reset_text(states.codex_banked_reset_count, strings),
        antigravity: provider_shown(
            states.antigravity,
            data,
            QuotaFamilyId::Antigravity,
            prefs,
            now,
            strings,
        ),
        github_copilot: rendered_item(
            states.github_copilot,
            copilot_item(data),
            prefs.display_basis,
            now,
            strings,
        ),
    }
}

/// Builds everything the popup shows.
pub fn show_usage(
    states: CellStates,
    data: &Option<AppUsageData>,
    prefs: Preferences,
    now: Timestamp,
    strings: Strings,
) -> (r: ShownUsage)
    ensures
        r@ == usage_shown(states, *data, prefs, now, strings),
{
    let item: Option<&QuotaItem> = match data {
        Some(data) => match data.family(QuotaFamilyId::GithubCopilot) {
            Some(family) => family.item(GITHUB_COPILOT_MONTHLY_ITEM_ID),
            None => None,
        },
        None => None,
    };
    let github_copilot: CellDisplay = render_generic_quota_item(
        states.github_copilot,
        item,
        prefs.display_basis,
        now,
        strings,
    );
    ShownUsage {
        claude: show_provider(states.claude, data, QuotaFamilyId::Claude, prefs, now, strings),
        codex: show_provider(states.codex, data, QuotaFamilyId::Codex, prefs, now, strings),
        codex_banked_reset_text: format_banked_reset_text(
            states.codex_banked_reset_count,
            strings,
        ),
        antigravity: show_provider(
            states.antigravity,
            data,
            QuotaFamilyId::Antigravity,
            prefs,
            now,
            strings,
        ),
        github_copilot,
    }
}

/// Where a widget build came from.
#[derive(Clone, Copy, Debug, PartialEq, Eq, Structural)]
pub enum InstallChannel {
    Portable,
    Winget,
}

/// A release that can be installed.
#[derive(Debug)]
pub struct ReleaseDescriptor {
    pub latest_version: String,
}

#[derive(Debug)]
pub enum UpdateStatus {
    Idle,
    Checking,
    Applying,
    UpToDate,
    Available(ReleaseDescriptor),
}

/// Which credential sources are watched while polling is paused.
#[derive(Clone, Copy, Debug, PartialEq, Eq, Structural)]
pub enum CredentialWatchMode {
    ActiveSource,
    AllSources,
    Antigravity,
}

/// How polling stands.
#[derive(Debug)]
pub struct PollingState {
    pub retry_count: u32,
    pub force_notify_auth_error: bool,
    pub auth_error_paused_polling: bool,
    pub auth_watch_mode: CredentialWatchMode,
    /// One stamp per watched credential source.
    pub auth_watch_snapshot: Vec<u64>,
    pub last_poll_ok: bool,
}

/// A drag or a resize in progress.
#[derive(Clone, Copy, Debug, PartialEq, Eq)]
pub struct PointerState {
    pub dragging: bool,
    pub drag_start_mouse: (i32, i32),
    pub drag_start_window: (i32, i32),
    pub resize_session: Option<HorizontalResizeSession>,
}

/// The state of the running widget.
#[derive(Debug)]
pub struct AppState {
    pub is_dark: bool,
    pub embedded: bool,
    pub install_channel: InstallChannel,
    pub prefs: Preferences,
    pub states: CellStates,
    pub shown: ShownUsage,
    pub data: Option<AppUsageData>,
    pub polling: PollingState,
    pub update_status: UpdateStatus,
    pub pointer: PointerState,
}

/// Two states that agree on everything but what they show.
pub open spec fn same_but_shown(a: AppState, b: AppState) -> bool {
    &&& a.is_dark == b.is_dark
    &&& a.embedded == b.embedded
    &&& a.install_channel == b.install_channel
    &&& a.prefs == b.prefs
    &&& a.states == b.states
    &&& a.data == b.data
    &&& a.polling == b.polling
    &&& a.update_status == b.update_status
    &&& a.pointer == b.pointer
}

impl AppState {
    /// What the popup shows is up to date with everything else.
    pub open spec fn shows_current(self, now: Timestamp, languages: Languages) -> bool {
        self.shown@ == usage_shown(
            self.states,
            self.data,
            self.prefs,
            now,
            languages.strings(self.prefs.language),
        )
    }
}

/// Recomputes every text, bar and pace line from the cache, the cells' states and
/// the preferences. Nothing else changes.
pub fn refresh_usage_texts(state: &mut AppState, now: Timestamp, languages: &Languages)
    ensures
        same_but_shown(*final(state), *old(state)),
        final(state).shows_current(now, *languages),
{
    let strings: Strings = languages.strings(state.prefs.language);
    state.shown = show_usage(state.states, &state.data, state.prefs, now, strings);
}

/// A window that is not ready shows no bar and no pace text, and its text is its
/// status word: what the cache still holds for it never reaches the screen.
pub proof fn stale_data_is_never_shown(
    states: CellStates,
    data: Option<AppUsageData>,
    prefs: Preferences,
    now: Timestamp,
    strings: Strings,
)
    ensures
        !(states.claude.session is Ready) ==> is_status_only(
            usage_shown(states, data, prefs, now, strings).claude.session,
            states.claude.session,
            strings,
        ),
        !(states.claude.weekly is Ready) ==> is_status_only(
            usage_shown(states, data, prefs, now, strings).claude.weekly,
            states.claude.weekly,
            strings,
        ) && usage_shown(states, data, prefs, now, strings).claude.weekly_remaining_text is None,
        !(states.codex.session is Ready) ==> is_status_only(
            usage_shown(states, data, prefs, now, strings).codex.session,
            states.codex.session,
            strings,
        ),
        !(states.codex.weekly is Ready) ==> is_status_only(
            usage_shown(states, data, prefs, now, strings).codex.weekly,
            states.codex.weekly,
            strings,
        ) && usage_shown(states, data, prefs, now, strings).codex.weekly_remaining_text is None,
        !(states.antigravity.session is Ready) ==> is_status_only(
            usage_shown(states, data, prefs, now, strings).antigravity.session,
            states.antigravity.session,
            strings,
        ),
        !(states.antigravity.weekly is Ready) ==> is_status_only(
            usage_shown(states, data, prefs, now, strings).antigravity.weekly,
            states.antigravity.weekly,
            strings,
        ) && usage_shown(
            states,
            data,
            prefs,
            now,
            strings,
        ).antigravity.weekly_remaining_text is None,
        !(states.github_copilot is Ready) ==> usage_shown(
            states,
            data,
            prefs,
            now,
            strings,
        ).github_copilot == (CellView {
            bar_percent: None,
            text: status_text(states.github_copilot, strings)@,
        }),
{
}

/// A window that shows nothing but the word of its status.
pub open spec fn is_status_only(window: WindowView, state: CellState, strings: Strings) -> bool {
    window.percent is None && window.pace is None && window.text == status_text(state, strings)@
}

// ---- rows and size of the popup --------------------------------------------

/// Extra weekly lines that the shown providers need.
pub open spec fn extra_lines_of(shown: UsageView, prefs: Preferences) -> int {
    extra_lines_shown(
        prefs.show_claude_code,
        shown.claude.weekly.pace,
        prefs.show_codex,
        shown.codex.weekly.pace,
        prefs.show_antigravity,
        shown.antigravity.weekly.pace,
    )
}

/// Whether a provider keeps the short-window row.
pub open spec fn window_keeps_row(
    state: CellState,
    window: WindowView,
    visibility: ShortWindowVisibility,
) -> bool {
    row_cell_shows(state, window.percent, window.text, window.pace, visibility)
}

/// Whether any shown provider keeps the short-window row.
pub open spec fn session_row_needed(
    states: CellStates,
    shown: UsageView,
    prefs: Preferences,
) -> bool {
    let visibility = prefs.short_window_visibility;
    session_row_visible(
        prefs.show_claude_code,
        window_keeps_row(states.claude.session, shown.claude.session, visibility),
        prefs.show_codex,
        window_keeps_row(states.codex.session, shown.codex.session, visibility),
        prefs.show_antigravity,
        window_keeps_row(states.antigravity.session, shown.antigravity.session, visibility),
    )
}

/// The rows that the popup shows.
pub open spec fn rows_of(states: CellStates, shown: UsageView, prefs: Preferences) -> VisibleRows {
    visible_rows(
        prefs.popup_layout,
        extra_lines_of(shown, prefs) as i32,
        session_row_needed(states, shown, prefs),
    )
}

pub fn weekly_pace_extra_lines(state: &AppState) -> (r: i32)
    ensures
        r == extra_lines_of(state.shown@, state.prefs),
        0 <= r <= 2,
{
    weekly_pace_extra_lines_shown(
        state.prefs.show_claude_code,
        state.shown.claude.weekly.pace.as_ref(),
        state.prefs.show_codex,
        state.shown.codex.weekly.pace.as_ref(),
        state.prefs.show_antigravity,
        state.shown.antigravity.weekly.pace.as_ref(),
    )
}

fn keeps_row(state: CellState, window: &ShownWindow, visibility: ShortWindowVisibility) -> (r: bool)
    ensures
        r == window_keeps_row(state, window@, visibility),
{
    session_row_cell_shows(
        state,
        window.percent,
        window.text.as_str(),
        window.pace.as_ref(),
        visibility,
    )
}

pub fn needs_session_row(state: &AppState) -> (r: bool)
    ensures
        r == session_row_needed(state.states, state.shown@, state.prefs),
{
    let visibility: ShortWindowVisibility = state.prefs.short_window_visibility;
    session_row_visible(
        state.prefs.show_claude_code,
        keeps_row(state.states.claude.session, &state.shown.claude.session, visibility),
        state.prefs.show_codex,
        keeps_row(state.states.codex.session, &state.shown.codex.session, visibility),
        state.prefs.show_antigravity,
        keeps_row(state.states.antigravity.session, &state.shown.antigravity.session, visibility),
    )
}

/// The rows of the popup; both its height and its drawing start from them.
pub fn visible_rows_for_state(state: &AppState) -> (r: VisibleRows)
    ensures
        r == rows_of(state.states, state.shown@, state.prefs),
        0 <= r.weekly_extra_lines <= 2,
{
    visible_rows(state.prefs.popup_layout, weekly_pace_extra_lines(state), needs_session_row(state))
}

/// Height of the popup in pixels.
pub fn widget_height_for_state(state: &AppState, dpi: u32) -> (r: i32)
    ensures
        r == height_device(
            rows_of(state.states, state.shown@, state.prefs),
            state.prefs.show_github_copilot,
            dpi,
        ),
{
    widget_height_for_rows(visible_rows_for_state(state), state.prefs.show_github_copilot, dpi)
}

/// Height of the popup in pixels, also before there is a state.
pub fn widget_height(state: &Option<AppState>, dpi: u32) -> (r: i32)
    ensures
        r == (match *state {
            Some(s) => height_device(
                rows_of(s.states, s.shown@, s.prefs),
                s.prefs.show_github_copilot,
                dpi,
            ),
            None => scaled(WIDGET_HEIGHT as int, dpi as int),
        }),
{
    match state {
        Some(s) => widget_height_for_state(s, dpi),
        None => sc(WIDGET_HEIGHT, dpi),
    }
}

/// Where the draggable header band ends.
pub fn header_band_bottom(state: &AppState, dpi: u32) -> (r: i32)
    ensures
        r == header_bottom(
            rows_of(state.states, state.shown@, state.prefs),
            state.prefs.show_github_copilot,
            dpi,
        ),
{
    let rows: VisibleRows = visible_rows_for_state(state);
    let height: i32 = without_monthly_row(
        widget_height_for_state(state, dpi),
        rows,
        state.prefs.show_github_copilot,
        dpi,
    );
    proof {
        needed_height_fits(rows, dpi);
    }
    pace_row_layout(height, rows, dpi).weekly_row_y
}

/// The default width in pixels for the shown providers.
pub fn total_widget_width_for_state(state: &AppState, dpi: u32) -> (r: i32)
    ensures
        r == scaled(
            widget_width_logical(families_of(state.prefs) as int, TEXT_WIDTH as int),
            dpi as int,
        ),
{
    total_widget_width_for(state.prefs.active_family_count(), dpi)
}

/// The default width in pixels, also before there is a state.
pub fn total_widget_width(state: &Option<AppState>, dpi: u32) -> (r: i32)
    ensures
        r == scaled(
            widget_width_logical(
                match *state {
                    Some(s) => families_of(s.prefs) as int,
                    None => 1,
                },
                TEXT_WIDTH as int,
            ),
            dpi as int,
        ),
{
    match state {
        Some(s) => total_widget_width_for_state(s, dpi),
        None => total_widget_width_for(1, dpi),
    }
}

/// How many provider columns the preferences ask for.
pub open spec fn families_of(prefs: Preferences) -> i32 {
    active_family_count(
        prefs.show_claude_code,
        prefs.show_codex,
        prefs.show_antigravity,
        prefs.show_github_copilot,
    )
}

/// The theme changes colors only: the rows, and with them the height, stay.
pub proof fn theme_never_changes_rows(
    states: CellStates,
    data: Option<AppUsageData>,
    prefs: Preferences,
    theme: AppTheme,
    now: Timestamp,
    strings: Strings,
)
    ensures
        rows_of(
            states,
            usage_shown(
                states,
                data,
                (Preferences { app_theme: theme, ..prefs }),
                now,
                strings,
            ),
            (Preferences { app_theme: theme, ..prefs }),
        ) == rows_of(states, usage_shown(states, data, prefs, now, strings), prefs),
{
}

/// A provider that is not shown affects neither the rows nor the height.
pub proof fn hidden_provider_never_changes_rows(
    states: CellStates,
    other_states: CellStates,
    shown: UsageView,
    other_shown: UsageView,
    prefs: Preferences,
)
    requires
        prefs.show_claude_code ==> states.claude == other_states.claude && shown.claude
            == other_shown.claude,
        prefs.show_codex ==> states.codex == other_states.codex && shown.codex
            == other_shown.codex,
        prefs.show_antigravity ==> states.antigravity == other_states.antigravity
            && shown.antigravity == other_shown.antigravity,
    ensures
        rows_of(states, shown, prefs) == rows_of(other_states, other_shown, prefs),
{
}

// ---- each provider on its own -----------------------------------------------------------

/// What a provider with two windows shows.
pub open spec fn view_of(shown: UsageView, id: QuotaFamilyId) -> ProviderView
    recommends
        !(id is GithubCopilot),
{
    match id {
        QuotaFamilyId::Claude => shown.claude,
        QuotaFamilyId::Codex => shown.codex,
        _ => shown.antigravity,
    }
}

/// The states of a provider with two windows.
pub open spec fn states_of(states: CellStates, id: QuotaFamilyId) -> WindowStates
    recommends
        !(id is GithubCopilot),
{
    match id {
        QuotaFamilyId::Claude => states.claude,
        QuotaFamilyId::Codex => states.codex,
        _ => states.antigravity,
    }
}

/// Whether a window shows an item of the cache: its used share as bar and number.
pub open spec fn shows_item(
    window: WindowView,
    data: Option<AppUsageData>,
    id: QuotaFamilyId,
    item_id: Seq<char>,
    basis: DisplayBasis,
) -> bool {
    let item = match held(data, id) {
        Some(family) => find_item(family.items, item_id),
        None => None,
    };
    match item {
        Some(item) => match item.used() {
            Some(used) => window.percent == Some(display_value(basis, used)) && percent_text(
                display_value(basis, used),
            ).is_prefix_of(window.text),
            None => window.percent is None,
        },
        None => window.percent is None && window.pace is None,
    }
}

/// A provider's ready windows show the items that the cache holds for that same provider:
/// the session window its session item, the weekly window its weekly item. The guidance
/// and the time left are those of the same items.
pub proof fn ready_windows_show_their_own_items(
    states: CellStates,
    data: Option<AppUsageData>,
    prefs: Preferences,
    now: Timestamp,
    strings: Strings,
    id: QuotaFamilyId,
)
    requires
        !(id is GithubCopilot),
    ensures
        ({
            let view = view_of(usage_shown(states, data, prefs, now, strings), id);
            let session = cached_section(data, id, "session"@);
            let weekly = cached_section(data, id, "weekly"@);
            &&& states_of(states, id).session is Ready ==> {
                &&& shows_item(view.session, data, id, "session"@, prefs.display_basis)
                &&& session matches Some(section) ==> view.session.pace == short_window_lines(
                    Some(section.percentage),
                    section.resets_at,
                    now,
                    prefs.display_basis,
                    prefs.short_window_visibility,
                    prefs.short_window_alert_sensitivity,
                    strings,
                )
            }
            &&& states_of(states, id).weekly is Ready ==> {
                &&& shows_item(view.weekly, data, id, "weekly"@, prefs.display_basis)
                &&& weekly matches Some(section) ==> view.weekly.pace == weekly_lines(
                    Some(section.percentage),
                    section.resets_at,
                    now,
                    prefs.display_basis,
                    prefs.display_density,
                    strings,
                ) && view.weekly_remaining_text == weekly_remaining_text(
                    section.resets_at,
                    now,
                    strings,
                )
            }
        }),
{
    let session = cached_section(data, id, "session"@);
    let weekly = cached_section(data, id, "weekly"@);
    if let Some(section) = session {
        bar_and_number_agree(section, prefs.display_basis, now, strings);
    }
    if let Some(section) = weekly {
        bar_and_number_agree(section, prefs.display_basis, now, strings);
    }
}

/// What a provider shows depends on its own states and its own part of the cache only:
/// whatever the others hold, it stays the same.
pub proof fn providers_do_not_show_each_others_usage(
    states: CellStates,
    data: Option<AppUsageData>,
    other_states: CellStates,
    other_data: Option<AppUsageData>,
    prefs: Preferences,
    now: Timestamp,
    strings: Strings,
    id: QuotaFamilyId,
)
    requires
        held(data, id) == held(other_data, id),
        id is GithubCopilot ==> states.github_copilot == other_states.github_copilot,
        !(id is GithubCopilot) ==> states_of(states, id) == states_of(other_states, id),
    ensures
        ({
            let a = usage_shown(states, data, prefs, now, strings);
            let b = usage_shown(other_states, other_data, prefs, now, strings);
            if id is GithubCopilot {
                a.github_copilot == b.github_copilot
            } else {
                view_of(a, id) == view_of(b, id)
            }
        }),
{
    assert(cached_section(data, id, SESSION_ITEM_ID@) == cached_section(
        other_data,
        id,
        SESSION_ITEM_ID@,
    ));
    assert(cached_section(data, id, WEEKLY_ITEM_ID@) == cached_section(
        other_data,
        id,
        WEEKLY_ITEM_ID@,
    ));
}

/// What the popup tells goes by four choices only: the basis, the density, and how the
/// short window is shown and judged.
pub proof fn only_display_choices_change_what_is_shown(
    states: CellStates,
    data: Option<AppUsageData>,
    prefs: Preferences,
    other: Preferences,
    now: Timestamp,
    strings: Strings,
)
    requires
        prefs.display_basis == other.display_basis,
        prefs.display_density == other.display_density,
        prefs.short_window_visibility == other.short_window_visibility,
        prefs.short_window_alert_sensitivity == other.short_window_alert_sensitivity,
    ensures
        usage_shown(states, data, prefs, now, strings) == usage_shown(
            states,
            data,
            other,
            now,
            strings,
        ),
{
}

/// The ready Copilot cell shows the monthly item that the cache holds for Copilot.
pub proof fn ready_copilot_shows_its_monthly_item(
    states: CellStates,
    data: Option<AppUsageData>,
    prefs: Preferences,
    now: Timestamp,
    strings: Strings,
)
    requires
        states.github_copilot is Ready,
        held(data, QuotaFamilyId::GithubCopilot) is Some,
    ensures
        ({
            let cell = usage_shown(states, data, prefs, now, strings).github_copilot;
            let items = held(data, QuotaFamilyId::GithubCopilot)->0.items;
            match find_item(items, "monthly"@) {
                Some(item) => !(item.availability is Unavailable) ==> match item.used() {
                    Some(used) => cell.bar_percent == Some(
                        display_value(prefs.display_basis, used),
                    ),
                    None => cell.bar_percent is None,
                },
                None => cell.bar_percent is None && cell.text == strings.not_available@,
            }
        }),
{
}

/// The count of banked resets that is shown is the one of the cells' states.
pub proof fn banked_resets_are_shown(
    states: CellStates,
    data: Option<AppUsageData>,
    prefs: Preferences,
    now: Timestamp,
    strings: Strings,
)
    ensures
        ({
            let text = usage_shown(states, data, prefs, now, strings).codex_banked_reset_text;
            match states.codex_banked_reset_count {
                BankedResetCount::Available(n) => crate::numbers::decimal(n as nat).is_suffix_of(
                    text,
                ),
                BankedResetCount::Unavailable => strings.not_available@.is_suffix_of(text),
            }
        }),
{
    crate::cells::banked_resets_are_told_by_their_number(
        states.codex_banked_reset_count,
        strings,
    );
}

/// The popup reserves as many extra lines as the shown provider with the most needs, and
/// a short-window row exactly where some shown provider keeps one; the compact layout has
/// neither.
pub proof fn rows_are_those_that_shown_providers_need(
    states: CellStates,
    shown: UsageView,
    prefs: Preferences,
)
    ensures
        ({
            let rows = rows_of(states, shown, prefs);
            let visibility = prefs.short_window_visibility;
            &&& prefs.popup_layout is Compact ==> rows.weekly_extra_lines == 0 && !rows.session_row
            &&& prefs.popup_layout is Standard ==> {
                &&& forall|id: QuotaFamilyId|
                    !(id is GithubCopilot) && is_family_shown(prefs, id) ==> extra_lines(
                        (#[trigger] view_of(shown, id)).weekly.pace,
                    ) <= rows.weekly_extra_lines
                &&& rows.weekly_extra_lines == 0 || exists|id: QuotaFamilyId|
                    !(id is GithubCopilot) && is_family_shown(prefs, id) && extra_lines(
                        (#[trigger] view_of(shown, id)).weekly.pace,
                    ) == rows.weekly_extra_lines
                &&& rows.session_row <==> exists|id: QuotaFamilyId|
                    !(id is GithubCopilot) && is_family_shown(prefs, id) && window_keeps_row(
                        states_of(states, id).session,
                        (#[trigger] view_of(shown, id)).session,
                        visibility,
                    )
            }
        }),
{
    let visibility = prefs.short_window_visibility;
    let a = view_of(shown, QuotaFamilyId::Claude);
    let b = view_of(shown, QuotaFamilyId::Codex);
    let c = view_of(shown, QuotaFamilyId::Antigravity);
    assert(a == shown.claude && b == shown.codex && c == shown.antigravity);
    let rows = rows_of(states, shown, prefs);
    if prefs.popup_layout is Standard {
        if prefs.show_claude_code && window_keeps_row(states.claude.session, a.session, visibility) {
            assert(is_family_shown(prefs, QuotaFamilyId::Claude));
        }
        if prefs.show_codex && window_keeps_row(states.codex.session, b.session, visibility) {
            assert(is_family_shown(prefs, QuotaFamilyId::Codex));
        }
        if prefs.show_antigravity && window_keeps_row(
            states.antigravity.session,
            c.session,
            visibility,
        ) {
            assert(is_family_shown(prefs, QuotaFamilyId::Antigravity));
        }
        assert forall|id: QuotaFamilyId|
            !(id is GithubCopilot) && is_family_shown(prefs, id) implies extra_lines(
            (#[trigger] view_of(shown, id)).weekly.pace,
        ) <= rows.weekly_extra_lines by {
            match id {
                QuotaFamilyId::Claude => {},
                QuotaFamilyId::Codex => {},
                QuotaFamilyId::Antigravity => {},
                QuotaFamilyId::GithubCopilot => {},
            }
        }
    }
}

/// As many provider columns as there are shown providers, at least one.
pub proof fn one_column_per_shown_provider(prefs: Preferences)
    ensures
        ({
            let one = |id: QuotaFamilyId|
                if is_family_shown(prefs, id) {
                    1int
                } else {
                    0int
                };
            let count = one(QuotaFamilyId::Claude) + one(QuotaFamilyId::Codex) + one(
                QuotaFamilyId::Antigravity,
            ) + one(QuotaFamilyId::GithubCopilot);
            families_of(prefs) == if count == 0 {
                1
            } else {
                count
            }
        }),
{
}

/// While new data is awaited every cell of every provider waits; the banked resets that
/// are known stay.
pub proof fn loading_waits_for_every_provider(states: CellStates, id: QuotaFamilyId)
    ensures
        ({
            let waiting = states.loading();
            &&& !(id is GithubCopilot) ==> states_of(waiting, id).session is Loading && states_of(
                waiting,
                id,
            ).weekly is Loading
            &&& waiting.github_copilot is Loading
            &&& waiting.codex_banked_reset_count == states.codex_banked_reset_count
        }),
{
}

} // verus!
