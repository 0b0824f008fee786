//! What one usage cell shows.

use vstd::prelude::*;

use crate::models::{
    cached_family, find_item, left_of, AppUsageData, BankedResetCount, QuotaFamilyId, QuotaItem,
    QuotaItemAvailability, QuotaMetric, UsageSection,
};
use crate::numbers::{
    decimal, fixed, fixed_text, is_numeral, numeral_reads_back, numeral_value,
    printed_decimals_are_nearest, printed_whole_number_is_nearest, push_decimal, round_half_even,
    ten_pow, Quantity, Ratio, FULL_PERCENT,
};
use crate::settings::DisplayBasis;
use crate::strings::Strings;
use crate::time::{
    countdown, countdown_text, duration_text, format_duration, format_reset_time,
    remaining_secs_at, reset_time_text, DurationGranularity, Timestamp,
};

verus! {

/// Availability of a single (provider, window) cell.
#[derive(Clone, Copy, Debug, PartialEq, Eq, Structural)]
pub enum CellState {
    Loading,
    Ready,
    AuthenticationExpired,
    AuthenticationProblem,
    CredentialsUnavailable,
    FetchFailed,
    Disabled,
    NotAvailable,
}

/// What a cell renders. A bar percentage is there only where there is a real
/// current value; the text is always there.
#[derive(Debug, PartialEq, Eq)]
pub struct CellDisplay {
    pub bar_percent: Option<Quantity>,
    pub text: String,
}

/// A cell's rendering, as a value.
pub struct CellView {
    pub bar_percent: Option<Quantity>,
    pub text: Seq<char>,
}

impl View for CellDisplay {
    type V = CellView;

    open spec fn view(&self) -> CellView {
        CellView { bar_percent: self.bar_percent, text: self.text@ }
    }
}

pub open spec fn spec_display_value(basis: DisplayBasis, used_percent: Quantity) -> Quantity {
    match (basis, used_percent.clamp_percent()) {
        (DisplayBasis::UsedPercentage, used) => used,
        (DisplayBasis::RemainingAllowance, Quantity::Finite(used)) => Quantity::Finite(
            (100_000_000 - used) as i64,
        ),
        (DisplayBasis::RemainingAllowance, other) => other,
    }
}

/// The value to show for a used percentage. Number and bar both come from it.
#[verifier::when_used_as_spec(spec_display_value)]
pub fn display_value(basis: DisplayBasis, used_percent: Quantity) -> (r: Quantity)
    ensures
        r == spec_display_value(basis, used_percent),
{
    let used: Quantity = used_percent.clamp_percent();
    match basis {
        DisplayBasis::UsedPercentage => used,
        DisplayBasis::RemainingAllowance => match used {
            Quantity::Finite(used) => Quantity::Finite(FULL_PERCENT - used),
            other => other,
        },
    }
}

/// Used and remaining are complements: whatever number comes in, the two shown
/// values lie within zero and one hundred percent and add up to one hundred.
pub proof fn used_and_remaining_are_complements(used_percent: Quantity)
    requires
        !(used_percent is NotANumber),
    ensures
        (match (
            display_value(DisplayBasis::UsedPercentage, used_percent),
            display_value(DisplayBasis::RemainingAllowance, used_percent),
        ) {
            (Quantity::Finite(used), Quantity::Finite(left)) => 0 <= used <= FULL_PERCENT && 0
                <= left <= FULL_PERCENT && used + left == FULL_PERCENT,
            _ => false,
        }),
{
}

/// A quantity with `places` decimals; readings that are no numbers print as such.
pub open spec fn quantity_text(value: Quantity, places: nat) -> Seq<char> {
    match value {
        Quantity::Finite(m) => fixed_text(m as int, 1, places),
        Quantity::PosInfinity => "inf"@,
        Quantity::NegInfinity => "-inf"@,
        Quantity::NotANumber => "NaN"@,
    }
}

pub fn format_quantity(value: Quantity, places: u32) -> (r: String)
    requires
        places <= 2,
    ensures
        r@ == quantity_text(value, places as nat),
{
    match value {
        Quantity::Finite(m) => fixed(Ratio { num: m as i128, den: 1 }, places),
        Quantity::PosInfinity => "inf".to_owned(),
        Quantity::NegInfinity => "-inf".to_owned(),
        Quantity::NotANumber => "NaN".to_owned(),
    }
}

/// A whole percentage.
pub open spec fn percent_text(value: Quantity) -> Seq<char> {
    quantity_text(value, 0) + "%"@
}

pub fn format_percent(value: Quantity) -> (r: String)
    ensures
        r@ == percent_text(value),
{
    let mut text: String = format_quantity(value, 0);
    text.append("%");
    text
}

/// The text of a cell with a value: the percentage, then the countdown if there
/// is a reset time.
pub open spec fn cell_text(
    basis: DisplayBasis,
    section: UsageSection,
    now: Timestamp,
    strings: Strings,
) -> Seq<char> {
    let pct = percent_text(display_value(basis, section.percentage));
    match countdown(section.resets_at, now, strings) {
        Some(left) => pct + " \u{b7} "@ + reset_time_text(left, strings),
        None => pct,
    }
}

pub fn format_cell_text(
    basis: DisplayBasis,
    section: &UsageSection,
    now: Timestamp,
    strings: Strings,
) -> (r: String)
    ensures
        r@ == cell_text(basis, *section, now, strings),
{
    let mut text: String = format_percent(display_value(basis, section.percentage));
    match countdown_text(section.resets_at, now, strings) {
        Some(left) => {
            text.append(" \u{b7} ");
            text.append(format_reset_time(left.as_str(), strings).as_str());
            text
        },
        None => text,
    }
}

pub open spec fn spec_status_text(state: CellState, strings: Strings) -> &'static str {
    match state {
        CellState::Loading => strings.loading,
        CellState::AuthenticationExpired => strings.authentication_expired,
        CellState::AuthenticationProblem => strings.authentication_problem,
        CellState::CredentialsUnavailable => strings.credentials_unavailable,
        CellState::FetchFailed => strings.fetch_failed,
        CellState::Disabled => strings.not_available,
        CellState::NotAvailable => strings.not_available,
        CellState::Ready => strings.not_available,
    }
}

/// The status word of a cell without a value. `Ready` has none of its own and reads
/// as not available.
#[verifier::when_used_as_spec(spec_status_text)]
pub fn status_text(state: CellState, strings: Strings) -> (r: &'static str)
    ensures
        r == spec_status_text(state, strings),
{
    match state {
        CellState::Loading => strings.loading,
        CellState::AuthenticationExpired => strings.authentication_expired,
        CellState::AuthenticationProblem => strings.authentication_problem,
        CellState::CredentialsUnavailable => strings.credentials_unavailable,
        CellState::FetchFailed => strings.fetch_failed,
        CellState::Disabled => strings.not_available,
        CellState::NotAvailable => strings.not_available,
        CellState::Ready => strings.not_available,
    }
}

/// The text of a banked-reset count.
pub open spec fn banked_reset_text(count: BankedResetCount, strings: Strings) -> Seq<char> {
    match count {
        BankedResetCount::Available(n) => strings.full_reset@ + ": "@ + decimal(n as nat),
        BankedResetCount::Unavailable => strings.full_reset@ + ": "@ + strings.not_available@,
    }
}

pub fn format_banked_reset_text(count: BankedResetCount, strings: Strings) -> (r: String)
    ensures
        r@ == banked_reset_text(count, strings),
{
    let mut text: String = strings.full_reset.to_owned();
    text.append(": ");
    match count {
        BankedResetCount::Available(n) => {
            push_decimal(&mut text, n as u128);
        },
        BankedResetCount::Unavailable => {
            text.append(strings.not_available);
        },
    }
    text
}

/// A cell shows its value only while it is `Ready`; otherwise its status word.
pub open spec fn rendered_cell(
    state: CellState,
    section: Option<UsageSection>,
    basis: DisplayBasis,
    now: Timestamp,
    strings: Strings,
) -> CellView {
    match (state, section) {
        (CellState::Ready, Some(section)) => CellView {
            bar_percent: Some(display_value(basis, section.percentage)),
            text: cell_text(basis, section, now, strings),
        },
        _ => CellView { bar_percent: None, text: status_text(state, strings)@ },
    }
}

pub fn render_cell(
    state: CellState,
    section: Option<UsageSection>,
    basis: DisplayBasis,
    now: Timestamp,
    strings: Strings,
) -> (r: CellDisplay)
    ensures
        r@ == rendered_cell(state, section, basis, now, strings),
{
    match (state, section) {
        (CellState::Ready, Some(section)) => CellDisplay {
            bar_percent: Some(display_value(basis, section.percentage)),
            text: format_cell_text(basis, &section, now, strings),
        },
        _ => CellDisplay { bar_percent: None, text: status_text(state, strings).to_owned() },
    }
}

/// A cell that is not `Ready` never shows a cached value: what it renders does not
/// depend on the section at all, and there is no bar.
pub proof fn non_ready_cell_ignores_cached_section(
    state: CellState,
    cached: Option<UsageSection>,
    basis: DisplayBasis,
    now: Timestamp,
    strings: Strings,
)
    requires
        !(state is Ready),
    ensures
        rendered_cell(state, cached, basis, now, strings) == rendered_cell(
            state,
            None,
            basis,
            now,
            strings,
        ),
        rendered_cell(state, cached, basis, now, strings).bar_percent is None,
{
}

/// Number and bar of a cell come from the same value.
pub proof fn bar_and_number_agree(
    section: UsageSection,
    basis: DisplayBasis,
    now: Timestamp,
    strings: Strings,
)
    ensures
        (match rendered_cell(CellState::Ready, Some(section), basis, now, strings) {
            CellView { bar_percent: Some(shown), text } => percent_text(shown).is_prefix_of(text),
            _ => false,
        }),
{
    let pct = percent_text(display_value(basis, section.percentage));
    match countdown(section.resets_at, now, strings) {
        Some(left) => {
            let text = pct + " \u{b7} "@ + reset_time_text(left, strings);
            assert(pct =~= text.subrange(0, pct.len() as int));
        },
        None => {
            assert(pct =~= pct.subrange(0, pct.len() as int));
        },
    }
}

/// The window of a provider that the cache holds under `item_id`.
pub open spec fn cached_section(
    data: Option<AppUsageData>,
    family_id: QuotaFamilyId,
    item_id: Seq<char>,
) -> Option<UsageSection> {
    match data {
        None => None,
        Some(data) => match cached_family(data, family_id) {
            None => None,
            Some(family) => match find_item(family.items, item_id) {
                None => None,
                Some(item) => match item.used() {
                    None => None,
                    Some(percentage) => Some(
                        UsageSection { percentage, resets_at: item.resets_at },
                    ),
                },
            },
        },
    }
}

pub fn quota_item_section(
    data: &Option<AppUsageData>,
    family_id: QuotaFamilyId,
    item_id: &str,
) -> (r: Option<UsageSection>)
    ensures
        r == cached_section(*data, family_id, item_id@),
{
    match data {
        None => None,
        Some(data) => match data.family(family_id) {
            None => None,
            Some(family) => match family.item(item_id) {
                None => None,
                Some(item) => match item.used_percentage() {
                    None => None,
                    Some(percentage) => Some(
                        UsageSection { percentage, resets_at: item.resets_at },
                    ),
                },
            },
        },
    }
}

/// An amount: without decimals where it is whole, else with two.
pub open spec fn quota_number(value: Quantity) -> Seq<char> {
    match value {
        Quantity::Finite(m) => if m % 1_000_000 == 0 {
            quantity_text(value, 0)
        } else {
            quantity_text(value, 2)
        },
        _ => quantity_text(value, 2),
    }
}

pub fn format_quota_number(value: Quantity) -> (r: String)
    ensures
        r@ == quota_number(value),
{
    match value {
        Quantity::Finite(m) => {
            if m % 1_000_000 == 0 {
                format_quantity(value, 0)
            } else {
                format_quantity(value, 2)
            }
        },
        _ => format_quantity(value, 2),
    }
}

/// The amount that a metric tells, for the chosen basis; nothing without a metric.
pub open spec fn metric_text(item: QuotaItem, basis: DisplayBasis) -> Seq<char> {
    let unit = item.unit.as_str()@;
    match item.metric {
        Some(QuotaMetric::Percentage(value)) => percent_text(display_value(basis, value)),
        Some(QuotaMetric::Used { used, limit }) => match (basis, limit) {
            (DisplayBasis::UsedPercentage, Some(limit)) => quota_number(used) + " / "@
                + quota_number(limit) + " "@ + unit,
            (DisplayBasis::RemainingAllowance, Some(limit)) => quota_number(left_of(limit, used)),
            (_, None) => quota_number(used) + " "@ + unit,
        },
        Some(QuotaMetric::Remaining { remaining, limit }) => match (basis, limit) {
            (DisplayBasis::RemainingAllowance, Some(_)) => quota_number(remaining),
            (DisplayBasis::UsedPercentage, Some(limit)) => quota_number(left_of(limit, remaining))
                + " / "@ + quota_number(limit) + " "@ + unit,
            (_, None) => quota_number(remaining) + " "@ + unit + " remaining"@,
        },
        None => Seq::empty(),
    }
}

fn format_metric(item: &QuotaItem, basis: DisplayBasis) -> (r: String)
    ensures
        r@ == metric_text(*item, basis),
{
    match item.metric {
        Some(QuotaMetric::Percentage(value)) => format_percent(display_value(basis, value)),
        Some(QuotaMetric::Used { used, limit }) => match (basis, limit) {
            (DisplayBasis::UsedPercentage, Some(limit)) => {
                let mut text: String = format_quota_number(used);
                text.append(" / ");
                text.append(format_quota_number(limit).as_str());
                text.append(" ");
                text.append(item.unit.as_str());
                text
            },
            (DisplayBasis::RemainingAllowance, Some(limit)) => format_quota_number(
                left_of(limit, used),
            ),
            (_, None) => {
                let mut text: String = format_quota_number(used);
                text.append(" ");
                text.append(item.unit.as_str());
                text
            },
        },
        Some(QuotaMetric::Remaining { remaining, limit }) => match (basis, limit) {
            (DisplayBasis::RemainingAllowance, Some(_)) => format_quota_number(remaining),
            (DisplayBasis::UsedPercentage, Some(limit)) => {
                let mut text: String = format_quota_number(left_of(limit, remaining));
                text.append(" / ");
                text.append(format_quota_number(limit).as_str());
                text.append(" ");
                text.append(item.unit.as_str());
                text
            },
            (_, None) => {
                let mut text: String = format_quota_number(remaining);
                text.append(" ");
                text.append(item.unit.as_str());
                text.append(" remaining");
                text
            },
        },
        None => String::new(),
    }
}

/// The reset time of a quota item. An item has no known window start, so elapsed
/// time is never shown for it.
pub open spec fn item_time_text(
    item: QuotaItem,
    basis: DisplayBasis,
    now: Timestamp,
    strings: Strings,
) -> Option<Seq<char>> {
    match (basis, remaining_secs_at(item.resets_at, now)) {
        (DisplayBasis::RemainingAllowance, Some(secs)) => Some(
            reset_time_text(
                duration_text(secs, DurationGranularity::LongWindow, strings),
                strings,
            ),
        ),
        _ => None,
    }
}

/// Rendering of a quota item: amount and reset time as far as each is known.
pub open spec fn rendered_item(
    state: CellState,
    item: Option<QuotaItem>,
    basis: DisplayBasis,
    now: Timestamp,
    strings: Strings,
) -> CellView {
    match (state, item) {
        (CellState::Ready, Some(item)) => if item.availability is Unavailable {
            CellView { bar_percent: None, text: strings.not_available@ }
        } else {
            let metric = metric_text(item, basis);
            CellView {
                bar_percent: match item.used() {
                    Some(used) => Some(display_value(basis, used)),
                    None => None,
                },
                text: match item_time_text(item, basis, now, strings) {
                    Some(time) => if metric.len() == 0 {
                        time
                    } else {
                        metric + " \u{b7} "@ + time
                    },
                    None => if metric.len() == 0 {
                        strings.not_available@
                    } else {
                        metric
                    },
                },
            }
        },
        _ => CellView { bar_percent: None, text: status_text(state, strings)@ },
    }
}

pub fn render_generic_quota_item(
    state: CellState,
    item: Option<&QuotaItem>,
    basis: DisplayBasis,
    now: Timestamp,
    strings: Strings,
) -> (r: CellDisplay)
    ensures
        r@ == rendered_item(
            state,
            match item {
                Some(item) => Some(*item),
                None => None,
            },
            basis,
            now,
            strings,
        ),
{
    let item: &QuotaItem = match (state, item) {
        (CellState::Ready, Some(item)) => item,
        _ => {
            return CellDisplay {
                bar_percent: None,
                text: status_text(state, strings).to_owned(),
            };
        },
    };
    if let QuotaItemAvailability::Unavailable = item.availability {
        return CellDisplay { bar_percent: None, text: strings.not_available.to_owned() };
    }
    let bar_percent: Option<Quantity> = match item.used_percentage() {
        Some(used) => Some(display_value(basis, used)),
        None => None,
    };
    let mut text: String = format_metric(item, basis);
    let time_text: Option<String> = match basis {
        DisplayBasis::RemainingAllowance => match remaining_secs_at(item.resets_at, now) {
            Some(secs) => {
                let duration: String = format_duration(
                    secs,
                    DurationGranularity::LongWindow,
                    strings,
                );
                Some(format_reset_time(duration.as_str(), strings))
            },
            None => None,
        },
        DisplayBasis::UsedPercentage => None,
    };
    let text: String = match time_text {
        Some(time) => if text.as_str().is_empty() {
            time
        } else {
            text.append(" \u{b7} ");
            text.append(time.as_str());
            text
        },
        None => if text.as_str().is_empty() {
            strings.not_available.to_owned()
        } else {
            text
        },
    };
    CellDisplay { bar_percent, text }
}

// ---- what a cell says -------------------------------------------------------------------

/// Under the used basis a share is shown as it is, under the remaining basis as what it
/// leaves of one hundred percent.
pub proof fn shown_value_is_the_share_or_its_rest(m: i64)
    requires
        0 <= m <= 100_000_000,
    ensures
        display_value(DisplayBasis::UsedPercentage, Quantity::Finite(m)) == Quantity::Finite(m),
        display_value(DisplayBasis::RemainingAllowance, Quantity::Finite(m)) == Quantity::Finite(
            (100_000_000 - m) as i64,
        ),
{
}

/// A ready cell shows its section: the bar the shown value, the text that value in percent
/// and then, where a reset is told, the countdown to it.
pub proof fn ready_cell_shows_its_section(
    section: UsageSection,
    basis: DisplayBasis,
    now: Timestamp,
    strings: Strings,
)
    ensures
        ({
            let cell = rendered_cell(CellState::Ready, Some(section), basis, now, strings);
            let value = percent_text(display_value(basis, section.percentage));
            &&& cell.bar_percent == Some(display_value(basis, section.percentage))
            &&& value.is_prefix_of(cell.text)
            &&& section.resets_at is None ==> cell.text == value
            &&& countdown(section.resets_at, now, strings) matches Some(left)
                ==> left.is_suffix_of(cell.text)
        }),
{
    bar_and_number_agree(section, basis, now, strings);
    let cell = rendered_cell(CellState::Ready, Some(section), basis, now, strings);
    if let Some(left) = countdown(section.resets_at, now, strings) {
        assert(left =~= cell.text.skip(cell.text.len() - left.len()));
    }
}

/// A cell without a value says why, each state in its own word.
pub proof fn states_have_their_own_words(state: CellState, strings: Strings)
    ensures
        ({
            let word = status_text(state, strings);
            &&& state is Loading ==> word == strings.loading
            &&& state is AuthenticationExpired ==> word == strings.authentication_expired
            &&& state is AuthenticationProblem ==> word == strings.authentication_problem
            &&& state is CredentialsUnavailable ==> word == strings.credentials_unavailable
            &&& state is FetchFailed ==> word == strings.fetch_failed
            &&& state is NotAvailable || state is Disabled ==> word == strings.not_available
        }),
{
}

/// A count of banked resets is told as a numeral, an unknown one as not available.
pub proof fn banked_resets_are_told_by_their_number(count: BankedResetCount, strings: Strings)
    ensures
        ({
            let text = banked_reset_text(count, strings);
            &&& strings.full_reset@.is_prefix_of(text)
            &&& match count {
                BankedResetCount::Available(n) => decimal(n as nat).is_suffix_of(text),
                BankedResetCount::Unavailable => strings.not_available@.is_suffix_of(text),
            }
        }),
{
    let text = banked_reset_text(count, strings);
    let label = strings.full_reset@;
    assert(label =~= text.take(label.len() as int));
    let end = match count {
        BankedResetCount::Available(n) => decimal(n as nat),
        BankedResetCount::Unavailable => strings.not_available@,
    };
    assert(end =~= text.skip(text.len() - end.len()));
}

/// An item whose quota has a limit shows, under the remaining basis, the amount that is
/// left and, under the used basis, the amount that is used out of the limit, whichever of
/// the two the provider tells. A reset time is told only of what remains.
pub proof fn quota_item_shows_amounts_out_of_its_limit(
    item: QuotaItem,
    used: Quantity,
    limit: Quantity,
    now: Timestamp,
    strings: Strings,
)
    requires
        item.availability is Available,
        item.metric == Some(QuotaMetric::Used { used, limit: Some(limit) }) || item.metric == Some(
            QuotaMetric::Remaining { remaining: left_of(limit, used), limit: Some(limit) },
        ) && left_of(limit, left_of(limit, used)) == used,
    ensures
        ({
            let spent = rendered_item(
                CellState::Ready,
                Some(item),
                DisplayBasis::UsedPercentage,
                now,
                strings,
            );
            let left = rendered_item(
                CellState::Ready,
                Some(item),
                DisplayBasis::RemainingAllowance,
                now,
                strings,
            );
            &&& spent.text == quota_number(used) + " / "@ + quota_number(limit) + " "@
                + item.unit.as_str()@
            &&& quota_number(left_of(limit, used)).is_prefix_of(left.text)
            &&& remaining_secs_at(item.resets_at, now) is None ==> left.text == quota_number(
                left_of(limit, used),
            )
            &&& remaining_secs_at(item.resets_at, now) matches Some(secs) ==> duration_text(
                secs,
                DurationGranularity::LongWindow,
                strings,
            ).is_suffix_of(left.text)
        }),
{
    lemma_quota_number_is_not_empty(used);
    lemma_quota_number_is_not_empty(left_of(limit, used));
    let amount = quota_number(left_of(limit, used));
    let left = rendered_item(
        CellState::Ready,
        Some(item),
        DisplayBasis::RemainingAllowance,
        now,
        strings,
    );
    assert(amount =~= left.text.take(amount.len() as int));
    if let Some(secs) = remaining_secs_at(item.resets_at, now) {
        let d = duration_text(secs, DurationGranularity::LongWindow, strings);
        assert(d =~= left.text.skip(left.text.len() - d.len()));
    }
}

proof fn lemma_quota_number_is_not_empty(value: Quantity)
    ensures
        quota_number(value).len() > 0,
{
    reveal_strlit("inf");
    reveal_strlit("-inf");
    reveal_strlit("NaN");
    match value {
        Quantity::Finite(m) => {
            let magnitude = if m < 0 {
                (-m) as nat
            } else {
                m as nat
            };
            let places: nat = if m % 1_000_000 == 0 {
                0
            } else {
                2
            };
            let rounded = crate::numbers::round_half_even(
                magnitude * crate::numbers::ten_pow(places),
                1 * 1_000_000,
            );
            crate::numbers::numeral_reads_back(rounded / crate::numbers::ten_pow(places));
        },
        _ => {},
    }
}

/// The bar of a ready quota item is the shown value of its used share; an item that the
/// provider does not offer has none and says so.
pub proof fn quota_item_bar_is_its_used_share(
    item: QuotaItem,
    basis: DisplayBasis,
    now: Timestamp,
    strings: Strings,
)
    ensures
        ({
            let cell = rendered_item(CellState::Ready, Some(item), basis, now, strings);
            if item.availability is Unavailable {
                cell.bar_percent is None && cell.text == strings.not_available@
            } else {
                match (item.used(), cell.bar_percent) {
                    (Some(used), Some(bar)) => bar == display_value(basis, used),
                    (None, None) => true,
                    _ => false,
                }
            }
        }),
{
}

/// The section of a provider's window is the used share and the reset time of the item
/// that the cache holds for that provider under that id, and depends on nothing else in
/// the cache.
pub proof fn section_is_that_of_the_cached_item(
    data: AppUsageData,
    other: AppUsageData,
    family: QuotaFamilyId,
    item_id: Seq<char>,
)
    ensures
        ({
            let item = match cached_family(data, family) {
                Some(f) => find_item(f.items, item_id),
                None => None,
            };
            match cached_section(Some(data), family, item_id) {
                Some(section) => item matches Some(item) && item.used() == Some(section.percentage)
                    && item.resets_at == section.resets_at,
                None => item matches Some(item) ==> item.used() is None,
            }
        }),
        cached_family(data, family) == cached_family(other, family) ==> cached_section(
            Some(data),
            family,
            item_id,
        ) == cached_section(Some(other), family, item_id),
        cached_section(None, family, item_id) is None,
{
}

/// A whole amount is told as a whole number, and any other amount to the nearest
/// hundredth.
pub proof fn amounts_are_told_exactly_or_to_the_hundredth(amount: i64)
    requires
        0 <= amount,
    ensures
        ({
            let text = quota_number(Quantity::Finite(amount));
            if amount % 1_000_000 == 0 {
                is_numeral(text) && numeral_value(text) * 1_000_000 == amount
            } else {
                let point = text.len() - 3;
                let hundredths = numeral_value(text.take(point)) * 100 + numeral_value(
                    text.skip(point + 1),
                );
                &&& 0 < point
                &&& text[point] == '.'
                &&& is_numeral(text.take(point)) && is_numeral(text.skip(point + 1))
                &&& -5_000 <= amount - hundredths * 10_000 <= 5_000
            }
        }),
{
    if amount % 1_000_000 == 0 {
        printed_whole_number_is_nearest(amount as nat, 1);
        let text = fixed_text(amount as int, 1, 0);
        reveal_with_fuel(ten_pow, 2);
        let n = round_half_even(amount as nat * ten_pow(0), 1_000_000);
        assert(text =~= decimal(n / ten_pow(0)));
        numeral_reads_back(n / ten_pow(0));
        let printed = numeral_value(text);
        let whole = amount as int / 1_000_000;
        assert(amount == 1_000_000 * whole);
        assert(-1_000_000 <= 2 * (amount - printed * 1_000_000) <= 1_000_000);
        assert(printed == whole);
    } else {
        printed_decimals_are_nearest(amount as nat, 1, 2);
        reveal_with_fuel(ten_pow, 3);
        let hundred = ten_pow(2);
        let text = fixed_text(amount as int, 1, 2);
        let point = text.len() - 3;
        let before = numeral_value(text.take(point));
        let printed = before * hundred + numeral_value(text.skip(point + 1));
        assert(hundred == 100);
        assert(before * hundred == before * 100 && amount * hundred == amount * 100)
            by (nonlinear_arith)
            requires
                hundred == 100,
        ;
        assert(-1_000_000 <= 2 * (amount * hundred - printed * 1_000_000) <= 1_000_000);
    }
}

/// An amount without a limit is told with its unit, and a rest is told to be one.
pub proof fn amounts_without_a_limit_name_their_unit(
    item: QuotaItem,
    amount: Quantity,
    basis: DisplayBasis,
)
    ensures
        ({
            let told = quota_number(amount) + " "@ + item.unit.as_str()@;
            &&& item.metric == Some(QuotaMetric::Used { used: amount, limit: None })
                ==> metric_text(item, basis) == told
            &&& item.metric == Some(QuotaMetric::Remaining { remaining: amount, limit: None })
                ==> told.is_prefix_of(metric_text(item, basis)) && " remaining"@.is_suffix_of(
                metric_text(item, basis),
            )
        }),
{
    let told = quota_number(amount) + " "@ + item.unit.as_str()@;
    let text = metric_text(item, basis);
    if item.metric == Some(QuotaMetric::Remaining { remaining: amount, limit: None }) {
        assert(told =~= text.take(told.len() as int));
        assert(" remaining"@ =~= text.skip(text.len() - " remaining"@.len()));
    }
}

} // verus!
