//! Pace of consumption: how usage compares with the time that has passed, and
//! the lines of text that say so.

use vstd::prelude::*;

use crate::numbers::{
    decimal, fixed, fixed_text, is_numeral, numeral_reads_back, numeral_value,
    printed_decimals_are_nearest, printed_whole_number_is_nearest, push_decimal, round_away,
    round_half_away, round_half_even, ten_pow, Quantity, Ratio, FULL_PERCENT,
};
use crate::cells::{
    display_value, format_percent, percent_text, CellState,
};
use crate::models::UsageSection;
use crate::settings::{
    DisplayBasis, DisplayDensity, ShortWindowAlertSensitivity, ShortWindowVisibility,
};
use crate::strings::Strings;
use crate::text::{replace_all, replaced};
use crate::time::{
    duration_text, elapsed_secs_in_window, format_duration, format_reset_time, remaining_secs_at,
    reset_time_text, text_view, DurationGranularity, Timestamp, SESSION_WINDOW_SECS,
    WEEKLY_WINDOW_SECS,
};

verus! {

/// Below this much elapsed time, pace is too noisy to judge.
pub const PACE_JUDGING_MIN_ELAPSED_SECS: u64 = 21_600;

/// Upper bounds of the pace bands, in percentage points.
pub const PACE_UNDER_PACE_MAX_PT: i64 = -10;

pub const PACE_ON_TRACK_MAX_PT: i64 = 10;

pub const PACE_SLIGHTLY_OVER_MAX_PT: i64 = 25;

/// Below this much time left, guidance is told per hour rather than per day.
pub const FUTURE_PACE_HOURLY_THRESHOLD_SECS: u64 = 86_400;

#[derive(Clone, Copy, Debug, PartialEq, Eq, Structural)]
pub enum WeeklyPaceStatus {
    Judging,
    UnderPace,
    OnTrack,
    SlightlyOverpacing,
    Overpacing,
}

/// The percentage in millionths, where the reading is one.
pub open spec fn percent_micros(used_percent: Quantity) -> Option<int> {
    match used_percent.clamp_percent() {
        Quantity::Finite(m) => Some(m as int),
        _ => None,
    }
}

/// Used percentage minus elapsed percentage, as an exact quotient over the window.
pub open spec fn pace_diff(elapsed_secs: u64, window_secs: u64, used_percent: Quantity) -> Ratio {
    if window_secs == 0 {
        Ratio { num: 0, den: 1 }
    } else {
        match percent_micros(used_percent) {
            Some(used) => Ratio {
                num: (used * window_secs - 100_000_000 * (if elapsed_secs < window_secs {
                    elapsed_secs
                } else {
                    window_secs
                })) as i128,
                den: window_secs,
            },
            None => Ratio { num: 0, den: 0 },
        }
    }
}

/// `used% - elapsed%` in percentage points; zero for a window of no length.
#[verifier::when_used_as_spec(pace_diff)]
pub fn weekly_pace_diff_pt(elapsed_secs: u64, window_secs: u64, used_percent: Quantity) -> (r:
    Ratio)
    ensures
        r == pace_diff(elapsed_secs, window_secs, used_percent),
{
    if window_secs == 0 {
        return Ratio { num: 0, den: 1 };
    }
    match used_percent.clamp_percent() {
        Quantity::Finite(used) => {
            let spent: u64 = if elapsed_secs < window_secs {
                elapsed_secs
            } else {
                window_secs
            };
            assert(0 <= used * window_secs <= 100_000_000 * window_secs) by (nonlinear_arith)
                requires
                    0 <= used <= 100_000_000,
                    window_secs >= 0,
            ;
            Ratio {
                num: used as i128 * window_secs as i128 - 100_000_000 * spent as i128,
                den: window_secs,
            }
        },
        _ => Ratio { num: 0, den: 0 },
    }
}

/// Whether a quotient is a number and at most `points` whole units.
pub open spec fn at_most_points(value: Ratio, points: int) -> bool {
    value.den > 0 && value.num <= points * 1_000_000 * value.den
}

fn is_at_most_points(value: Ratio, points: i64) -> (r: bool)
    requires
        -100 <= points <= 100,
    ensures
        r == at_most_points(value, points as int),
{
    assert(-100_000_000 * value.den <= points * 1_000_000 * value.den <= 100_000_000 * value.den)
        by (nonlinear_arith)
        requires
            -100 <= points <= 100,
            value.den >= 0,
    ;
    value.den > 0 && value.num <= points as i128 * 1_000_000 * value.den as i128
}

/// The band that a pace difference falls in; each bound belongs to the lower band.
pub open spec fn pace_band(diff: Ratio) -> WeeklyPaceStatus {
    if at_most_points(diff, PACE_UNDER_PACE_MAX_PT as int) {
        WeeklyPaceStatus::UnderPace
    } else if at_most_points(diff, PACE_ON_TRACK_MAX_PT as int) {
        WeeklyPaceStatus::OnTrack
    } else if at_most_points(diff, PACE_SLIGHTLY_OVER_MAX_PT as int) {
        WeeklyPaceStatus::SlightlyOverpacing
    } else {
        WeeklyPaceStatus::Overpacing
    }
}

pub open spec fn spec_weekly_pace_status(
    elapsed_secs: u64,
    window_secs: u64,
    used_percent: Quantity,
) -> WeeklyPaceStatus {
    if window_secs == 0 || elapsed_secs < PACE_JUDGING_MIN_ELAPSED_SECS {
        WeeklyPaceStatus::Judging
    } else {
        pace_band(pace_diff(elapsed_secs, window_secs, used_percent))
    }
}

/// The pace judged against fixed point bounds. Always a concrete status.
#[verifier::when_used_as_spec(spec_weekly_pace_status)]
pub fn weekly_pace_status(elapsed_secs: u64, window_secs: u64, used_percent: Quantity) -> (r:
    WeeklyPaceStatus)
    ensures
        r == spec_weekly_pace_status(elapsed_secs, window_secs, used_percent),
{
    if window_secs == 0 || elapsed_secs < PACE_JUDGING_MIN_ELAPSED_SECS {
        return WeeklyPaceStatus::Judging;
    }
    let diff: Ratio = weekly_pace_diff_pt(elapsed_secs, window_secs, used_percent);
    if is_at_most_points(diff, PACE_UNDER_PACE_MAX_PT) {
        WeeklyPaceStatus::UnderPace
    } else if is_at_most_points(diff, PACE_ON_TRACK_MAX_PT) {
        WeeklyPaceStatus::OnTrack
    } else if is_at_most_points(diff, PACE_SLIGHTLY_OVER_MAX_PT) {
        WeeklyPaceStatus::SlightlyOverpacing
    } else {
        WeeklyPaceStatus::Overpacing
    }
}

#[derive(Clone, Copy, Debug, PartialEq, Eq, Structural)]
pub enum FuturePaceUnit {
    PerDay,
    PerHour,
}

/// How much may be used per unit of time from now on.
#[derive(Clone, Copy, Debug, PartialEq, Eq, Structural)]
pub struct FuturePaceGuidance {
    pub value: Ratio,
    pub unit: FuturePaceUnit,
}

pub open spec fn spec_future_pace_guidance(used_percent: Quantity, remaining_secs: u64) -> Option<
    FuturePaceGuidance,
> {
    if remaining_secs == 0 {
        None
    } else {
        // A reading that is not a number leaves nothing to spend.
        let left: int = match percent_micros(used_percent) {
            Some(used) => 100_000_000 - used,
            None => 0,
        };
        if remaining_secs < FUTURE_PACE_HOURLY_THRESHOLD_SECS {
            Some(
                FuturePaceGuidance {
                    value: Ratio { num: (left * 3_600) as i128, den: remaining_secs },
                    unit: FuturePaceUnit::PerHour,
                },
            )
        } else {
            Some(
                FuturePaceGuidance {
                    value: Ratio { num: (left * 86_400) as i128, den: remaining_secs },
                    unit: FuturePaceUnit::PerDay,
                },
            )
        }
    }
}

/// Remaining allowance over the time left. It does not depend on the display
/// basis.
#[verifier::when_used_as_spec(spec_future_pace_guidance)]
pub fn future_pace_guidance(used_percent: Quantity, remaining_secs: u64) -> (r: Option<
    FuturePaceGuidance,
>)
    ensures
        r == spec_future_pace_guidance(used_percent, remaining_secs),
{
    if remaining_secs == 0 {
        return None;
    }
    let left: i128 = match used_percent.clamp_percent() {
        Quantity::Finite(used) => (FULL_PERCENT - used) as i128,
        _ => 0,
    };
    if remaining_secs < FUTURE_PACE_HOURLY_THRESHOLD_SECS {
        Some(
            FuturePaceGuidance {
                value: Ratio { num: left * 3_600, den: remaining_secs },
                unit: FuturePaceUnit::PerHour,
            },
        )
    } else {
        Some(
            FuturePaceGuidance {
                value: Ratio { num: left * 86_400, den: remaining_secs },
                unit: FuturePaceUnit::PerDay,
            },
        )
    }
}

/// When the short window counts as overpacing.
#[derive(Clone, Copy, Debug, PartialEq, Eq, Structural)]
pub struct ShortWindowAlertThresholds {
    pub grace_secs: u64,
    pub min_used_percent: i64,
    pub exhaustion_lead_secs: u64,
}

impl ShortWindowAlertSensitivity {
    pub open spec fn spec_thresholds(self) -> ShortWindowAlertThresholds {
        match self {
            ShortWindowAlertSensitivity::Sensitive => ShortWindowAlertThresholds {
                grace_secs: 1_200,
                min_used_percent: 30_000_000,
                exhaustion_lead_secs: 1_800,
            },
            ShortWindowAlertSensitivity::Standard => ShortWindowAlertThresholds {
                grace_secs: 1_800,
                min_used_percent: 40_000_000,
                exhaustion_lead_secs: 2_700,
            },
            ShortWindowAlertSensitivity::Relaxed => ShortWindowAlertThresholds {
                grace_secs: 2_700,
                min_used_percent: 50_000_000,
                exhaustion_lead_secs: 4_500,
            },
        }
    }

    /// Grace period, minimum use and lead time of this sensitivity.
    #[verifier::when_used_as_spec(spec_thresholds)]
    pub fn thresholds(self) -> (r: ShortWindowAlertThresholds)
        ensures
            r == self.spec_thresholds(),
    {
        match self {
            ShortWindowAlertSensitivity::Sensitive => ShortWindowAlertThresholds {
                grace_secs: 1_200,
                min_used_percent: 30_000_000,
                exhaustion_lead_secs: 1_800,
            },
            ShortWindowAlertSensitivity::Standard => ShortWindowAlertThresholds {
                grace_secs: 1_800,
                min_used_percent: 40_000_000,
                exhaustion_lead_secs: 2_700,
            },
            ShortWindowAlertSensitivity::Relaxed => ShortWindowAlertThresholds {
                grace_secs: 2_700,
                min_used_percent: 50_000_000,
                exhaustion_lead_secs: 4_500,
            },
        }
    }
}

/// Seconds (in millionths, as an exact quotient) until everything is used if the
/// average pace so far goes on. Meaningless without usage, without elapsed time,
/// or once everything is used.
pub open spec fn spec_projected_secs_to_exhaustion(
    elapsed_secs: u64,
    used_percent: Quantity,
) -> Option<Ratio> {
    match percent_micros(used_percent) {
        Some(used) => if used <= 0 || used >= 100_000_000 || elapsed_secs == 0 {
            None
        } else {
            Some(
                Ratio {
                    num: ((100_000_000 - used) * elapsed_secs * 1_000_000) as i128,
                    den: used as u64,
                },
            )
        },
        None => None,
    }
}

#[verifier::when_used_as_spec(spec_projected_secs_to_exhaustion)]
pub fn projected_secs_to_exhaustion(elapsed_secs: u64, used_percent: Quantity) -> (r: Option<Ratio>)
    ensures
        r == spec_projected_secs_to_exhaustion(elapsed_secs, used_percent),
{
    match used_percent.clamp_percent() {
        Quantity::Finite(used) => if used <= 0 || used >= FULL_PERCENT || elapsed_secs == 0 {
            None
        } else {
            let left: i128 = (FULL_PERCENT - used) as i128;
            assert(0 <= left * elapsed_secs <= 100_000_000 * elapsed_secs) by (nonlinear_arith)
                requires
                    0 <= left <= 100_000_000,
                    elapsed_secs >= 0,
            ;
            Some(Ratio { num: left * elapsed_secs as i128 * 1_000_000, den: used as u64 })
        },
        _ => None,
    }
}

/// Past the grace period, past the minimum use, and either everything is used or
/// the projected exhaustion comes at least the lead time before the reset.
pub open spec fn spec_short_window_is_overpacing(
    elapsed_secs: u64,
    remaining_secs: u64,
    used_percent: Quantity,
    sensitivity: ShortWindowAlertSensitivity,
) -> bool {
    let t = sensitivity.thresholds();
    match percent_micros(used_percent) {
        Some(used) => elapsed_secs >= t.grace_secs && used >= t.min_used_percent && (used
            >= 100_000_000 || (remaining_secs - t.exhaustion_lead_secs) * used >= (100_000_000
            - used) * elapsed_secs),
        None => false,
    }
}

/// Whether the short window deserves a warning.
#[verifier::when_used_as_spec(spec_short_window_is_overpacing)]
pub fn short_window_is_overpacing(
    elapsed_secs: u64,
    remaining_secs: u64,
    used_percent: Quantity,
    sensitivity: ShortWindowAlertSensitivity,
) -> (r: bool)
    ensures
        r == spec_short_window_is_overpacing(
            elapsed_secs,
            remaining_secs,
            used_percent,
            sensitivity,
        ),
{
    let t: ShortWindowAlertThresholds = sensitivity.thresholds();
    if elapsed_secs < t.grace_secs {
        return false;
    }
    let used: i64 = match used_percent.clamp_percent() {
        Quantity::Finite(used) => used,
        _ => {
            return false;
        },
    };
    if used < t.min_used_percent {
        return false;
    }
    if used >= FULL_PERCENT {
        return true;
    }
    match projected_secs_to_exhaustion(elapsed_secs, used_percent) {
        None => false,
        Some(projected) => {
            let spare: i128 = remaining_secs as i128 - t.exhaustion_lead_secs as i128;
            proof {
                assert(-100_000_000_000_000_000_000_000_000_000int <= spare * used
                    <= 100_000_000_000_000_000_000_000_000_000int) by (nonlinear_arith)
                    requires
                        -4_500 <= spare <= 18_446_744_073_709_551_615int,
                        0 <= used <= 100_000_000,
                ;
                assert(0 <= (100_000_000 - used) * elapsed_secs <= 100_000_000 * elapsed_secs)
                    by (nonlinear_arith)
                    requires
                        0 <= used <= 100_000_000,
                        elapsed_secs >= 0,
                ;
            }
            spare * projected.den as i128 * 1_000_000 >= projected.num
        },
    }
}

/// Everything used is always a warning once the grace period is over, however
/// little of the window is left.
pub proof fn everything_used_is_always_overpacing(
    elapsed_secs: u64,
    remaining_secs: u64,
    used_percent: Quantity,
    sensitivity: ShortWindowAlertSensitivity,
)
    requires
        elapsed_secs >= sensitivity.thresholds().grace_secs,
        used_percent.clamp_percent() == Quantity::Finite(FULL_PERCENT),
    ensures
        short_window_is_overpacing(elapsed_secs, remaining_secs, used_percent, sensitivity),
{
}

/// Nothing is judged within the grace period or below the minimum use.
pub proof fn no_warning_before_grace_or_minimum(
    elapsed_secs: u64,
    remaining_secs: u64,
    used_percent: Quantity,
    sensitivity: ShortWindowAlertSensitivity,
)
    requires
        elapsed_secs < sensitivity.thresholds().grace_secs
            || (used_percent matches Quantity::Finite(
            m,
        ) && m < sensitivity.thresholds().min_used_percent),
    ensures
        !short_window_is_overpacing(elapsed_secs, remaining_secs, used_percent, sensitivity),
{
}

/// More time left and more used never clear a warning.
pub proof fn more_use_and_more_time_keep_the_warning(
    elapsed_secs: u64,
    remaining_secs: u64,
    more_remaining_secs: u64,
    used_percent: Quantity,
    more_used_percent: Quantity,
    sensitivity: ShortWindowAlertSensitivity,
)
    requires
        remaining_secs <= more_remaining_secs,
        percent_micros(used_percent) is Some,
        percent_micros(more_used_percent) is Some,
        percent_micros(used_percent)->0 <= percent_micros(more_used_percent)->0,
        short_window_is_overpacing(elapsed_secs, remaining_secs, used_percent, sensitivity),
    ensures
        short_window_is_overpacing(
            elapsed_secs,
            more_remaining_secs,
            more_used_percent,
            sensitivity,
        ),
{
    let t = sensitivity.thresholds();
    let used = percent_micros(used_percent)->0;
    let more_used = percent_micros(more_used_percent)->0;
    let spare = remaining_secs - t.exhaustion_lead_secs;
    let more_spare = more_remaining_secs - t.exhaustion_lead_secs;
    let elapsed = elapsed_secs as int;
    if more_used < 100_000_000 {
        assert(more_spare * more_used >= (100_000_000 - more_used) * elapsed) by (nonlinear_arith)
            requires
                spare <= more_spare,
                0 < used <= more_used < 100_000_000,
                0 <= elapsed,
                spare * used >= (100_000_000 - used) * elapsed,
        ;
    }
}

/// The projection of `short_window_is_overpacing`: the time from the projected
/// exhaustion to the reset is at least the lead time.
pub proof fn overpacing_is_the_projection_with_its_lead(
    elapsed_secs: u64,
    remaining_secs: u64,
    used_percent: Quantity,
    sensitivity: ShortWindowAlertSensitivity,
)
    ensures
        (match projected_secs_to_exhaustion(elapsed_secs, used_percent) {
            Some(projected) => short_window_is_overpacing(
                elapsed_secs,
                remaining_secs,
                used_percent,
                sensitivity,
            ) == (elapsed_secs >= sensitivity.thresholds().grace_secs && projected.den
                >= sensitivity.thresholds().min_used_percent && (remaining_secs
                - sensitivity.thresholds().exhaustion_lead_secs) * projected.den * 1_000_000
                >= projected.num),
            None => true,
        }),
{
    match percent_micros(used_percent) {
        Some(used) => {
            if 0 < used < 100_000_000 {
                assert(0 <= (100_000_000 - used) * elapsed_secs <= 100_000_000 * elapsed_secs)
                    by (nonlinear_arith)
                    requires
                        0 <= used <= 100_000_000,
                        elapsed_secs >= 0,
                ;
            }
        },
        None => {},
    }
}

/// More usage never lowers the pace status band's place: a later band needs a
/// larger difference.
pub proof fn pace_bands_are_ordered(diff: Ratio)
    ensures
        pace_band(diff) is UnderPace ==> at_most_points(diff, -10),
        pace_band(diff) is OnTrack ==> !at_most_points(diff, -10) && at_most_points(diff, 10),
        pace_band(diff) is SlightlyOverpacing ==> !at_most_points(diff, 10) && at_most_points(
            diff,
            25,
        ),
        pace_band(diff) is Overpacing ==> !at_most_points(diff, 25),
{
    if diff.den > 0 {
        assert(-10 * 1_000_000 * diff.den <= 10 * 1_000_000 * diff.den <= 25 * 1_000_000 * diff.den)
            by (nonlinear_arith)
            requires
                diff.den > 0,
        ;
    }
}

// ---- text ------------------------------------------------------------------

pub open spec fn spec_weekly_pace_status_text(
    status: WeeklyPaceStatus,
    strings: Strings,
) -> &'static str {
    match status {
        WeeklyPaceStatus::Judging => strings.weekly_pace_judging,
        WeeklyPaceStatus::UnderPace => strings.weekly_pace_under_pace,
        WeeklyPaceStatus::OnTrack => strings.weekly_pace_on_track,
        WeeklyPaceStatus::SlightlyOverpacing => strings.weekly_pace_slightly_overpacing,
        WeeklyPaceStatus::Overpacing => strings.weekly_pace_overpacing,
    }
}

#[verifier::when_used_as_spec(spec_weekly_pace_status_text)]
pub fn weekly_pace_status_text(status: WeeklyPaceStatus, strings: Strings) -> (r: &'static str)
    ensures
        r == spec_weekly_pace_status_text(status, strings),
{
    match status {
        WeeklyPaceStatus::Judging => strings.weekly_pace_judging,
        WeeklyPaceStatus::UnderPace => strings.weekly_pace_under_pace,
        WeeklyPaceStatus::OnTrack => strings.weekly_pace_on_track,
        WeeklyPaceStatus::SlightlyOverpacing => strings.weekly_pace_slightly_overpacing,
        WeeklyPaceStatus::Overpacing => strings.weekly_pace_overpacing,
    }
}

/// Time text of a window: time spent when the basis is what is used, time left
/// when it is what remains.
pub open spec fn window_time_text(
    basis: DisplayBasis,
    remaining_secs: Option<u64>,
    elapsed_secs: Option<u64>,
    granularity: DurationGranularity,
    strings: Strings,
) -> Option<Seq<char>> {
    match basis {
        DisplayBasis::UsedPercentage => match elapsed_secs {
            Some(secs) => Some(
                strings.elapsed@ + " "@ + duration_text(secs, granularity, strings),
            ),
            None => None,
        },
        DisplayBasis::RemainingAllowance => match remaining_secs {
            Some(secs) => Some(
                reset_time_text(duration_text(secs, granularity, strings), strings),
            ),
            None => None,
        },
    }
}

pub fn format_window_time(
    basis: DisplayBasis,
    remaining_secs: Option<u64>,
    elapsed_secs: Option<u64>,
    granularity: DurationGranularity,
    strings: Strings,
) -> (r: Option<String>)
    ensures
        text_view(r) == window_time_text(
            basis,
            remaining_secs,
            elapsed_secs,
            granularity,
            strings,
        ),
{
    match basis {
        DisplayBasis::UsedPercentage => match elapsed_secs {
            Some(secs) => {
                let mut text: String = strings.elapsed.to_owned();
                text.append(" ");
                text.append(format_duration(secs, granularity, strings).as_str());
                Some(text)
            },
            None => None,
        },
        DisplayBasis::RemainingAllowance => match remaining_secs {
            Some(secs) => {
                let duration: String = format_duration(secs, granularity, strings);
                Some(format_reset_time(duration.as_str(), strings))
            },
            None => None,
        },
    }
}

/// Ten and more without decimals, one to ten with one, below one with two.
pub open spec fn pace_rate_text(value: Ratio) -> Seq<char> {
    fixed_text(
        value.num as int,
        value.den as nat,
        if value.num >= 10_000_000 * value.den {
            0
        } else if value.num >= 1_000_000 * value.den {
            1
        } else {
            2
        },
    )
}

pub fn format_pace_rate_value(value: Ratio) -> (r: String)
    requires
        value.den > 0,
    ensures
        r@ == pace_rate_text(value),
{
    if value.num >= 10_000_000 * value.den as i128 {
        fixed(value, 0)
    } else if value.num >= 1_000_000 * value.den as i128 {
        fixed(value, 1)
    } else {
        fixed(value, 2)
    }
}

/// The rate with its unit; nothing for a value that is not a number or negative.
pub open spec fn future_pace_text(guidance: FuturePaceGuidance, strings: Strings) -> Option<
    Seq<char>,
> {
    if guidance.value.den == 0 || guidance.value.num < 0 {
        None
    } else {
        Some(
            pace_rate_text(guidance.value) + "%/"@ + (match guidance.unit {
                FuturePaceUnit::PerDay => strings.per_day_suffix@,
                FuturePaceUnit::PerHour => strings.per_hour_suffix@,
            }),
        )
    }
}

pub fn format_future_pace_guidance(guidance: &FuturePaceGuidance, strings: Strings) -> (r: Option<
    String,
>)
    ensures
        text_view(r) == future_pace_text(*guidance, strings),
{
    if guidance.value.den == 0 || guidance.value.num < 0 {
        return None;
    }
    let mut text: String = format_pace_rate_value(guidance.value);
    text.append("%/");
    match guidance.unit {
        FuturePaceUnit::PerDay => {
            text.append(strings.per_day_suffix);
        },
        FuturePaceUnit::PerHour => {
            text.append(strings.per_hour_suffix);
        },
    }
    Some(text)
}

/// A signed whole number of points; zero carries no sign.
pub open spec fn pace_diff_text(diff: Ratio) -> Option<Seq<char>> {
    if diff.den == 0 {
        None
    } else {
        let rounded = round_half_away(diff.num as int, diff.den * 1_000_000);
        if rounded > 0 {
            Some("+"@ + decimal(rounded as nat) + "pt"@)
        } else if rounded < 0 {
            Some("-"@ + decimal((-rounded) as nat) + "pt"@)
        } else {
            Some(decimal(0) + "pt"@)
        }
    }
}

/// "+19pt", "-12pt" or "0pt"; nothing for a value that is not a number.
pub fn format_pace_diff_pt(diff: Ratio) -> (r: Option<String>)
    ensures
        text_view(r) == pace_diff_text(diff),
{
    if diff.den == 0 {
        return None;
    }
    let rounded: i128 = round_away(diff.num, diff.den as i128 * 1_000_000);
    let mut text: String = String::new();
    if rounded > 0 {
        text.append("+");
        assert(text@ =~= "+"@);
        push_decimal(&mut text, rounded as u128);
    } else if rounded < 0 {
        text.append("-");
        assert(text@ =~= "-"@);
        push_decimal(&mut text, (-rounded) as u128);
    } else {
        push_decimal(&mut text, 0);
        assert(text@ =~= decimal(0));
    }
    text.append("pt");
    Some(text)
}

pub open spec fn spec_weekly_exhaustion_lead_secs(
    elapsed_secs: u64,
    remaining_secs: u64,
    used_percent: Quantity,
) -> Option<u64> {
    if elapsed_secs < PACE_JUDGING_MIN_ELAPSED_SECS {
        None
    } else {
        match projected_secs_to_exhaustion(elapsed_secs, used_percent) {
            Some(projected) => {
                let spare = remaining_secs * (projected.den * 1_000_000) - projected.num;
                if spare <= 0 {
                    None
                } else {
                    Some(round_half_away(spare, projected.den * 1_000_000) as u64)
                }
            },
            None => None,
        }
    }
}

/// How long before the reset everything is projected to be used, to the nearest
/// second; nothing where the projection is meaningless or lands after the reset.
#[verifier::when_used_as_spec(spec_weekly_exhaustion_lead_secs)]
pub fn weekly_exhaustion_lead_secs(
    elapsed_secs: u64,
    remaining_secs: u64,
    used_percent: Quantity,
) -> (r: Option<u64>)
    ensures
        r == spec_weekly_exhaustion_lead_secs(elapsed_secs, remaining_secs, used_percent),
{
    if elapsed_secs < PACE_JUDGING_MIN_ELAPSED_SECS {
        return None;
    }
    match projected_secs_to_exhaustion(elapsed_secs, used_percent) {
        None => None,
        Some(projected) => {
            let second: i128 = projected.den as i128 * 1_000_000;
            proof {
                let used = percent_micros(used_percent)->0;
                assert(0 <= (100_000_000 - used) * elapsed_secs <= 100_000_000 * elapsed_secs)
                    by (nonlinear_arith)
                    requires
                        0 <= used <= 100_000_000,
                        elapsed_secs >= 0,
                ;
                assert(0 <= remaining_secs * second <= 18_446_744_073_709_551_615
                    * 100_000_000_000_000) by (nonlinear_arith)
                    requires
                        0 <= remaining_secs <= 18_446_744_073_709_551_615,
                        0 <= second <= 100_000_000_000_000,
                ;
            }
            let spare: i128 = remaining_secs as i128 * second - projected.num;
            if spare <= 0 {
                None
            } else {
                let lead: i128 = round_away(spare, second);
                proof {
                    // The rounded lead is at most the remaining time: the projection is
                    // not negative.
                    assert(2 * (remaining_secs * second) + second == (2 * remaining_secs + 1)
                        * second) by (nonlinear_arith);
                    vstd::arithmetic::div_mod::lemma_div_is_ordered(
                        2 * spare + second,
                        (2 * remaining_secs + 1) * second,
                        2 * second,
                    );
                    assert((2 * remaining_secs + 1) * second / (2 * second) == remaining_secs) by {
                        assert((2 * remaining_secs + 1) * second == remaining_secs * (2 * second)
                            + second) by (nonlinear_arith);
                        vstd::arithmetic::div_mod::lemma_fundamental_div_mod_converse(
                            (2 * remaining_secs + 1) * second,
                            2 * second,
                            remaining_secs as int,
                            second as int,
                        );
                    }
                    vstd::arithmetic::div_mod::lemma_div_pos_is_pos(
                        2 * spare + second,
                        2 * second,
                    );
                }
                Some(lead as u64)
            }
        },
    }
}

/// The projected exhaustion in words, with the lead time filled in.
pub open spec fn exhaustion_text(lead_secs: u64, strings: Strings) -> Seq<char> {
    strings.exhaustion_label@ + " "@ + replace_all(
        strings.exhaustion_before_reset@,
        "{duration}"@,
        duration_text(lead_secs, DurationGranularity::LongWindow, strings),
    )
}

pub fn format_exhaustion_text(lead_secs: u64, strings: Strings) -> (r: String)
    ensures
        r@ == exhaustion_text(lead_secs, strings),
{
    let duration: String = format_duration(lead_secs, DurationGranularity::LongWindow, strings);
    let before_reset: String = replaced(
        strings.exhaustion_before_reset,
        "{duration}",
        duration.as_str(),
    );
    let mut text: String = strings.exhaustion_label.to_owned();
    text.append(" ");
    text.append(before_reset.as_str());
    text
}

/// The lines of one window's pace display.
#[derive(Debug, PartialEq, Eq)]
pub struct PaceGuidanceLines {
    pub primary: String,
    pub secondary: Option<String>,
    pub detail: Option<String>,
    pub is_warning: bool,
}

/// The lines, as values.
pub struct PaceView {
    pub primary: Seq<char>,
    pub secondary: Option<Seq<char>>,
    pub detail: Option<Seq<char>>,
    pub is_warning: bool,
}

impl View for PaceGuidanceLines {
    type V = PaceView;

    open spec fn view(&self) -> PaceView {
        PaceView {
            primary: self.primary@,
            secondary: text_view(self.secondary),
            detail: text_view(self.detail),
            is_warning: self.is_warning,
        }
    }
}

/// The view of optional lines.
pub open spec fn pace_view(lines: Option<PaceGuidanceLines>) -> Option<PaceView> {
    match lines {
        Some(l) => Some(l@),
        None => None,
    }
}

pub open spec fn spec_pace_basis_prefix(basis: DisplayBasis, strings: Strings) -> &'static str {
    match basis {
        DisplayBasis::UsedPercentage => strings.pace_used_prefix,
        DisplayBasis::RemainingAllowance => strings.pace_remaining_prefix,
    }
}

#[verifier::when_used_as_spec(spec_pace_basis_prefix)]
pub fn pace_basis_prefix(basis: DisplayBasis, strings: Strings) -> (r: &'static str)
    ensures
        r == spec_pace_basis_prefix(basis, strings),
{
    match basis {
        DisplayBasis::UsedPercentage => strings.pace_used_prefix,
        DisplayBasis::RemainingAllowance => strings.pace_remaining_prefix,
    }
}

/// The percentage behind its prefix.
pub open spec fn prefixed_percent(
    basis: DisplayBasis,
    used_percent: Quantity,
    strings: Strings,
) -> Seq<char> {
    pace_basis_prefix(basis, strings)@ + " "@ + percent_text(display_value(basis, used_percent))
}

fn format_prefixed_percent(basis: DisplayBasis, used_percent: Quantity, strings: Strings) -> (r:
    String)
    ensures
        r@ == prefixed_percent(basis, used_percent, strings),
{
    let mut text: String = pace_basis_prefix(basis, strings).to_owned();
    text.append(" ");
    text.append(format_percent(display_value(basis, used_percent)).as_str());
    text
}

/// Whether a status is one that warns of running out.
pub open spec fn warns(status: WeeklyPaceStatus) -> bool {
    status is SlightlyOverpacing || status is Overpacing
}

/// The detail line: the distance from the even pace, and the projected exhaustion
/// while the status itself warns.
pub open spec fn weekly_detail(
    elapsed_secs: u64,
    remaining_secs: u64,
    used_percent: Quantity,
    strings: Strings,
) -> Option<Seq<char>> {
    let diff = match pace_diff_text(
        weekly_pace_diff_pt(elapsed_secs, WEEKLY_WINDOW_SECS, used_percent),
    ) {
        Some(d) => Some(strings.pace_diff_label@ + " "@ + d),
        None => None,
    };
    let exhaustion = if warns(weekly_pace_status(elapsed_secs, WEEKLY_WINDOW_SECS, used_percent)) {
        match weekly_exhaustion_lead_secs(elapsed_secs, remaining_secs, used_percent) {
            Some(lead) => Some(exhaustion_text(lead, strings)),
            None => None,
        }
    } else {
        None
    };
    match (diff, exhaustion) {
        (Some(d), Some(e)) => Some(d + "\u{ff5c}"@ + e),
        (Some(d), None) => Some(d),
        (None, Some(e)) => Some(e),
        (None, None) => None,
    }
}

/// The primary line above Compact density: the percentage, and the status word
/// once the pace can be judged.
pub open spec fn weekly_primary(
    elapsed_secs: u64,
    used_percent: Quantity,
    basis: DisplayBasis,
    strings: Strings,
) -> Seq<char> {
    let status = weekly_pace_status(elapsed_secs, WEEKLY_WINDOW_SECS, used_percent);
    if status is Judging {
        prefixed_percent(basis, used_percent, strings)
    } else {
        prefixed_percent(basis, used_percent, strings) + " "@ + weekly_pace_status_text(
            status,
            strings,
        )@
    }
}

/// The secondary line: the time axis, and the rate that the rest allows.
pub open spec fn weekly_secondary(
    elapsed_secs: u64,
    remaining_secs: u64,
    used_percent: Quantity,
    basis: DisplayBasis,
    strings: Strings,
) -> Seq<char> {
    let time = window_time_text(
        basis,
        Some(remaining_secs),
        Some(elapsed_secs),
        DurationGranularity::LongWindow,
        strings,
    )->0;
    match future_pace_guidance(used_percent, remaining_secs) {
        Some(guidance) => match future_pace_text(guidance, strings) {
            Some(future) => time + "\u{ff5c}"@ + strings.future_pace_label@ + " "@ + future,
            None => time,
        },
        None => time,
    }
}

/// The weekly window's lines. Without usable reset data only the value shows; the
/// density decides how much follows.
pub open spec fn weekly_lines(
    used_percent: Option<Quantity>,
    resets_at: Option<Timestamp>,
    now: Timestamp,
    basis: DisplayBasis,
    density: DisplayDensity,
    strings: Strings,
) -> Option<PaceView> {
    match used_percent {
        Some(Quantity::Finite(m)) => {
            let used = Quantity::Finite(m).clamp_percent();
            let pct = prefixed_percent(basis, used, strings);
            let remaining = remaining_secs_at(resets_at, now);
            let elapsed = match remaining {
                Some(secs) => elapsed_secs_in_window(secs, WEEKLY_WINDOW_SECS),
                None => None,
            };
            match (remaining, elapsed) {
                (Some(remaining), Some(elapsed)) => match density {
                    DisplayDensity::Compact => Some(
                        PaceView {
                            primary: pct + " \u{b7} "@ + window_time_text(
                                basis,
                                Some(remaining),
                                Some(elapsed),
                                DurationGranularity::LongWindow,
                                strings,
                            )->0,
                            secondary: None,
                            detail: None,
                            is_warning: false,
                        },
                    ),
                    _ => Some(
                        PaceView {
                            primary: weekly_primary(elapsed, used, basis, strings),
                            secondary: Some(
                                weekly_secondary(elapsed, remaining, used, basis, strings),
                            ),
                            detail: if density is Detailed {
                                weekly_detail(elapsed, remaining, used, strings)
                            } else {
                                None
                            },
                            is_warning: false,
                        },
                    ),
                },
                _ => Some(
                    PaceView { primary: pct, secondary: None, detail: None, is_warning: false },
                ),
            }
        },
        _ => None,
    }
}

/// Builds the weekly window's pace display; nothing where the used percentage is
/// unknown or no number.
pub fn weekly_pace_guidance_lines(
    used_percent: Option<Quantity>,
    resets_at: Option<Timestamp>,
    now: Timestamp,
    basis: DisplayBasis,
    density: DisplayDensity,
    strings: Strings,
) -> (r: Option<PaceGuidanceLines>)
    ensures
        pace_view(r) == weekly_lines(used_percent, resets_at, now, basis, density, strings),
{
    let used_percent: Quantity = match used_percent {
        Some(q) => q,
        None => {
            return None;
        },
    };
    if !used_percent.is_finite() {
        return None;
    }
    let used_percent: Quantity = used_percent.clamp_percent();
    let pct_text: String = format_prefixed_percent(basis, used_percent, strings);
    let remaining: Option<u64> = remaining_secs_at(resets_at, now);
    let elapsed: Option<u64> = match remaining {
        Some(secs) => elapsed_secs_in_window(secs, WEEKLY_WINDOW_SECS),
        None => None,
    };
    let (remaining_secs, elapsed_secs): (u64, u64) = match (remaining, elapsed) {
        (Some(remaining), Some(elapsed)) => (remaining, elapsed),
        _ => {
            return Some(
                PaceGuidanceLines {
                    primary: pct_text,
                    secondary: None,
                    detail: None,
                    is_warning: false,
                },
            );
        },
    };
    let time_text: String = match format_window_time(
        basis,
        Some(remaining_secs),
        Some(elapsed_secs),
        DurationGranularity::LongWindow,
        strings,
    ) {
        Some(text) => text,
        None => {
            return None;
        },
    };
    if let DisplayDensity::Compact = density {
        let mut primary: String = pct_text;
        primary.append(" \u{b7} ");
        primary.append(time_text.as_str());
        return Some(
            PaceGuidanceLines { primary, secondary: None, detail: None, is_warning: false },
        );
    }
    let status: WeeklyPaceStatus = weekly_pace_status(
        elapsed_secs,
        WEEKLY_WINDOW_SECS,
        used_percent,
    );
    let mut primary: String = pct_text;
    if status != WeeklyPaceStatus::Judging {
        primary.append(" ");
        primary.append(weekly_pace_status_text(status, strings));
    }
    let mut secondary: String = time_text;
    match future_pace_guidance(used_percent, remaining_secs) {
        Some(guidance) => match format_future_pace_guidance(&guidance, strings) {
            Some(future) => {
                secondary.append("\u{ff5c}");
                secondary.append(strings.future_pace_label);
                secondary.append(" ");
                secondary.append(future.as_str());
            },
            None => {},
        },
        None => {},
    }
    if let DisplayDensity::Standard = density {
        return Some(
            PaceGuidanceLines {
                primary,
                secondary: Some(secondary),
                detail: None,
                is_warning: false,
            },
        );
    }
    let detail: Option<String> = format_weekly_detail(
        elapsed_secs,
        remaining_secs,
        used_percent,
        strings,
    );
    Some(PaceGuidanceLines { primary, secondary: Some(secondary), detail, is_warning: false })
}

fn format_weekly_detail(
    elapsed_secs: u64,
    remaining_secs: u64,
    used_percent: Quantity,
    strings: Strings,
) -> (r: Option<String>)
    ensures
        text_view(r) == weekly_detail(elapsed_secs, remaining_secs, used_percent, strings),
{
    let diff: Ratio = weekly_pace_diff_pt(elapsed_secs, WEEKLY_WINDOW_SECS, used_percent);
    let diff_text: Option<String> = match format_pace_diff_pt(diff) {
        Some(points) => {
            let mut text: String = strings.pace_diff_label.to_owned();
            text.append(" ");
            text.append(points.as_str());
            Some(text)
        },
        None => None,
    };
    let lead: Option<u64> = weekly_exhaustion_lead_secs(elapsed_secs, remaining_secs, used_percent);
    let exhaustion: Option<String> = match weekly_pace_status(
        elapsed_secs,
        WEEKLY_WINDOW_SECS,
        used_percent,
    ) {
        WeeklyPaceStatus::SlightlyOverpacing | WeeklyPaceStatus::Overpacing => match lead {
            Some(secs) => Some(format_exhaustion_text(secs, strings)),
            None => None,
        },
        _ => None,
    };
    match (diff_text, exhaustion) {
        (Some(mut d), Some(e)) => {
            d.append("\u{ff5c}");
            d.append(e.as_str());
            Some(d)
        },
        (Some(d), None) => Some(d),
        (None, Some(e)) => Some(e),
        (None, None) => None,
    }
}

/// While the weekly status does not warn, the detail line is the pace difference
/// alone: a projected exhaustion never stands beside a calm status.
pub proof fn exhaustion_shows_only_in_warning_bands(
    elapsed_secs: u64,
    remaining_secs: u64,
    used_percent: Quantity,
    strings: Strings,
)
    requires
        !warns(weekly_pace_status(elapsed_secs, WEEKLY_WINDOW_SECS, used_percent)),
    ensures
        weekly_detail(elapsed_secs, remaining_secs, used_percent, strings) == (match pace_diff_text(
            weekly_pace_diff_pt(elapsed_secs, WEEKLY_WINDOW_SECS, used_percent),
        ) {
            Some(d) => Some(strings.pace_diff_label@ + " "@ + d),
            None => None,
        }),
{
}

/// Whether the short window is overpacing at a point in time.
pub open spec fn session_overpacing(
    used_percent: Quantity,
    resets_at: Option<Timestamp>,
    now: Timestamp,
    sensitivity: ShortWindowAlertSensitivity,
) -> bool {
    match remaining_secs_at(resets_at, now) {
        Some(remaining) => match elapsed_secs_in_window(remaining, SESSION_WINDOW_SECS) {
            Some(elapsed) => short_window_is_overpacing(
                elapsed,
                remaining,
                used_percent,
                sensitivity,
            ),
            None => false,
        },
        None => false,
    }
}

/// The short window's line: the value, the one warning word where it is due, and
/// the time axis where it is known.
pub open spec fn short_window_lines(
    used_percent: Option<Quantity>,
    resets_at: Option<Timestamp>,
    now: Timestamp,
    basis: DisplayBasis,
    visibility: ShortWindowVisibility,
    sensitivity: ShortWindowAlertSensitivity,
    strings: Strings,
) -> Option<PaceView> {
    match used_percent {
        Some(Quantity::Finite(m)) => {
            let used = Quantity::Finite(m).clamp_percent();
            let overpacing = session_overpacing(used, resets_at, now, sensitivity);
            let remaining = remaining_secs_at(resets_at, now);
            let elapsed = match remaining {
                Some(secs) => elapsed_secs_in_window(secs, SESSION_WINDOW_SECS),
                None => None,
            };
            let value = if overpacing {
                prefixed_percent(basis, used, strings) + " "@ + strings.weekly_pace_overpacing@
            } else {
                prefixed_percent(basis, used, strings)
            };
            if visibility is Hidden || (visibility is WarningOnly && !overpacing) {
                None
            } else {
                Some(
                    PaceView {
                        primary: match window_time_text(
                            basis,
                            remaining,
                            elapsed,
                            DurationGranularity::ShortWindow,
                            strings,
                        ) {
                            Some(time) => value + " \u{b7} "@ + time,
                            None => value,
                        },
                        secondary: None,
                        detail: None,
                        is_warning: overpacing,
                    },
                )
            }
        },
        _ => None,
    }
}

/// Builds the short window's pace display, or nothing when it is not to be shown.
pub fn short_window_pace_guidance_lines(
    used_percent: Option<Quantity>,
    resets_at: Option<Timestamp>,
    now: Timestamp,
    basis: DisplayBasis,
    visibility: ShortWindowVisibility,
    sensitivity: ShortWindowAlertSensitivity,
    strings: Strings,
) -> (r: Option<PaceGuidanceLines>)
    ensures
        pace_view(r) == short_window_lines(
            used_percent,
            resets_at,
            now,
            basis,
            visibility,
            sensitivity,
            strings,
        ),
{
    if let ShortWindowVisibility::Hidden = visibility {
        return None;
    }
    let used_percent: Quantity = match used_percent {
        Some(q) => q,
        None => {
            return None;
        },
    };
    if !used_percent.is_finite() {
        return None;
    }
    let used_percent: Quantity = used_percent.clamp_percent();
    let remaining: Option<u64> = remaining_secs_at(resets_at, now);
    let elapsed: Option<u64> = match remaining {
        Some(secs) => elapsed_secs_in_window(secs, SESSION_WINDOW_SECS),
        None => None,
    };
    let is_overpacing: bool = match (elapsed, remaining) {
        (Some(elapsed), Some(remaining)) => short_window_is_overpacing(
            elapsed,
            remaining,
            used_percent,
            sensitivity,
        ),
        _ => false,
    };
    if visibility == ShortWindowVisibility::WarningOnly && !is_overpacing {
        return None;
    }
    let mut primary: String = format_prefixed_percent(basis, used_percent, strings);
    if is_overpacing {
        primary.append(" ");
        primary.append(strings.weekly_pace_overpacing);
    }
    match format_window_time(
        basis,
        remaining,
        elapsed,
        DurationGranularity::ShortWindow,
        strings,
    ) {
        Some(time_text) => {
            primary.append(" \u{b7} ");
            primary.append(time_text.as_str());
        },
        None => {},
    }
    Some(PaceGuidanceLines { primary, secondary: None, detail: None, is_warning: is_overpacing })
}

/// Hidden shows nothing; warning-only shows exactly the overpacing windows, and
/// what it shows is a warning; always shows every known value.
pub proof fn short_window_visibility_rules(
    used_percent: Quantity,
    resets_at: Option<Timestamp>,
    now: Timestamp,
    basis: DisplayBasis,
    sensitivity: ShortWindowAlertSensitivity,
    strings: Strings,
)
    requires
        used_percent.is_finite(),
    ensures
        short_window_lines(
            Some(used_percent),
            resets_at,
            now,
            basis,
            ShortWindowVisibility::Hidden,
            sensitivity,
            strings,
        ) is None,
        short_window_lines(
            Some(used_percent),
            resets_at,
            now,
            basis,
            ShortWindowVisibility::WarningOnly,
            sensitivity,
            strings,
        ) is Some == session_overpacing(
            used_percent.clamp_percent(),
            resets_at,
            now,
            sensitivity,
        ),
        (match short_window_lines(
            Some(used_percent),
            resets_at,
            now,
            basis,
            ShortWindowVisibility::Always,
            sensitivity,
            strings,
        ) {
            Some(lines) => lines.is_warning == session_overpacing(
                used_percent.clamp_percent(),
                resets_at,
                now,
                sensitivity,
            ),
            None => false,
        }),
{
}

/// Time left in the week, behind the word for "remaining".
pub open spec fn weekly_remaining_text(
    resets_at: Option<Timestamp>,
    now: Timestamp,
    strings: Strings,
) -> Option<Seq<char>> {
    match remaining_secs_at(resets_at, now) {
        Some(secs) => Some(
            strings.pace_remaining_prefix@ + " "@ + duration_text(
                secs,
                DurationGranularity::LongWindow,
                strings,
            ),
        ),
        None => None,
    }
}

pub fn compact_weekly_remaining_text(
    resets_at: Option<Timestamp>,
    now: Timestamp,
    strings: Strings,
) -> (r: Option<String>)
    ensures
        text_view(r) == weekly_remaining_text(resets_at, now, strings),
{
    match remaining_secs_at(resets_at, now) {
        Some(secs) => {
            let mut text: String = strings.pace_remaining_prefix.to_owned();
            text.append(" ");
            text.append(
                format_duration(secs, DurationGranularity::LongWindow, strings).as_str(),
            );
            Some(text)
        },
        None => None,
    }
}

/// Time left in the week for a cell; only a ready cell with data has one.
pub open spec fn cell_weekly_remaining(
    state: CellState,
    section: Option<UsageSection>,
    now: Timestamp,
    strings: Strings,
) -> Option<Seq<char>> {
    match (state, section) {
        (CellState::Ready, Some(section)) => weekly_remaining_text(section.resets_at, now, strings),
        _ => None,
    }
}

pub fn compact_weekly_remaining_for_cell(
    state: CellState,
    section: Option<UsageSection>,
    now: Timestamp,
    strings: Strings,
) -> (r: Option<String>)
    ensures
        text_view(r) == cell_weekly_remaining(state, section, now, strings),
{
    match (state, section) {
        (CellState::Ready, Some(section)) => compact_weekly_remaining_text(
            section.resets_at,
            now,
            strings,
        ),
        _ => None,
    }
}

/// Weekly lines of a cell; only a ready cell with data has any.
pub open spec fn cell_weekly_lines(
    state: CellState,
    section: Option<UsageSection>,
    now: Timestamp,
    basis: DisplayBasis,
    density: DisplayDensity,
    strings: Strings,
) -> Option<PaceView> {
    match (state, section) {
        (CellState::Ready, Some(section)) => weekly_lines(
            Some(section.percentage),
            section.resets_at,
            now,
            basis,
            density,
            strings,
        ),
        _ => None,
    }
}

pub fn weekly_pace_for_cell(
    state: CellState,
    section: Option<UsageSection>,
    now: Timestamp,
    basis: DisplayBasis,
    density: DisplayDensity,
    strings: Strings,
) -> (r: Option<PaceGuidanceLines>)
    ensures
        pace_view(r) == cell_weekly_lines(state, section, now, basis, density, strings),
{
    match (state, section) {
        (CellState::Ready, Some(section)) => weekly_pace_guidance_lines(
            Some(section.percentage),
            section.resets_at,
            now,
            basis,
            density,
            strings,
        ),
        _ => None,
    }
}

/// Short-window lines of a cell; only a ready cell with data has any.
pub open spec fn cell_session_lines(
    state: CellState,
    section: Option<UsageSection>,
    now: Timestamp,
    basis: DisplayBasis,
    visibility: ShortWindowVisibility,
    sensitivity: ShortWindowAlertSensitivity,
    strings: Strings,
) -> Option<PaceView> {
    match (state, section) {
        (CellState::Ready, Some(section)) => short_window_lines(
            Some(section.percentage),
            section.resets_at,
            now,
            basis,
            visibility,
            sensitivity,
            strings,
        ),
        _ => None,
    }
}

pub fn session_pace_for_cell(
    state: CellState,
    section: Option<UsageSection>,
    now: Timestamp,
    basis: DisplayBasis,
    visibility: ShortWindowVisibility,
    sensitivity: ShortWindowAlertSensitivity,
    strings: Strings,
) -> (r: Option<PaceGuidanceLines>)
    ensures
        pace_view(r) == cell_session_lines(
            state,
            section,
            now,
            basis,
            visibility,
            sensitivity,
            strings,
        ),
{
    match (state, section) {
        (CellState::Ready, Some(section)) => short_window_pace_guidance_lines(
            Some(section.percentage),
            section.resets_at,
            now,
            basis,
            visibility,
            sensitivity,
            strings,
        ),
        _ => None,
    }
}

/// A cell that is not ready carries no pace text and no remaining time, whatever
/// the cache still holds for it.
pub proof fn non_ready_cell_has_no_pace(
    state: CellState,
    cached: Option<UsageSection>,
    now: Timestamp,
    basis: DisplayBasis,
    density: DisplayDensity,
    visibility: ShortWindowVisibility,
    sensitivity: ShortWindowAlertSensitivity,
    strings: Strings,
)
    requires
        !(state is Ready),
    ensures
        cell_weekly_remaining(state, cached, now, strings) is None,
        cell_weekly_lines(state, cached, now, basis, density, strings) is None,
        cell_session_lines(state, cached, now, basis, visibility, sensitivity, strings) is None,
{
}

// ---- what the judgements mean -------------------------------------------------------

/// A used share in millionths, kept within zero and one hundred percent.
pub open spec fn kept_share(m: int) -> int {
    if m < 0 {
        0
    } else if m > 100_000_000 {
        100_000_000
    } else {
        m
    }
}

/// The seconds of a unit that a rate is told in.
pub open spec fn unit_secs(unit: FuturePaceUnit) -> int {
    match unit {
        FuturePaceUnit::PerDay => 86_400,
        FuturePaceUnit::PerHour => 3_600,
    }
}

/// Spending at the guided rate until the reset uses exactly what is left. The rate is per
/// day from a day left on, per hour below, and there is one as long as time is left.
pub proof fn guided_rate_spends_exactly_the_rest(m: i64, remaining_secs: u64)
    ensures
        (match future_pace_guidance(Quantity::Finite(m), remaining_secs) {
            Some(guidance) => {
                &&& remaining_secs > 0
                &&& guidance.value.den > 0
                &&& guidance.value.num * remaining_secs == (100_000_000 - kept_share(m as int))
                    * unit_secs(guidance.unit) * guidance.value.den
                &&& guidance.unit is PerDay <==> remaining_secs >= 86_400
            },
            None => remaining_secs == 0,
        }),
        future_pace_guidance(Quantity::PosInfinity, remaining_secs) == future_pace_guidance(
            Quantity::Finite(100_000_000),
            remaining_secs,
        ),
        future_pace_guidance(Quantity::NegInfinity, remaining_secs) == future_pace_guidance(
            Quantity::Finite(0),
            remaining_secs,
        ),
        future_pace_guidance(Quantity::NotANumber, remaining_secs) matches Some(guidance)
            ==> guidance.value.num == 0,
{
}

/// Twice the time left halves the rate, as long as it is told in the same unit.
pub proof fn twice_the_time_halves_the_rate(used_percent: Quantity, remaining_secs: u64)
    requires
        0 < remaining_secs,
        2 * remaining_secs <= u64::MAX,
        remaining_secs >= 86_400 || 2 * remaining_secs < 86_400,
    ensures
        ({
            let soon = future_pace_guidance(used_percent, remaining_secs)->0;
            let later = future_pace_guidance(used_percent, (2 * remaining_secs) as u64)->0;
            &&& soon.unit == later.unit
            &&& soon.value.num * later.value.den == 2 * later.value.num * soon.value.den
        }),
{
    let soon = future_pace_guidance(used_percent, remaining_secs)->0;
    let num = soon.value.num as int;
    let r = remaining_secs as int;
    assert(num * (2 * r) == 2 * num * r) by (nonlinear_arith);
}

/// More used never raises the rate.
pub proof fn more_use_never_raises_the_rate(m: i64, more: i64, remaining_secs: u64)
    requires
        m <= more,
        0 < remaining_secs,
    ensures
        ({
            let a = future_pace_guidance(Quantity::Finite(m), remaining_secs)->0;
            let b = future_pace_guidance(Quantity::Finite(more), remaining_secs)->0;
            a.unit == b.unit && b.value.num * a.value.den <= a.value.num * b.value.den
        }),
{
    let a = future_pace_guidance(Quantity::Finite(m), remaining_secs)->0.value.num as int;
    let b = future_pace_guidance(Quantity::Finite(more), remaining_secs)->0.value.num as int;
    let r = remaining_secs as int;
    assert(b * r <= a * r) by (nonlinear_arith)
        requires
            b <= a,
            0 <= r,
    ;
}

/// The pace difference is the used share less the elapsed share of the window, in
/// points: zero where use keeps step with time.
pub proof fn pace_difference_compares_use_with_time(elapsed_secs: u64, window_secs: u64, m: i64)
    requires
        window_secs > 0,
    ensures
        ({
            let diff = weekly_pace_diff_pt(elapsed_secs, window_secs, Quantity::Finite(m));
            let spent = if elapsed_secs < window_secs {
                elapsed_secs as int
            } else {
                window_secs as int
            };
            let used = kept_share(m as int);
            &&& diff.den > 0
            &&& diff.num * window_secs == (used * window_secs - 100_000_000 * spent) * diff.den
            &&& diff.num == 0 <==> used * window_secs == 100_000_000 * spent
            &&& diff.num > 0 <==> used * window_secs > 100_000_000 * spent
        }),
{
    let used = kept_share(m as int);
    assert(0 <= used * window_secs <= 100_000_000 * window_secs) by (nonlinear_arith)
        requires
            0 <= used <= 100_000_000,
            window_secs >= 0,
    ;
}

/// The status, told from use and time alone: not judged in the first six hours; then by
/// how far the used share lies from the elapsed share, in bands that end at ten points
/// below, ten points above and twenty-five points above.
pub proof fn status_tells_how_far_use_is_from_time(elapsed_secs: u64, window_secs: u64, m: i64)
    requires
        window_secs > 0,
    ensures
        ({
            let status = weekly_pace_status(elapsed_secs, window_secs, Quantity::Finite(m));
            let spent = if elapsed_secs < window_secs {
                elapsed_secs as int
            } else {
                window_secs as int
            };
            let window = window_secs as int;
            let gap = kept_share(m as int) * window - 100_000_000 * spent;
            &&& status is Judging <==> elapsed_secs < 21_600
            &&& elapsed_secs >= 21_600 ==> {
                &&& status is UnderPace <==> gap <= -10_000_000 * window
                &&& status is OnTrack <==> -10_000_000 * window < gap <= 10_000_000 * window
                &&& status is SlightlyOverpacing <==> 10_000_000 * window < gap <= 25_000_000
                    * window
                &&& status is Overpacing <==> 25_000_000 * window < gap
            }
        }),
{
    let used = kept_share(m as int);
    let w = window_secs as int;
    assert(0 <= used * w <= 100_000_000 * w) by (nonlinear_arith)
        requires
            0 <= used <= 100_000_000,
            w >= 0,
    ;
    assert(-10 * 1_000_000 * w == -10_000_000 * w && 10 * 1_000_000 * w == 10_000_000 * w && 25
        * 1_000_000 * w == 25_000_000 * w);
    let diff = weekly_pace_diff_pt(elapsed_secs, window_secs, Quantity::Finite(m));
    assert(diff.den == w);
}

/// How alarming a status is.
pub open spec fn alarm(status: WeeklyPaceStatus) -> int {
    match status {
        WeeklyPaceStatus::Judging => 0,
        WeeklyPaceStatus::UnderPace => 1,
        WeeklyPaceStatus::OnTrack => 2,
        WeeklyPaceStatus::SlightlyOverpacing => 3,
        WeeklyPaceStatus::Overpacing => 4,
    }
}

/// At one time, more used never sounds calmer; with the same use, a later judgement never
/// sounds more alarming than an earlier one.
pub proof fn alarm_grows_with_use_and_falls_with_time(
    elapsed_secs: u64,
    later_secs: u64,
    window_secs: u64,
    m: i64,
    more: i64,
)
    requires
        window_secs > 0,
        21_600 <= elapsed_secs <= later_secs,
        m <= more,
    ensures
        alarm(weekly_pace_status(later_secs, window_secs, Quantity::Finite(m))) <= alarm(
            weekly_pace_status(elapsed_secs, window_secs, Quantity::Finite(more)),
        ),
{
    status_tells_how_far_use_is_from_time(later_secs, window_secs, m);
    status_tells_how_far_use_is_from_time(elapsed_secs, window_secs, more);
    let w = window_secs as int;
    let a = kept_share(m as int);
    let b = kept_share(more as int);
    assert(a * w <= b * w) by (nonlinear_arith)
        requires
            a <= b,
            0 <= w,
    ;
    assert(-10_000_000 * w <= 10_000_000 * w <= 25_000_000 * w);
}

/// Going on at the average pace so far, the projected time uses up exactly what is left.
/// There is a projection for every use short of everything, once time has passed.
pub proof fn projection_uses_up_the_rest(elapsed_secs: u64, m: i64)
    ensures
        (match projected_secs_to_exhaustion(elapsed_secs, Quantity::Finite(m)) {
            Some(projected) => {
                &&& 0 < m < 100_000_000 && elapsed_secs > 0
                &&& projected.den > 0
                &&& m * projected.num == (100_000_000 - m) * elapsed_secs * 1_000_000
                    * projected.den
            },
            None => m <= 0 || m >= 100_000_000 || elapsed_secs == 0,
        }),
{
    if 0 < m < 100_000_000 {
        let num = (100_000_000 - m) * elapsed_secs * 1_000_000;
        assert(0 <= (100_000_000 - m) * elapsed_secs <= 100_000_000 * elapsed_secs)
            by (nonlinear_arith)
            requires
                0 < m < 100_000_000,
                elapsed_secs >= 0,
        ;
        assert(m * num == num * m) by (nonlinear_arith);
    }
}

/// The exhaustion is told only where the projection ends before the reset, and its lead
/// is, to the nearest second, what lies between the two.
pub proof fn exhaustion_lead_ends_at_the_reset(elapsed_secs: u64, remaining_secs: u64, m: i64)
    ensures
        (match (
            projected_secs_to_exhaustion(elapsed_secs, Quantity::Finite(m)),
            weekly_exhaustion_lead_secs(elapsed_secs, remaining_secs, Quantity::Finite(m)),
        ) {
            (Some(projected), Some(lead)) => {
                let second = projected.den * 1_000_000;
                &&& elapsed_secs >= 21_600
                &&& projected.num < remaining_secs * second
                &&& lead <= remaining_secs
                &&& -second <= 2 * (remaining_secs * second - projected.num - lead * second)
                    <= second
            },
            (Some(projected), None) => elapsed_secs < 21_600 || projected.num >= remaining_secs * (
            projected.den * 1_000_000),
            (None, lead) => lead is None,
        }),
{
    match projected_secs_to_exhaustion(elapsed_secs, Quantity::Finite(m)) {
        Some(projected) => {
            projection_uses_up_the_rest(elapsed_secs, m);
            let second = projected.den * 1_000_000;
            let r = remaining_secs as int;
            let spare = r * second - projected.num;
            assert(0 <= projected.num) by {
                assert(0 <= (100_000_000 - m) * elapsed_secs <= 100_000_000 * elapsed_secs)
                    by (nonlinear_arith)
                    requires
                        0 < m < 100_000_000,
                        elapsed_secs >= 0,
                ;
            }
            if spare > 0 && elapsed_secs >= 21_600 {
                crate::numbers::round_half_away_is_nearest(spare, second);
                let lead = round_half_away(spare, second);
                assert(0 <= lead <= r) by (nonlinear_arith)
                    requires
                        -second <= 2 * (spare - lead * second) <= second,
                        0 < spare <= r * second,
                        0 < second,
                ;
            }
        },
        None => {},
    }
}

/// A stricter sensitivity warns of everything that a laxer one warns of.
pub proof fn stricter_sensitivities_warn_of_more(
    elapsed_secs: u64,
    remaining_secs: u64,
    used_percent: Quantity,
)
    ensures
        short_window_is_overpacing(
            elapsed_secs,
            remaining_secs,
            used_percent,
            ShortWindowAlertSensitivity::Relaxed,
        ) ==> short_window_is_overpacing(
            elapsed_secs,
            remaining_secs,
            used_percent,
            ShortWindowAlertSensitivity::Standard,
        ),
        short_window_is_overpacing(
            elapsed_secs,
            remaining_secs,
            used_percent,
            ShortWindowAlertSensitivity::Standard,
        ) ==> short_window_is_overpacing(
            elapsed_secs,
            remaining_secs,
            used_percent,
            ShortWindowAlertSensitivity::Sensitive,
        ),
{
    match percent_micros(used_percent) {
        Some(used) => {
            let r = remaining_secs as int;
            assert((r - 4_500) * used <= (r - 2_700) * used <= (r - 1_800) * used)
                by (nonlinear_arith)
                requires
                    0 <= used,
            ;
        },
        None => {},
    }
}

/// The warning, told from use and time alone: after the grace period and from the least
/// use on, it comes where the use so far, carried on for the time left less the lead,
/// would reach everything.
pub proof fn warning_tells_that_the_window_will_not_last(
    elapsed_secs: u64,
    remaining_secs: u64,
    m: i64,
    sensitivity: ShortWindowAlertSensitivity,
)
    requires
        0 <= m <= 100_000_000,
    ensures
        ({
            let (grace, least, lead) = match sensitivity {
                ShortWindowAlertSensitivity::Sensitive => (1_200int, 30_000_000int, 1_800int),
                ShortWindowAlertSensitivity::Standard => (1_800int, 40_000_000int, 2_700int),
                ShortWindowAlertSensitivity::Relaxed => (2_700int, 50_000_000int, 4_500int),
            };
            short_window_is_overpacing(
                elapsed_secs,
                remaining_secs,
                Quantity::Finite(m),
                sensitivity,
            ) <==> elapsed_secs >= grace && m >= least && (m == 100_000_000 || m * (elapsed_secs
                + remaining_secs - lead) >= 100_000_000 * elapsed_secs)
        }),
{
    let e = elapsed_secs as int;
    let r = remaining_secs as int;
    let lead = sensitivity.thresholds().exhaustion_lead_secs as int;
    let u = m as int;
    assert(u * (e + r - lead) == (r - lead) * u + u * e) by (nonlinear_arith);
    assert((100_000_000 - u) * e == 100_000_000 * e - u * e) by (nonlinear_arith);
}

// ---- what the lines say ---------------------------------------------------------------

/// Under the used basis a window's time is the time spent, under the remaining basis the
/// time left; the other time makes no difference, and the text ends with the duration.
pub proof fn time_axis_follows_the_basis(
    remaining_secs: Option<u64>,
    other_remaining_secs: Option<u64>,
    elapsed_secs: Option<u64>,
    other_elapsed_secs: Option<u64>,
    granularity: DurationGranularity,
    strings: Strings,
)
    ensures
        ({
            let used = DisplayBasis::UsedPercentage;
            let left = DisplayBasis::RemainingAllowance;
            let spent_text = window_time_text(
                used,
                remaining_secs,
                elapsed_secs,
                granularity,
                strings,
            );
            let left_text = window_time_text(
                left,
                remaining_secs,
                elapsed_secs,
                granularity,
                strings,
            );
            &&& spent_text == window_time_text(
                used,
                other_remaining_secs,
                elapsed_secs,
                granularity,
                strings,
            )
            &&& left_text == window_time_text(
                left,
                remaining_secs,
                other_elapsed_secs,
                granularity,
                strings,
            )
            &&& match (spent_text, elapsed_secs) {
                (Some(text), Some(secs)) => strings.elapsed@.is_prefix_of(text) && duration_text(
                    secs,
                    granularity,
                    strings,
                ).is_suffix_of(text),
                (None, None) => true,
                _ => false,
            }
            &&& match (left_text, remaining_secs) {
                (Some(text), Some(secs)) => strings.reset_in@.is_prefix_of(text) && duration_text(
                    secs,
                    granularity,
                    strings,
                ).is_suffix_of(text),
                (None, None) => true,
                _ => false,
            }
        }),
{
    if let Some(secs) = elapsed_secs {
        let d = duration_text(secs, granularity, strings);
        let text = strings.elapsed@ + " "@ + d;
        assert(strings.elapsed@ =~= text.take(strings.elapsed@.len() as int));
        assert(d =~= text.skip(text.len() - d.len()));
    }
    if let Some(secs) = remaining_secs {
        let d = duration_text(secs, granularity, strings);
        let text = strings.reset_in@ + strings.reset_in_separator@ + d;
        assert(strings.reset_in@ =~= text.take(strings.reset_in@.len() as int));
        assert(d =~= text.skip(text.len() - d.len()));
    }
}

/// A rate is told with the word of its own unit behind it.
pub proof fn rate_is_told_in_its_unit(guidance: FuturePaceGuidance, strings: Strings)
    requires
        guidance.value.den > 0,
        guidance.value.num >= 0,
    ensures
        (match future_pace_text(guidance, strings) {
            Some(text) => pace_rate_text(guidance.value).is_prefix_of(text) && (match guidance.unit {
                FuturePaceUnit::PerDay => ("%/"@ + strings.per_day_suffix@).is_suffix_of(text),
                FuturePaceUnit::PerHour => ("%/"@ + strings.per_hour_suffix@).is_suffix_of(text),
            }),
            None => false,
        }),
{
    let rate = pace_rate_text(guidance.value);
    let unit = match guidance.unit {
        FuturePaceUnit::PerDay => strings.per_day_suffix@,
        FuturePaceUnit::PerHour => strings.per_hour_suffix@,
    };
    let text = rate + "%/"@ + unit;
    assert(rate =~= text.take(rate.len() as int));
    assert(("%/"@ + unit) =~= text.skip(text.len() - ("%/"@ + unit).len()));
}

/// The weekly lines of a window that has `remaining_secs` left. The first line tells the
/// value under its basis and, above the compact density, ends with the status word once
/// there is one; the second tells the time and ends with the rate that the rest allows;
/// only the detailed density has a third. A weekly window never warns in its lines.
pub proof fn weekly_lines_tell_value_status_time_and_rate(
    m: i64,
    resets_at: Option<Timestamp>,
    now: Timestamp,
    basis: DisplayBasis,
    density: DisplayDensity,
    strings: Strings,
)
    requires
        remaining_secs_at(resets_at, now) matches Some(secs) && secs <= 604_800,
    ensures
        ({
            let remaining = remaining_secs_at(resets_at, now)->0;
            let elapsed = (604_800 - remaining) as u64;
            let used = Quantity::Finite(m);
            let value = percent_text(display_value(basis, used));
            let prefix = match basis {
                DisplayBasis::UsedPercentage => strings.pace_used_prefix@,
                DisplayBasis::RemainingAllowance => strings.pace_remaining_prefix@,
            };
            let status = weekly_pace_status(elapsed, 604_800, used);
            let time = match basis {
                DisplayBasis::UsedPercentage => elapsed,
                DisplayBasis::RemainingAllowance => remaining,
            };
            match weekly_lines(Some(used), resets_at, now, basis, density, strings) {
                Some(lines) => {
                    &&& (prefix + " "@ + value).is_prefix_of(lines.primary)
                    &&& !lines.is_warning
                    &&& density is Compact ==> lines.secondary is None && lines.detail is None
                        && duration_text(
                        time,
                        DurationGranularity::LongWindow,
                        strings,
                    ).is_suffix_of(lines.primary)
                    &&& !(density is Compact) ==> {
                        &&& status is Judging ==> lines.primary == prefix + " "@ + value
                        &&& !(status is Judging) ==> lines.primary == prefix + " "@ + value + " "@
                            + weekly_pace_status_text(status, strings)@
                        &&& lines.secondary matches Some(line) && (future_pace_guidance(
                            used,
                            remaining,
                        ) matches Some(guidance) ==> future_pace_text(
                            guidance,
                            strings,
                        )->0.is_suffix_of(line))
                        &&& lines.detail is Some ==> density is Detailed
                    }
                    &&& density is Detailed ==> lines.detail is Some
                },
                None => false,
            }
        }),
{
    let remaining = remaining_secs_at(resets_at, now)->0;
    let elapsed = (604_800 - remaining) as u64;
    let used = Quantity::Finite(m);
    let kept = used.clamp_percent();
    assert(display_value(basis, kept) == display_value(basis, used));
    assert(weekly_pace_status(elapsed, 604_800, kept) == weekly_pace_status(
        elapsed,
        604_800,
        used,
    ));
    assert(future_pace_guidance(kept, remaining) == future_pace_guidance(used, remaining));
    let pct = prefixed_percent(basis, kept, strings);
    let lines = weekly_lines(Some(used), resets_at, now, basis, density, strings)->0;
    assert(pct =~= lines.primary.take(pct.len() as int));
    time_axis_follows_the_basis(
        Some(remaining),
        Some(remaining),
        Some(elapsed),
        Some(elapsed),
        DurationGranularity::LongWindow,
        strings,
    );
    let time = window_time_text(
        basis,
        Some(remaining),
        Some(elapsed),
        DurationGranularity::LongWindow,
        strings,
    )->0;
    if density is Compact {
        let d = duration_text(
            match basis {
                DisplayBasis::UsedPercentage => elapsed,
                DisplayBasis::RemainingAllowance => remaining,
            },
            DurationGranularity::LongWindow,
            strings,
        );
        assert(d =~= time.skip(time.len() - d.len()));
        assert(d =~= lines.primary.skip(lines.primary.len() - d.len()));
    } else {
        match future_pace_guidance(used, remaining) {
            Some(guidance) => {
                let future = future_pace_text(guidance, strings)->0;
                let line = lines.secondary->0;
                guided_rate_spends_exactly_the_rest(m, remaining);
                assert(line == time + "\u{ff5c}"@ + strings.future_pace_label@ + " "@ + future);
                assert(future =~= line.skip(line.len() - future.len()));
            },
            None => {},
        }
    }
}

/// Without a usable reset time the weekly lines tell the value alone.
pub proof fn weekly_lines_without_a_reset_tell_the_value(
    m: i64,
    resets_at: Option<Timestamp>,
    now: Timestamp,
    basis: DisplayBasis,
    density: DisplayDensity,
    strings: Strings,
)
    requires
        remaining_secs_at(resets_at, now) matches Some(secs) ==> secs > 604_800 + 300,
    ensures
        (match weekly_lines(Some(Quantity::Finite(m)), resets_at, now, basis, density, strings) {
            Some(lines) => lines.secondary is None && lines.detail is None && !lines.is_warning
                && percent_text(display_value(basis, Quantity::Finite(m))).is_suffix_of(
                lines.primary,
            ),
            None => false,
        }),
{
    let used = Quantity::Finite(m);
    assert(display_value(basis, used.clamp_percent()) == display_value(basis, used));
    let lines = weekly_lines(Some(used), resets_at, now, basis, density, strings)->0;
    let value = percent_text(display_value(basis, used));
    assert(value =~= lines.primary.skip(lines.primary.len() - value.len()));
}

/// The session window is five hours long: what it warns of is judged by the time that is
/// missing to that.
pub proof fn session_window_is_five_hours(
    used_percent: Quantity,
    resets_at: Option<Timestamp>,
    now: Timestamp,
    sensitivity: ShortWindowAlertSensitivity,
)
    ensures
        session_overpacing(used_percent, resets_at, now, sensitivity) <==> (remaining_secs_at(
            resets_at,
            now,
        ) matches Some(secs) && secs <= 18_000 && short_window_is_overpacing(
            (18_000 - secs) as u64,
            secs,
            used_percent,
            sensitivity,
        )),
{
}

/// The short window's line tells the value under its basis first; the overpacing word
/// stands behind it exactly where the line warns.
pub proof fn short_window_line_tells_value_and_warning(
    m: i64,
    resets_at: Option<Timestamp>,
    now: Timestamp,
    basis: DisplayBasis,
    visibility: ShortWindowVisibility,
    sensitivity: ShortWindowAlertSensitivity,
    strings: Strings,
)
    ensures
        short_window_lines(
            Some(Quantity::Finite(m)),
            resets_at,
            now,
            basis,
            visibility,
            sensitivity,
            strings,
        ) matches Some(lines) ==> {
            let prefix = match basis {
                DisplayBasis::UsedPercentage => strings.pace_used_prefix@,
                DisplayBasis::RemainingAllowance => strings.pace_remaining_prefix@,
            };
            let value = prefix + " "@ + percent_text(display_value(basis, Quantity::Finite(m)));
            let said = if lines.is_warning {
                value + " "@ + strings.weekly_pace_overpacing@
            } else {
                value
            };
            let remaining = remaining_secs_at(resets_at, now);
            let time = match basis {
                DisplayBasis::UsedPercentage => match remaining {
                    Some(secs) => if secs <= 18_000 {
                        Some((18_000 - secs) as u64)
                    } else if secs <= 18_300 {
                        Some(0u64)
                    } else {
                        None
                    },
                    None => None,
                },
                DisplayBasis::RemainingAllowance => remaining,
            };
            &&& said.is_prefix_of(lines.primary)
            &&& time is None ==> lines.primary == said
            &&& time matches Some(secs) ==> duration_text(
                secs,
                DurationGranularity::ShortWindow,
                strings,
            ).is_suffix_of(lines.primary)
            &&& lines.secondary is None && lines.detail is None
        },
{
    let used = Quantity::Finite(m);
    assert(display_value(basis, used.clamp_percent()) == display_value(basis, used));
    match short_window_lines(
        Some(used),
        resets_at,
        now,
        basis,
        visibility,
        sensitivity,
        strings,
    ) {
        Some(lines) => {
            let value = prefixed_percent(basis, used.clamp_percent(), strings);
            let said = if lines.is_warning {
                value + " "@ + strings.weekly_pace_overpacing@
            } else {
                value
            };
            assert(said =~= lines.primary.take(said.len() as int));
            let remaining = remaining_secs_at(resets_at, now);
            let elapsed = match remaining {
                Some(secs) => elapsed_secs_in_window(secs, SESSION_WINDOW_SECS),
                None => None,
            };
            time_axis_follows_the_basis(
                remaining,
                remaining,
                elapsed,
                elapsed,
                DurationGranularity::ShortWindow,
                strings,
            );
            let axis = window_time_text(
                basis,
                remaining,
                elapsed,
                DurationGranularity::ShortWindow,
                strings,
            );
            match axis {
                Some(time) => {
                    let secs = match basis {
                        DisplayBasis::UsedPercentage => elapsed->0,
                        DisplayBasis::RemainingAllowance => remaining->0,
                    };
                    let d = duration_text(secs, DurationGranularity::ShortWindow, strings);
                    assert(d =~= time.skip(time.len() - d.len()));
                    assert(d =~= lines.primary.skip(lines.primary.len() - d.len()));
                },
                None => {},
            }
        },
        None => {},
    }
}

/// The time left in the week stands behind the word for what remains.
pub proof fn weekly_remaining_text_ends_with_the_time_left(
    resets_at: Option<Timestamp>,
    now: Timestamp,
    strings: Strings,
)
    ensures
        (match (weekly_remaining_text(resets_at, now, strings), remaining_secs_at(resets_at, now)) {
            (Some(text), Some(secs)) => strings.pace_remaining_prefix@.is_prefix_of(text)
                && duration_text(secs, DurationGranularity::LongWindow, strings).is_suffix_of(text),
            (None, None) => true,
            _ => false,
        }),
{
    if let Some(secs) = remaining_secs_at(resets_at, now) {
        let d = duration_text(secs, DurationGranularity::LongWindow, strings);
        let text = strings.pace_remaining_prefix@ + " "@ + d;
        assert(strings.pace_remaining_prefix@ =~= text.take(
            strings.pace_remaining_prefix@.len() as int,
        ));
        assert(d =~= text.skip(text.len() - d.len()));
    }
}

/// Each status is told in its own word.
pub proof fn statuses_have_their_own_words(status: WeeklyPaceStatus, strings: Strings)
    ensures
        ({
            let word = weekly_pace_status_text(status, strings);
            &&& status is Judging ==> word == strings.weekly_pace_judging
            &&& status is UnderPace ==> word == strings.weekly_pace_under_pace
            &&& status is OnTrack ==> word == strings.weekly_pace_on_track
            &&& status is SlightlyOverpacing ==> word == strings.weekly_pace_slightly_overpacing
            &&& status is Overpacing ==> word == strings.weekly_pace_overpacing
        }),
{
}

/// The pace difference in words is a whole number of points nearest to the exact one,
/// with the sign of the side that it lies on.
pub proof fn points_are_the_nearest_whole_number(diff: Ratio)
    requires
        diff.den > 0,
    ensures
        (match pace_diff_text(diff) {
            Some(text) => exists|points: int|
                #![trigger points * (diff.den * 1_000_000)]
                -(diff.den * 1_000_000) <= 2 * (diff.num - points * (diff.den * 1_000_000))
                    <= diff.den * 1_000_000 && text == if points > 0 {
                    "+"@ + decimal(points as nat) + "pt"@
                } else if points < 0 {
                    "-"@ + decimal((-points) as nat) + "pt"@
                } else {
                    decimal(0) + "pt"@
                },
            None => false,
        }),
{
    let unit = diff.den * 1_000_000;
    let points = round_half_away(diff.num as int, unit);
    crate::numbers::round_half_away_is_nearest(diff.num as int, unit);
    assert(points * (diff.den * 1_000_000) == points * unit);
}

/// The detail line begins with the pace difference, and names the projected exhaustion
/// behind it exactly where the status warns and there is one.
pub proof fn detail_tells_difference_and_exhaustion(
    elapsed_secs: u64,
    remaining_secs: u64,
    m: i64,
    strings: Strings,
)
    ensures
        ({
            let used = Quantity::Finite(m);
            let diff = weekly_pace_diff_pt(elapsed_secs, 604_800, used);
            let status = weekly_pace_status(elapsed_secs, 604_800, used);
            let lead = weekly_exhaustion_lead_secs(elapsed_secs, remaining_secs, used);
            let first = strings.pace_diff_label@ + " "@ + pace_diff_text(diff)->0;
            match weekly_detail(elapsed_secs, remaining_secs, used, strings) {
                Some(line) => {
                    &&& first.is_prefix_of(line)
                    &&& (status is SlightlyOverpacing || status is Overpacing) && lead is Some
                        ==> exhaustion_text(lead->0, strings).is_suffix_of(line) && line.len()
                        > first.len()
                    &&& !(status is SlightlyOverpacing || status is Overpacing) || lead is None
                        ==> line == first
                },
                None => false,
            }
        }),
{
    let used = Quantity::Finite(m);
    let diff = weekly_pace_diff_pt(elapsed_secs, 604_800, used);
    let line = weekly_detail(elapsed_secs, remaining_secs, used, strings)->0;
    let first = strings.pace_diff_label@ + " "@ + pace_diff_text(diff)->0;
    assert(first =~= line.take(first.len() as int));
    let lead = weekly_exhaustion_lead_secs(elapsed_secs, remaining_secs, used);
    if warns(weekly_pace_status(elapsed_secs, 604_800, used)) && lead is Some {
        let e = exhaustion_text(lead->0, strings);
        reveal_strlit("\u{ff5c}");
        assert(line == first + "\u{ff5c}"@ + e);
        assert(e =~= line.skip(line.len() - e.len()));
    }
}

/// The exhaustion text fills the lead time in for its placeholder.
pub proof fn exhaustion_text_begins_with_its_label(lead_secs: u64, strings: Strings)
    ensures
        strings.exhaustion_label@.is_prefix_of(exhaustion_text(lead_secs, strings)),
        strings.exhaustion_before_reset@ == "{duration}"@ ==> duration_text(
            lead_secs,
            DurationGranularity::LongWindow,
            strings,
        ).is_suffix_of(exhaustion_text(lead_secs, strings)),
{
    let text = exhaustion_text(lead_secs, strings);
    let label = strings.exhaustion_label@;
    assert(label =~= text.take(label.len() as int));
    let d = duration_text(lead_secs, DurationGranularity::LongWindow, strings);
    if strings.exhaustion_before_reset@ == "{duration}"@ {
        let mark = "{duration}"@;
        reveal_strlit("{duration}");
        assert(mark.is_prefix_of(mark)) by {
            assert(mark =~= mark.take(mark.len() as int));
        }
        assert(mark.skip(mark.len() as int) =~= Seq::empty());
        reveal_with_fuel(replace_all, 3);
        assert(replace_all(mark, mark, d) =~= d);
        assert(d =~= text.skip(text.len() - d.len()));
    }
}

/// A rate is told to about two digits: from ten percent on as a whole number, from one
/// percent on with one decimal, and below with two, in each case the nearest such number.
pub proof fn rate_is_told_to_about_two_digits(value: Ratio)
    requires
        value.den > 0,
        value.num >= 0,
    ensures
        ({
            let text = pace_rate_text(value);
            let unit = value.den * 1_000_000;
            if value.num >= 10 * unit {
                is_numeral(text) && -unit <= 2 * (value.num - numeral_value(text) * unit) <= unit
            } else {
                let places: int = if value.num >= unit {
                    1
                } else {
                    2
                };
                let tens: int = if value.num >= unit {
                    10
                } else {
                    100
                };
                let point = text.len() - places - 1;
                let printed = numeral_value(text.take(point)) * tens + numeral_value(
                    text.skip(point + 1),
                );
                &&& 0 < point
                &&& text[point] == '.'
                &&& -unit <= 2 * (value.num * tens - printed * unit) <= unit
            }
        }),
{
    let unit = value.den * 1_000_000;
    let num = value.num as nat;
    let den = value.den as nat;
    reveal_with_fuel(ten_pow, 3);
    assert(10_000_000 * value.den == 10 * unit);
    if value.num >= 10 * unit {
        printed_whole_number_is_nearest(num, den);
        let text = fixed_text(num as int, den, 0);
        let n = round_half_even(num * ten_pow(0), den * 1_000_000);
        assert(text =~= decimal(n / ten_pow(0)));
        numeral_reads_back(n / ten_pow(0));
    } else if value.num >= unit {
        printed_decimals_are_nearest(num, den, 1);
        let ten = ten_pow(1);
        let text = fixed_text(num as int, den, 1);
        let before = numeral_value(text.take(text.len() - 2));
        assert(ten == 10);
        assert(before * ten == before * 10 && num * ten == num * 10) by (nonlinear_arith)
            requires
                ten == 10,
        ;
    } else {
        printed_decimals_are_nearest(num, den, 2);
        let hundred = ten_pow(2);
        let text = fixed_text(num as int, den, 2);
        let before = numeral_value(text.take(text.len() - 3));
        assert(hundred == 100);
        assert(before * hundred == before * 100 && num * hundred == num * 100)
            by (nonlinear_arith)
            requires
                hundred == 100,
        ;
    }
}

} // verus!
