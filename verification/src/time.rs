//! Points in time and the text of durations.

use vstd::prelude::*;

use crate::numbers::{decimal, decimal_text, push_decimal};
use crate::strings::Strings;

verus! {

/// Clock ticks in one second.
pub const TICKS_PER_SECOND: i64 = 10_000_000;

/// A point in time, in hundred-nanosecond ticks since the Unix epoch.
#[derive(Clone, Copy, Debug, PartialEq, Eq, Structural)]
pub struct Timestamp {
    pub ticks: i64,
}

/// The window that the session ("5h") quota covers, in seconds.
pub const SESSION_WINDOW_SECS: u64 = 18_000;

/// The window that the weekly quota covers, in seconds.
pub const WEEKLY_WINDOW_SECS: u64 = 604_800;

/// How far past the nominal window a reset time is still read as "the window has
/// just started".
pub const WINDOW_TIME_TOLERANCE_SECS: u64 = 300;

/// Whole seconds from `now` to the reset; nothing where the reset is unknown or
/// already past.
pub open spec fn spec_remaining_secs_at(resets_at: Option<Timestamp>, now: Timestamp) -> Option<
    u64,
> {
    match resets_at {
        Some(reset) => if reset.ticks >= now.ticks {
            Some(((reset.ticks - now.ticks) / 10_000_000) as u64)
        } else {
            None
        },
        None => None,
    }
}

/// Seconds remaining until `resets_at`, or `None` if it is missing or past.
#[verifier::when_used_as_spec(spec_remaining_secs_at)]
pub fn remaining_secs_at(resets_at: Option<Timestamp>, now: Timestamp) -> (r: Option<u64>)
    ensures
        r == spec_remaining_secs_at(resets_at, now),
{
    match resets_at {
        Some(reset) => if reset.ticks >= now.ticks {
            let span: i128 = reset.ticks as i128 - now.ticks as i128;
            Some((span / TICKS_PER_SECOND as i128) as u64)
        } else {
            None
        },
        None => None,
    }
}

/// Time spent in a window of `window_secs` that has `remaining_secs` left.
pub open spec fn spec_elapsed_secs_in_window(remaining_secs: u64, window_secs: u64) -> Option<u64> {
    if remaining_secs <= window_secs {
        Some((window_secs - remaining_secs) as u64)
    } else if remaining_secs <= window_secs + WINDOW_TIME_TOLERANCE_SECS {
        Some(0)
    } else {
        None
    }
}

/// Elapsed time into a fixed-length window. A remaining time slightly longer than
/// the window counts as zero elapsed; anything beyond the tolerance is no value a
/// real window can produce.
#[verifier::when_used_as_spec(spec_elapsed_secs_in_window)]
pub fn elapsed_secs_in_window(remaining_secs: u64, window_secs: u64) -> (r: Option<u64>)
    ensures
        r == spec_elapsed_secs_in_window(remaining_secs, window_secs),
{
    if remaining_secs <= window_secs {
        return Some(window_secs - remaining_secs);
    }
    let tolerated_max: u64 = window_secs.saturating_add(WINDOW_TIME_TOLERANCE_SECS);
    if remaining_secs <= tolerated_max {
        return Some(0);
    }
    None
}

/// Within a window, elapsed and remaining time add up to the window; past it, a
/// tolerated overshoot counts as a fresh window.
pub proof fn elapsed_and_remaining_fill_the_window(remaining_secs: u64, window_secs: u64)
    ensures
        (match elapsed_secs_in_window(remaining_secs, window_secs) {
            Some(elapsed) => elapsed <= window_secs && (remaining_secs <= window_secs ==> elapsed
                + remaining_secs == window_secs) && (remaining_secs > window_secs ==> elapsed == 0
                && remaining_secs - window_secs <= WINDOW_TIME_TOLERANCE_SECS),
            None => remaining_secs - window_secs > WINDOW_TIME_TOLERANCE_SECS,
        }),
{
}

/// The two largest units that a duration is told in.
#[derive(Clone, Copy, Debug, PartialEq, Eq, Structural)]
pub enum DurationGranularity {
    /// Days and hours.
    LongWindow,
    /// Hours and minutes.
    ShortWindow,
}

/// The text of a duration: seconds are never shown, and the larger unit only
/// where it is at least one.
pub open spec fn duration_text(
    total_secs: u64,
    granularity: DurationGranularity,
    strings: Strings,
) -> Seq<char> {
    let days = total_secs as nat / 86400;
    let hours = total_secs as nat % 86400 / 3600;
    let minutes = total_secs as nat % 3600 / 60;
    match granularity {
        DurationGranularity::LongWindow => if days >= 1 {
            decimal(days) + strings.day_suffix@ + decimal(hours) + strings.hour_suffix@
        } else {
            decimal(hours) + strings.hour_suffix@
        },
        DurationGranularity::ShortWindow => if hours >= 1 {
            decimal(hours) + strings.hour_suffix@ + decimal(minutes) + strings.minute_suffix@
        } else {
            decimal(minutes) + strings.minute_suffix@
        },
    }
}

/// Duration text in days and hours or in hours and minutes.
pub fn format_duration(
    total_secs: u64,
    granularity: DurationGranularity,
    strings: Strings,
) -> (r: String)
    ensures
        r@ == duration_text(total_secs, granularity, strings),
{
    let days: u64 = total_secs / 86400;
    let hours: u64 = (total_secs % 86400) / 3600;
    let minutes: u64 = (total_secs % 3600) / 60;
    match granularity {
        DurationGranularity::LongWindow => if days >= 1 {
            let mut text: String = decimal_text(days);
            text.append(strings.day_suffix);
            push_decimal(&mut text, hours as u128);
            text.append(strings.hour_suffix);
            text
        } else {
            let mut text: String = decimal_text(hours);
            text.append(strings.hour_suffix);
            text
        },
        DurationGranularity::ShortWindow => if hours >= 1 {
            let mut text: String = decimal_text(hours);
            text.append(strings.hour_suffix);
            push_decimal(&mut text, minutes as u128);
            text.append(strings.minute_suffix);
            text
        } else {
            let mut text: String = decimal_text(minutes);
            text.append(strings.minute_suffix);
            text
        },
    }
}

/// The countdown to a reset in its single largest unit, rounded down.
pub open spec fn countdown(
    resets_at: Option<Timestamp>,
    now: Timestamp,
    strings: Strings,
) -> Option<
    Seq<char>,
> {
    match resets_at {
        None => None,
        Some(reset) => match remaining_secs_at(resets_at, now) {
            None => Some(strings.now@),
            Some(secs) => Some(
                if secs >= 86400 {
                    decimal(secs as nat / 86400) + strings.day_suffix@
                } else if secs >= 3600 {
                    decimal(secs as nat / 3600) + strings.hour_suffix@
                } else if secs >= 60 {
                    decimal(secs as nat / 60) + strings.minute_suffix@
                } else {
                    decimal(secs as nat) + strings.second_suffix@
                },
            ),
        },
    }
}

/// The view of an optional text.
pub open spec fn text_view(text: Option<String>) -> Option<Seq<char>> {
    match text {
        Some(t) => Some(t@),
        None => None,
    }
}

/// Countdown text for a reset time. A past reset reads as the word for "now".
pub fn countdown_text(resets_at: Option<Timestamp>, now: Timestamp, strings: Strings) -> (r: Option<
    String,
>)
    ensures
        text_view(r) == countdown(resets_at, now, strings),
{
    if resets_at.is_none() {
        return None;
    }
    match remaining_secs_at(resets_at, now) {
        None => Some(strings.now.to_owned()),
        Some(secs) => {
            let total_mins: u64 = secs / 60;
            let total_hours: u64 = secs / 3600;
            let total_days: u64 = secs / 86400;
            if total_days >= 1 {
                let mut text: String = decimal_text(total_days);
                text.append(strings.day_suffix);
                Some(text)
            } else if total_hours >= 1 {
                let mut text: String = decimal_text(total_hours);
                text.append(strings.hour_suffix);
                Some(text)
            } else if total_mins >= 1 {
                let mut text: String = decimal_text(total_mins);
                text.append(strings.minute_suffix);
                Some(text)
            } else {
                let mut text: String = decimal_text(secs);
                text.append(strings.second_suffix);
                Some(text)
            }
        },
    }
}

/// "resets in" with the language's own separator before the duration.
pub open spec fn reset_time_text(duration: Seq<char>, strings: Strings) -> Seq<char> {
    strings.reset_in@ + strings.reset_in_separator@ + duration
}

/// The text of the time left until a reset.
pub fn format_reset_time(duration: &str, strings: Strings) -> (r: String)
    ensures
        r@ == reset_time_text(duration@, strings),
{
    let mut text: String = strings.reset_in.to_owned();
    text.append(strings.reset_in_separator);
    text.append(duration);
    text
}

// ---- what a time and its text have in common --------------------------------------

/// The remaining seconds are the whole seconds between now and the reset: none are known
/// of a reset that is past or not told.
pub proof fn remaining_seconds_count_up_to_the_reset(reset: Timestamp, now: Timestamp)
    ensures
        (match remaining_secs_at(Some(reset), now) {
            Some(secs) => now.ticks + 10_000_000 * secs <= reset.ticks < now.ticks + 10_000_000 * (
            secs + 1),
            None => reset.ticks < now.ticks,
        }),
        remaining_secs_at(None, now) is None,
{
    if reset.ticks >= now.ticks {
        let span = reset.ticks - now.ticks;
        assert(span / 10_000_000 * 10_000_000 <= span < span / 10_000_000 * 10_000_000
            + 10_000_000);
    }
}

/// A duration of a long window is told in days and hours, of which it has all but less
/// than an hour; one of a short window in hours and minutes, within its day, but for less
/// than a minute.
pub proof fn durations_lose_less_than_their_smallest_unit(total_secs: u64, strings: Strings)
    ensures
        exists|days: nat, hours: nat|
            #![trigger decimal(days), decimal(hours)]
            hours < 24 && days * 86_400 + hours * 3_600 <= total_secs < days * 86_400 + hours
                * 3_600 + 3_600 && duration_text(
                total_secs,
                DurationGranularity::LongWindow,
                strings,
            ) == if days >= 1 {
                decimal(days) + strings.day_suffix@ + decimal(hours) + strings.hour_suffix@
            } else {
                decimal(hours) + strings.hour_suffix@
            },
        total_secs < 86_400 ==> exists|hours: nat, minutes: nat|
            #![trigger decimal(hours), decimal(minutes)]
            minutes < 60 && hours * 3_600 + minutes * 60 <= total_secs < hours * 3_600 + minutes
                * 60 + 60 && duration_text(
                total_secs,
                DurationGranularity::ShortWindow,
                strings,
            ) == if hours >= 1 {
                decimal(hours) + strings.hour_suffix@ + decimal(minutes) + strings.minute_suffix@
            } else {
                decimal(minutes) + strings.minute_suffix@
            },
{
    let t = total_secs as nat;
    let days = t / 86_400;
    let hours = t % 86_400 / 3_600;
    let minutes = t % 3_600 / 60;
    assert(decimal(days) == decimal(days) && decimal(hours) == decimal(hours));
    assert(decimal(minutes) == decimal(minutes));
    assert(hours < 24 && days * 86_400 + hours * 3_600 <= t < days * 86_400 + hours * 3_600
        + 3_600);
    if t < 86_400 {
        assert(minutes < 60 && hours * 3_600 + minutes * 60 <= t < hours * 3_600 + minutes * 60
            + 60);
    }
}

/// A countdown names one unit, the largest that is there in full, and how many of it are
/// left.
pub proof fn countdown_names_the_largest_unit(reset: Timestamp, now: Timestamp, strings: Strings)
    ensures
        (match (countdown(Some(reset), now, strings), remaining_secs_at(Some(reset), now)) {
            (Some(text), Some(secs)) => exists|n: nat, unit: nat, word: Seq<char>|
                #![trigger decimal(n) + word, unit * n]
                text == decimal(n) + word && unit * n <= secs < unit * n + unit && (unit == 86_400
                    && word == strings.day_suffix@ && n >= 1 || unit == 3_600 && word
                    == strings.hour_suffix@ && 1 <= n < 24 || unit == 60 && word
                    == strings.minute_suffix@ && 1 <= n < 60 || unit == 1 && word
                    == strings.second_suffix@ && n < 60),
            (Some(text), None) => text == strings.now@,
            _ => false,
        }),
        countdown(None, now, strings) is None,
{
    match remaining_secs_at(Some(reset), now) {
        Some(secs) => {
            let s = secs as nat;
            let (n, unit, word) = if s >= 86_400 {
                (s / 86_400, 86_400nat, strings.day_suffix@)
            } else if s >= 3_600 {
                (s / 3_600, 3_600nat, strings.hour_suffix@)
            } else if s >= 60 {
                (s / 60, 60nat, strings.minute_suffix@)
            } else {
                (s, 1nat, strings.second_suffix@)
            };
            assert(unit * n <= s < unit * n + unit);
            assert(countdown(Some(reset), now, strings) == Some(decimal(n) + word));
        },
        None => {},
    }
}

/// A time until a reset is told after the words for it, with the language's own separator
/// between them.
pub proof fn reset_time_is_told_after_its_words(duration: Seq<char>, strings: Strings)
    ensures
        ({
            let text = reset_time_text(duration, strings);
            &&& (strings.reset_in@ + strings.reset_in_separator@).is_prefix_of(text)
            &&& duration.is_suffix_of(text)
            &&& text.len() == strings.reset_in@.len() + strings.reset_in_separator@.len()
                + duration.len()
        }),
{
    let text = reset_time_text(duration, strings);
    let words = strings.reset_in@ + strings.reset_in_separator@;
    assert(words =~= text.take(words.len() as int));
    assert(duration =~= text.skip(text.len() - duration.len()));
}

} // verus!
