//! Starting, restarting, and starting with the system.

use vstd::prelude::*;

use crate::cells::CellState;
use crate::effects::{Effect, TimerKind, ZOrder};
use crate::menu::default_preferences;
use crate::models::{BankedResetCount, QuotaFamilyId};
use crate::paint::is_family_shown;
use crate::settings::{Features, LanguageId};
use crate::settings_file::{default_settings, SettingsFile, SettingsView};
use crate::state::{
    show_usage, states_of, AppState, CellStates, CredentialWatchMode, InstallChannel,
    PointerState, PollingState, Preferences, UpdateStatus, WindowStates,
};
use crate::strings::{resolve_language, Languages, Strings};
use crate::time::Timestamp;
use crate::updates::auto_update_check_due;

verus! {

/// Two relaunches closer than this are a storm.
pub const RELAUNCH_THROTTLE_SECS: u64 = 10;

/// How long a relaunch waits in a storm.
pub const RELAUNCH_BACKOFF_SECS: u64 = 30;

// ---- one instance ---------------------------------------------------------------

/// What asking for the single-instance lock brought.
#[derive(Clone, Copy, Debug, PartialEq, Eq, Structural)]
pub enum InstanceLock {
    Unavailable,
    Acquired,
    HeldByAnother,
}

/// What to do about it.
#[derive(Clone, Copy, Debug, PartialEq, Eq, Structural)]
pub enum InstanceDecision {
    Run,
    Exit,
    /// Waits for the previous instance to let go.
    WaitForPrevious,
}

/// How waiting for the previous instance ended.
#[derive(Clone, Copy, Debug, PartialEq, Eq, Structural)]
pub enum WaitOutcome {
    Signaled,
    Abandoned,
    Other,
}

/// A second instance exits at once, except for a relaunch, which takes over.
pub fn instance_decision(lock: InstanceLock, is_relaunch: bool) -> (r: InstanceDecision)
    ensures
        r == (match lock {
            InstanceLock::Unavailable => InstanceDecision::Exit,
            InstanceLock::Acquired => InstanceDecision::Run,
            InstanceLock::HeldByAnother => if is_relaunch {
                InstanceDecision::WaitForPrevious
            } else {
                InstanceDecision::Exit
            },
        }),
{
    match lock {
        InstanceLock::Unavailable => InstanceDecision::Exit,
        InstanceLock::Acquired => InstanceDecision::Run,
        InstanceLock::HeldByAnother => if is_relaunch {
            InstanceDecision::WaitForPrevious
        } else {
            InstanceDecision::Exit
        },
    }
}

/// Whether a relaunch runs after it has waited.
pub fn takes_over(outcome: WaitOutcome) -> (r: bool)
    ensures
        r == (outcome is Signaled || outcome is Abandoned),
{
    matches!(outcome, WaitOutcome::Signaled | WaitOutcome::Abandoned)
}

// ---- relaunching ------------------------------------------------------------------

/// The value of a run of digits after some that are worth `start`; nothing where a
/// character is no digit.
pub open spec fn digits_value(text: Seq<char>, start: nat) -> Option<nat>
    decreases text.len(),
{
    if text.len() == 0 {
        Some(start)
    } else if '0' <= text[0] <= '9' {
        digits_value(text.skip(1), 10 * start + (text[0] as nat - '0' as nat) as nat)
    } else {
        None
    }
}

/// The unsigned number that a text holds: digits, with or without a plus sign in
/// front, that fit 64 bits.
pub open spec fn unsigned_in_text(text: Seq<char>) -> Option<u64> {
    let digits = if text.len() > 0 && text[0] == '+' {
        text.skip(1)
    } else {
        text
    };
    if digits.len() == 0 {
        None
    } else {
        match digits_value(digits, 0) {
            Some(n) => if n <= u64::MAX {
                Some(n as u64)
            } else {
                None
            },
            None => None,
        }
    }
}

proof fn lemma_digits_value_grows(text: Seq<char>, start: nat)
    ensures
        digits_value(text, start) matches Some(n) ==> n >= start,
    decreases text.len(),
{
    if text.len() > 0 && '0' <= text[0] <= '9' {
        lemma_digits_value_grows(
            text.skip(1),
            10 * start + (text[0] as nat - '0' as nat) as nat,
        );
    }
}

/// Reads an unsigned number.
pub fn parse_unsigned(text: &str) -> (r: Option<u64>)
    ensures
        r == unsigned_in_text(text@),
{
    let len: usize = text.unicode_len();
    let first: usize = if len > 0 && text.get_char(0) == '+' {
        1
    } else {
        0
    };
    if first == len {
        return None;
    }
    let ghost digits = text@.skip(first as int);
    assert(digits == unsigned_digits(text@)) by {
        assert(text@.skip(0) =~= text@);
    }
    let mut value: u64 = 0;
    let mut i: usize = first;
    assert(text@.skip(i as int) == digits);
    while i < len
        invariant
            first <= i <= len,
            len == text@.len(),
            digits == unsigned_digits(text@),
            digits.len() > 0,
            digits_value(digits, 0) == digits_value(text@.skip(i as int), value as nat),
        decreases len - i,
    {
        let c: char = text.get_char(i);
        let ghost rest = text@.skip(i as int);
        assert(rest[0] == c);
        assert(rest.skip(1) =~= text@.skip(i + 1));
        if c < '0' || c > '9' {
            return None;
        }
        let digit: u64 = (c as u32 - '0' as u32) as u64;
        proof {
            lemma_digits_value_grows(rest.skip(1), (10 * value + digit) as nat);
        }
        if value > (u64::MAX - digit) / 10 {
            return None;
        }
        value = 10 * value + digit;
        i += 1;
    }
    assert(text@.skip(len as int).len() == 0);
    Some(value)
}

/// The digits of a number text, without its plus sign.
pub open spec fn unsigned_digits(text: Seq<char>) -> Seq<char> {
    if text.len() > 0 && text[0] == '+' {
        text.skip(1)
    } else {
        text
    }
}

/// Seconds that a relaunch waits first. `last` is the time of the relaunch that
/// started this process, as text; one that cannot be read counts as none.
pub fn relaunch_backoff_secs(last: Option<&str>, now: u64) -> (r: u64)
    ensures
        ({
            let known = match last {
                Some(text) => match unsigned_in_text(text@) {
                    Some(n) => n,
                    None => 0,
                },
                None => 0,
            };
            r == if known != 0 && (now < known || now - known < RELAUNCH_THROTTLE_SECS) {
                RELAUNCH_BACKOFF_SECS
            } else {
                0
            }
        }),
{
    let known: u64 = match last {
        Some(text) => match parse_unsigned(text) {
            Some(n) => n,
            None => 0,
        },
        None => 0,
    };
    if known != 0 && now.saturating_sub(known) < RELAUNCH_THROTTLE_SECS {
        RELAUNCH_BACKOFF_SECS
    } else {
        0
    }
}

/// Whether the shell has restarted: there are taskbars, but not the one that the
/// popup was anchored to. Taskbars are given by their handles.
pub fn taskbar_was_replaced(anchor: Option<i64>, taskbars: &Vec<i64>) -> (r: bool)
    ensures
        r == (match anchor {
            Some(anchor) => taskbars@.len() > 0 && !taskbars@.contains(anchor),
            None => false,
        }),
{
    let held: i64 = match anchor {
        Some(held) => held,
        None => {
            return false;
        },
    };
    let mut i: usize = 0;
    while i < taskbars.len()
        invariant
            i <= taskbars.len(),
            anchor == Some(held),
            forall|k: int| 0 <= k < i ==> taskbars@[k] != held,
        decreases taskbars.len() - i,
    {
        if taskbars[i] == held {
            assert(taskbars@[i as int] == held);
            return false;
        }
        i += 1;
    }
    taskbars.len() > 0
}

/// The taskbar to anchor to: the requested one, or the last that there is.
pub open spec fn anchor_index(requested: usize, count: usize) -> Option<usize> {
    if count == 0 {
        None
    } else if requested < count {
        Some(requested)
    } else {
        Some((count - 1) as usize)
    }
}

pub fn taskbar_to_anchor(requested: usize, count: usize) -> (r: Option<usize>)
    ensures
        r == anchor_index(requested, count),
{
    if count == 0 {
        None
    } else if requested < count {
        Some(requested)
    } else {
        Some(count - 1)
    }
}

/// Anchors the popup to a taskbar, which becomes the preferred one. Without any taskbar
/// nothing changes.
pub fn select_taskbar(state: &mut Option<AppState>, requested: usize, count: usize) -> (r: Option<
    usize,
>)
    ensures
        r == anchor_index(requested, count),
        *final(state) == (match (*old(state), r) {
            (Some(s), Some(index)) => Some(
                AppState { prefs: Preferences { taskbar_index: index, ..s.prefs }, ..s },
            ),
            _ => *old(state),
        }),
{
    let anchored: Option<usize> = taskbar_to_anchor(requested, count);
    if let Some(index) = anchored {
        let taken: Option<AppState> = state.take();
        if let Some(mut s) = taken {
            s.prefs.taskbar_index = index;
            *state = Some(s);
        }
    }
    anchored
}

// ---- starting with the system --------------------------------------------------------

/// What stands for a surrogate without its partner.
pub const REPLACEMENT: u32 = 0xFFFD;

pub open spec fn is_high_surrogate(unit: u16) -> bool {
    0xD800 <= unit < 0xDC00
}

pub open spec fn is_low_surrogate(unit: u16) -> bool {
    0xDC00 <= unit < 0xE000
}

/// The character that a surrogate pair stands for.
pub open spec fn paired(high: u16, low: u16) -> u32 {
    (0x1_0000 + (high - 0xD800) * 0x400 + (low - 0xDC00)) as u32
}

/// The characters of UTF-16 units, as their numbers: a pair of surrogates is one
/// character, a surrogate without its partner is replaced, any other unit is itself.
pub open spec fn characters_of(units: Seq<u16>) -> Seq<u32>
    decreases units.len(),
{
    if units.len() == 0 {
        Seq::empty()
    } else if units.len() > 1 && is_high_surrogate(units[0]) && is_low_surrogate(units[1]) {
        seq![paired(units[0], units[1])] + characters_of(units.skip(2))
    } else if is_high_surrogate(units[0]) || is_low_surrogate(units[0]) {
        seq![REPLACEMENT] + characters_of(units.skip(1))
    } else {
        seq![units[0] as u32] + characters_of(units.skip(1))
    }
}

/// A zero unit at the end is a zero character at the end.
proof fn lemma_zero_at_the_end(units: Seq<u16>)
    ensures
        characters_of(units.push(0)) == characters_of(units).push(0),
    decreases units.len(),
{
    let longer = units.push(0);
    if units.len() == 0 {
        assert(longer.skip(1) =~= Seq::<u16>::empty());
        assert(characters_of(longer.skip(1)) =~= Seq::<u32>::empty());
        assert(characters_of(longer) =~= characters_of(units).push(0));
    } else if units.len() > 1 && is_high_surrogate(units[0]) && is_low_surrogate(units[1]) {
        lemma_zero_at_the_end(units.skip(2));
        assert(longer.skip(2) =~= units.skip(2).push(0));
        assert(characters_of(longer) =~= characters_of(units).push(0));
    } else {
        lemma_zero_at_the_end(units.skip(1));
        assert(longer.skip(1) =~= units.skip(1).push(0));
        assert(characters_of(longer) =~= characters_of(units).push(0));
    }
}

fn read_characters(units: &Vec<u16>) -> (r: Vec<u32>)
    ensures
        r@ == characters_of(units@),
{
    let mut characters: Vec<u32> = Vec::new();
    let mut i: usize = 0;
    assert(units@.skip(0) =~= units@);
    while i < units.len()
        invariant
            i <= units.len(),
            characters@ + characters_of(units@.skip(i as int)) == characters_of(units@),
        decreases units.len() - i,
    {
        let ghost rest = units@.skip(i as int);
        let ghost before = characters@;
        let unit: u16 = units[i];
        let is_high: bool = 0xD800 <= unit && unit < 0xDC00;
        if is_high && units.len() - i > 1 && 0xDC00 <= units[i + 1] && units[i + 1] < 0xE000 {
            let low: u16 = units[i + 1];
            characters.push(0x1_0000 + (unit as u32 - 0xD800) * 0x400 + (low as u32 - 0xDC00));
            i += 2;
            assert(rest.skip(2) =~= units@.skip(i as int));
        } else {
            if 0xD800 <= unit && unit < 0xE000 {
                characters.push(REPLACEMENT);
            } else {
                characters.push(unit as u32);
            }
            i += 1;
            assert(rest.skip(1) =~= units@.skip(i as int));
        }
        assert(characters@ + characters_of(units@.skip(i as int)) =~= before + characters_of(rest));
    }
    assert(characters@ =~= characters@ + characters_of(units@.skip(i as int)));
    characters
}

/// The little-endian UTF-16 units of bytes; a single byte at the end is dropped.
pub open spec fn units_of(bytes: Seq<u8>) -> Seq<u16> {
    Seq::new(
        (bytes.len() / 2) as nat,
        |i: int| (bytes[2 * i] as int + 256 * (bytes[2 * i + 1] as int)) as u16,
    )
}

fn read_units(bytes: &Vec<u8>) -> (r: Vec<u16>)
    ensures
        r@ == units_of(bytes@),
{
    let count: usize = bytes.len() / 2;
    let mut units: Vec<u16> = Vec::new();
    let mut i: usize = 0;
    while i < count
        invariant
            i <= count,
            count == bytes.len() / 2,
            units@.len() == i,
            forall|k: int| 0 <= k < i ==> units@[k] == units_of(bytes@)[k],
        decreases count - i,
    {
        units.push(bytes[2 * i] as u16 + 256 * (bytes[2 * i + 1] as u16));
        i += 1;
    }
    assert(units@ =~= units_of(bytes@));
    units
}

/// Whether a text ends in a zero character.
pub open spec fn ends_in_zero(text: Seq<u32>) -> bool {
    text.len() > 0 && text.last() == 0
}

/// A text without the zero characters at its end.
pub open spec fn without_trailing_zeros(text: Seq<u32>) -> Seq<u32>
    decreases text.len(),
{
    if text.len() > 0 && text.last() == 0 {
        without_trailing_zeros(text.drop_last())
    } else {
        text
    }
}

pub open spec fn spec_ascii_lower(c: u32) -> u32 {
    if 'A' as u32 <= c <= 'Z' as u32 {
        (c + 32) as u32
    } else {
        c
    }
}

/// The lower case of an ASCII letter; any other character itself.
#[verifier::when_used_as_spec(spec_ascii_lower)]
pub fn ascii_lower(c: u32) -> (r: u32)
    ensures
        r == spec_ascii_lower(c),
{
    if 'A' as u32 <= c && c <= 'Z' as u32 {
        c + 32
    } else {
        c
    }
}

/// Two texts that differ at most in the case of ASCII letters.
pub open spec fn same_ignoring_ascii_case(a: Seq<u32>, b: Seq<u32>) -> bool {
    a.len() == b.len() && forall|i: int|
        0 <= i < a.len() ==> ascii_lower(#[trigger] a[i]) == ascii_lower(b[i])
}

/// Whether a start-up entry names an executable: its characters, up to zeros at the end,
/// are those of the path, up to the case of ASCII letters.
pub open spec fn entry_names(entry: Seq<u8>, executable: Seq<u16>) -> bool {
    entry.len() > 0 && executable.len() > 0 && same_ignoring_ascii_case(
        without_trailing_zeros(characters_of(units_of(entry))),
        characters_of(executable),
    )
}

/// Whether the start-up entry is that of this executable. The entry is given by its
/// bytes as the registry holds them, the executable by the units of its path.
pub fn startup_entry_matches(entry: &Vec<u8>, executable: &Vec<u16>) -> (r: bool)
    ensures
        r == entry_names(entry@, executable@),
{
    if entry.len() == 0 || executable.len() == 0 {
        return false;
    }
    let units: Vec<u16> = read_units(entry);
    let text: Vec<u32> = read_characters(&units);
    let path: Vec<u32> = read_characters(executable);
    let mut len: usize = text.len();
    assert(text@.take(len as int) =~= text@);
    while len > 0 && text[len - 1] == 0
        invariant
            len <= text@.len(),
            without_trailing_zeros(text@) == without_trailing_zeros(text@.take(len as int)),
        decreases len,
    {
        assert(text@.take(len as int).drop_last() =~= text@.take(len - 1));
        len = len - 1;
    }
    let ghost entry_text = without_trailing_zeros(text@);
    assert(entry_text == text@.take(len as int));
    if path.len() != len {
        return false;
    }
    let mut i: usize = 0;
    while i < len
        invariant
            i <= len,
            len <= text@.len(),
            len == path@.len(),
            entry_text == text@.take(len as int),
            entry_text == without_trailing_zeros(characters_of(units_of(entry@))),
            path@ == characters_of(executable@),
            forall|k: int|
                0 <= k < i ==> ascii_lower(#[trigger] entry_text[k]) == ascii_lower(path@[k]),
        decreases len - i,
    {
        if ascii_lower(text[i]) != ascii_lower(path[i]) {
            assert(ascii_lower(entry_text[i as int]) != ascii_lower(path@[i as int]));
            return false;
        }
        i += 1;
    }
    true
}

/// The bytes of the start-up entry of an executable: its path's units, little-endian,
/// with a terminating zero.
pub open spec fn entry_bytes(executable: Seq<u16>) -> Seq<u8> {
    Seq::new(
        2 * (executable.len() + 1),
        |i: int|
            if i / 2 < executable.len() {
                if i % 2 == 0 {
                    (executable[i / 2] % 256) as u8
                } else {
                    (executable[i / 2] / 256) as u8
                }
            } else {
                0u8
            },
    )
}

pub fn startup_entry_bytes(executable: &Vec<u16>) -> (r: Vec<u8>)
    ensures
        r@ == entry_bytes(executable@),
{
    let mut bytes: Vec<u8> = Vec::new();
    let mut i: usize = 0;
    while i < executable.len()
        invariant
            i <= executable.len(),
            bytes@.len() == 2 * i,
            forall|k: int| 0 <= k < 2 * i ==> bytes@[k] == entry_bytes(executable@)[k],
        decreases executable.len() - i,
    {
        bytes.push((executable[i] % 256) as u8);
        bytes.push((executable[i] / 256) as u8);
        i += 1;
    }
    bytes.push(0);
    bytes.push(0);
    assert(bytes@ =~= entry_bytes(executable@));
    bytes
}

/// The units of a written entry are those of the path and a terminating zero.
pub proof fn written_entry_holds_the_path(executable: Seq<u16>)
    ensures
        units_of(entry_bytes(executable)) == executable.push(0),
{
    let bytes = entry_bytes(executable);
    let units = units_of(bytes);
    assert forall|i: int| 0 <= i < units.len() implies units[i] == executable.push(0)[i] by {
        assert((2 * i) / 2 == i && (2 * i + 1) / 2 == i);
        if i < executable.len() {
            let u = executable[i];
            assert(bytes[2 * i] == (u % 256) as u8 && bytes[2 * i + 1] == (u / 256) as u8);
        }
    }
    assert(units =~= executable.push(0));
}

proof fn lemma_terminator_is_trimmed(text: Seq<u32>)
    requires
        !ends_in_zero(text),
    ensures
        without_trailing_zeros(text.push(0)) == text,
{
    assert(text.push(0).drop_last() =~= text);
    reveal_with_fuel(without_trailing_zeros, 2);
}

/// Units that end in no zero are a text that ends in none.
proof fn lemma_no_zero_at_the_end(units: Seq<u16>)
    requires
        units.len() > 0,
        units.last() != 0,
    ensures
        characters_of(units).len() > 0,
        !ends_in_zero(characters_of(units)),
    decreases units.len(),
{
    let used: int = if units.len() > 1 && is_high_surrogate(units[0]) && is_low_surrogate(
        units[1],
    ) {
        2
    } else {
        1
    };
    let rest = units.skip(used);
    if rest.len() > 0 {
        assert(rest.last() == units.last());
        lemma_no_zero_at_the_end(rest);
        assert(characters_of(units).last() == characters_of(rest).last());
    } else {
        assert(characters_of(rest) =~= Seq::<u32>::empty());
    }
}

/// The entry that is written for an executable is its own.
pub proof fn written_entry_names_the_executable(executable: Seq<u16>)
    requires
        executable.len() > 0,
        executable.last() != 0,
    ensures
        entry_names(entry_bytes(executable), executable),
{
    written_entry_holds_the_path(executable);
    lemma_zero_at_the_end(executable);
    lemma_no_zero_at_the_end(executable);
    lemma_terminator_is_trimmed(characters_of(executable));
}

// ---- the first state ------------------------------------------------------------------

/// The saved code of a language choice.
pub open spec fn code_of(language: Option<LanguageId>, languages: Languages) -> Option<Seq<char>> {
    match language {
        Some(language) => Some(languages.pack(language).code@),
        None => None,
    }
}

/// The settings that are saved for preferences.
pub open spec fn settings_of(prefs: Preferences, languages: Languages) -> SettingsView {
    SettingsView {
        tray_offset: prefs.tray_offset,
        taskbar_index: prefs.taskbar_index,
        poll_interval_ms: prefs.poll_interval_ms,
        language: code_of(prefs.language_override, languages),
        last_update_check_unix: prefs.last_update_check_unix,
        widget_visible: prefs.widget_visible,
        always_on_top: prefs.always_on_top,
        widget_width_logical: prefs.widget_width_logical,
        manual_x: match prefs.manual_position {
            Some(at) => Some(at.0),
            None => None,
        },
        manual_y: match prefs.manual_position {
            Some(at) => Some(at.1),
            None => None,
        },
        show_claude_code: prefs.show_claude_code,
        show_codex: prefs.show_codex,
        show_antigravity: prefs.show_antigravity,
        show_github_copilot: prefs.show_github_copilot,
        github_copilot_plan: prefs.github_copilot_plan,
        display_basis: prefs.display_basis,
        display_density: prefs.display_density,
        short_window_visibility: prefs.short_window_visibility,
        short_window_alert_sensitivity: prefs.short_window_alert_sensitivity,
        popup_layout: prefs.popup_layout,
        app_theme: prefs.app_theme,
    }
}

/// The settings file of the current preferences.
pub fn settings_from_preferences(prefs: &Preferences, languages: &Languages) -> (r: SettingsFile)
    ensures
        r@ == settings_of(*prefs, *languages),
{
    SettingsFile {
        tray_offset: prefs.tray_offset,
        taskbar_index: prefs.taskbar_index,
        poll_interval_ms: prefs.poll_interval_ms,
        language: match prefs.language_override {
            Some(language) => Some(languages.pack(language).code.to_owned()),
            None => None,
        },
        last_update_check_unix: prefs.last_update_check_unix,
        widget_visible: prefs.widget_visible,
        always_on_top: prefs.always_on_top,
        widget_width_logical: prefs.widget_width_logical,
        manual_x: match prefs.manual_position {
            Some(at) => Some(at.0),
            None => None,
        },
        manual_y: match prefs.manual_position {
            Some(at) => Some(at.1),
            None => None,
        },
        show_claude_code: prefs.show_claude_code,
        show_codex: prefs.show_codex,
        show_antigravity: prefs.show_antigravity,
        show_github_copilot: prefs.show_github_copilot,
        github_copilot_plan: prefs.github_copilot_plan,
        display_basis: prefs.display_basis,
        display_density: prefs.display_density,
        short_window_visibility: prefs.short_window_visibility,
        short_window_alert_sensitivity: prefs.short_window_alert_sensitivity,
        popup_layout: prefs.popup_layout,
        app_theme: prefs.app_theme,
    }
}

/// Whether a language choice is the one that is saved as `code`; a code that no
/// language has means the system's language.
pub open spec fn is_choice_with_code(
    choice: Option<LanguageId>,
    code: Option<Seq<char>>,
    languages: Languages,
) -> bool {
    match (choice, code) {
        (Some(language), Some(code)) => languages.is_first_with_code(language, code),
        (None, Some(code)) => forall|l: LanguageId| languages.pack(l).code@ != code,
        (None, None) => true,
        (Some(_), None) => false,
    }
}

/// Whether preferences are those that settings mean. A manual position takes both
/// coordinates.
pub open spec fn are_preferences_of(
    prefs: Preferences,
    settings: SettingsView,
    system: LanguageId,
    languages: Languages,
) -> bool {
    &&& is_choice_with_code(prefs.language_override, settings.language, languages)
    &&& prefs.language == resolve_language(prefs.language_override, system)
    &&& prefs.manual_position == (match (settings.manual_x, settings.manual_y) {
        (Some(x), Some(y)) => Some((x, y)),
        _ => None,
    })
    &&& prefs.display_basis == settings.display_basis
    &&& prefs.display_density == settings.display_density
    &&& prefs.short_window_visibility == settings.short_window_visibility
    &&& prefs.short_window_alert_sensitivity == settings.short_window_alert_sensitivity
    &&& prefs.popup_layout == settings.popup_layout
    &&& prefs.app_theme == settings.app_theme
    &&& prefs.show_claude_code == settings.show_claude_code
    &&& prefs.show_codex == settings.show_codex
    &&& prefs.show_antigravity == settings.show_antigravity
    &&& prefs.show_github_copilot == settings.show_github_copilot
    &&& prefs.github_copilot_plan == settings.github_copilot_plan
    &&& prefs.poll_interval_ms == settings.poll_interval_ms
    &&& prefs.last_update_check_unix == settings.last_update_check_unix
    &&& prefs.taskbar_index == settings.taskbar_index
    &&& prefs.tray_offset == settings.tray_offset
    &&& prefs.widget_width_logical == settings.widget_width_logical
    &&& prefs.widget_visible == settings.widget_visible
    &&& prefs.always_on_top == settings.always_on_top
}

/// The preferences that settings mean.
pub fn preferences_from_settings(
    settings: &SettingsFile,
    system: LanguageId,
    languages: &Languages,
) -> (r: Preferences)
    ensures
        are_preferences_of(r, settings@, system, *languages),
{
    let language_override: Option<LanguageId> = match &settings.language {
        Some(code) => languages.from_code(code.as_str()),
        None => None,
    };
    Preferences {
        language_override,
        language: resolve_language(language_override, system),
        display_basis: settings.display_basis,
        display_density: settings.display_density,
        short_window_visibility: settings.short_window_visibility,
        short_window_alert_sensitivity: settings.short_window_alert_sensitivity,
        popup_layout: settings.popup_layout,
        app_theme: settings.app_theme,
        show_claude_code: settings.show_claude_code,
        show_codex: settings.show_codex,
        show_antigravity: settings.show_antigravity,
        show_github_copilot: settings.show_github_copilot,
        github_copilot_plan: settings.github_copilot_plan,
        poll_interval_ms: settings.poll_interval_ms,
        last_update_check_unix: settings.last_update_check_unix,
        taskbar_index: settings.taskbar_index,
        tray_offset: settings.tray_offset,
        manual_position: match (settings.manual_x, settings.manual_y) {
            (Some(x), Some(y)) => Some((x, y)),
            _ => None,
        },
        widget_width_logical: settings.widget_width_logical,
        widget_visible: settings.widget_visible,
        always_on_top: settings.always_on_top,
    }
}

/// Preferences survive being saved and read again, where every language has its
/// own code.
pub proof fn saved_preferences_come_back(
    before: Preferences,
    after: Preferences,
    system: LanguageId,
    languages: Languages,
)
    requires
        forall|a: LanguageId, b: LanguageId|
            a != b ==> languages.pack(a).code@ != languages.pack(b).code@,
        before.language == resolve_language(before.language_override, system),
        are_preferences_of(after, settings_of(before, languages), system, languages),
    ensures
        after == before,
{
    if let Some(language) = before.language_override {
        let code = languages.pack(language).code@;
        match after.language_override {
            Some(other) => {
                assert(languages.pack(other).code@ == code);
            },
            None => {
                assert(languages.pack(language).code@ != code);
            },
        }
    }
}

/// All cells waiting for their first data.
pub open spec fn first_states() -> CellStates {
    let waiting = WindowStates { session: CellState::Loading, weekly: CellState::Loading };
    CellStates {
        claude: waiting,
        codex: waiting,
        antigravity: waiting,
        github_copilot: CellState::Loading,
        codex_banked_reset_count: BankedResetCount::Unavailable,
    }
}

/// A state before the first poll.
pub open spec fn is_first_state(s: AppState) -> bool {
    &&& !s.embedded
    &&& s.states == first_states()
    &&& s.data is None
    &&& s.polling.retry_count == 0
    &&& !s.polling.force_notify_auth_error
    &&& !s.polling.auth_error_paused_polling
    &&& s.polling.auth_watch_mode is ActiveSource
    &&& s.polling.auth_watch_snapshot@ == Seq::<u64>::empty()
    &&& !s.polling.last_poll_ok
    &&& s.update_status is Idle
    &&& !s.pointer.dragging
    &&& s.pointer.drag_start_mouse == (0i32, 0i32)
    &&& s.pointer.drag_start_window == (0i32, 0i32)
    &&& s.pointer.resize_session is None
}

/// The state that the widget starts in.
pub fn initial_state(
    settings: &SettingsFile,
    system: LanguageId,
    install_channel: InstallChannel,
    is_dark: bool,
    now: Timestamp,
    languages: &Languages,
) -> (r: AppState)
    ensures
        is_first_state(r),
        r.is_dark == is_dark,
        r.install_channel == install_channel,
        are_preferences_of(r.prefs, settings@, system, *languages),
        r.shows_current(now, *languages),
{
    let prefs: Preferences = preferences_from_settings(settings, system, languages);
    let waiting: WindowStates = WindowStates {
        session: CellState::Loading,
        weekly: CellState::Loading,
    };
    let states: CellStates = CellStates {
        claude: waiting,
        codex: waiting,
        antigravity: waiting,
        github_copilot: CellState::Loading,
        codex_banked_reset_count: BankedResetCount::Unavailable,
    };
    let strings: Strings = languages.strings(prefs.language);
    AppState {
        is_dark,
        embedded: false,
        install_channel,
        prefs,
        states,
        shown: show_usage(states, &None, prefs, now, strings),
        data: None,
        polling: PollingState {
            retry_count: 0,
            force_notify_auth_error: false,
            auth_error_paused_polling: false,
            auth_watch_mode: CredentialWatchMode::ActiveSource,
            auth_watch_snapshot: Vec::new(),
            last_poll_ok: false,
        },
        update_status: UpdateStatus::Idle,
        pointer: PointerState {
            dragging: false,
            drag_start_mouse: (0, 0),
            drag_start_window: (0, 0),
            resize_session: None,
        },
    }
}

/// What follows once the window exists.
pub open spec fn startup_steps(
    prefs: Preferences,
    features: Features,
    now_unix: u64,
) -> Seq<Effect> {
    seq![
        Effect::SelectTaskbar(prefs.taskbar_index),
        Effect::SyncTrayIcons,
        Effect::Position,
    ] + (if prefs.widget_visible {
        seq![Effect::ShowWindowFirst]
    } else {
        Seq::empty()
    }) + seq![
        Effect::Render,
        Effect::SetZOrder(
            if prefs.always_on_top {
                ZOrder::TopMost
            } else {
                ZOrder::NotTopMost
            },
        ),
        Effect::SetTimer(TimerKind::Poll, prefs.poll_interval_ms),
        Effect::StartWatchdog,
        Effect::StartPoll,
    ] + (if features.self_update {
        seq![Effect::ScheduleUpdateCheck] + (if auto_update_check_due(
            prefs.last_update_check_unix,
            now_unix,
        ) {
            seq![Effect::BeginUpdateCheck { interactive: false }]
        } else {
            Seq::empty()
        })
    } else {
        Seq::empty()
    }) + seq![Effect::CheckTheme]
}

/// The steps of the start, once the window and the state exist.
pub fn startup_effects(prefs: &Preferences, features: Features, now_unix: u64) -> (r: Vec<Effect>)
    ensures
        r@ == startup_steps(*prefs, features, now_unix),
{
    let mut effects: Vec<Effect> = Vec::new();
    effects.push(Effect::SelectTaskbar(prefs.taskbar_index));
    effects.push(Effect::SyncTrayIcons);
    effects.push(Effect::Position);
    if prefs.widget_visible {
        effects.push(Effect::ShowWindowFirst);
    }
    effects.push(Effect::Render);
    effects.push(
        Effect::SetZOrder(
            if prefs.always_on_top {
                ZOrder::TopMost
            } else {
                ZOrder::NotTopMost
            },
        ),
    );
    effects.push(Effect::SetTimer(TimerKind::Poll, prefs.poll_interval_ms));
    effects.push(Effect::StartWatchdog);
    effects.push(Effect::StartPoll);
    if features.self_update {
        effects.push(Effect::ScheduleUpdateCheck);
        if auto_update_check_due(prefs.last_update_check_unix, now_unix) {
            effects.push(Effect::BeginUpdateCheck { interactive: false });
        }
    }
    effects.push(Effect::CheckTheme);
    assert(effects@ =~= startup_steps(*prefs, features, now_unix));
    effects
}

// ---- laws -----------------------------------------------------------------------------

/// Whether settings have a provider shown.
pub open spec fn is_family_set(settings: SettingsView, id: QuotaFamilyId) -> bool {
    match id {
        QuotaFamilyId::Claude => settings.show_claude_code,
        QuotaFamilyId::Codex => settings.show_codex,
        QuotaFamilyId::Antigravity => settings.show_antigravity,
        QuotaFamilyId::GithubCopilot => settings.show_github_copilot,
    }
}

/// What is saved of preferences is what they say, each provider under its own name and
/// each coordinate as itself.
pub proof fn saved_settings_say_what_the_preferences_say(
    prefs: Preferences,
    languages: Languages,
    id: QuotaFamilyId,
)
    ensures
        ({
            let saved = settings_of(prefs, languages);
            &&& is_family_set(saved, id) <==> is_family_shown(prefs, id)
            &&& prefs.manual_position matches Some(at) ==> saved.manual_x == Some(at.0)
                && saved.manual_y == Some(at.1)
            &&& prefs.manual_position is None ==> saved.manual_x is None && saved.manual_y is None
            &&& saved.widget_visible == prefs.widget_visible
            &&& saved.always_on_top == prefs.always_on_top
            &&& prefs.language_override matches Some(language) ==> saved.language == Some(
                languages.pack(language).code@,
            )
            &&& prefs.language_override is None ==> saved.language is None
        }),
{
}

/// Preferences that are read show the providers that the settings name, and have a manual
/// position just where both coordinates are saved.
pub proof fn read_preferences_say_what_the_settings_say(
    prefs: Preferences,
    settings: SettingsView,
    system: LanguageId,
    languages: Languages,
    id: QuotaFamilyId,
)
    requires
        are_preferences_of(prefs, settings, system, languages),
    ensures
        is_family_shown(prefs, id) <==> is_family_set(settings, id),
        prefs.manual_position is Some <==> settings.manual_x is Some && settings.manual_y is Some,
        prefs.manual_position matches Some(at) ==> settings.manual_x == Some(at.0)
            && settings.manual_y == Some(at.1),
        prefs.widget_visible == settings.widget_visible,
        prefs.always_on_top == settings.always_on_top,
        settings.language is None ==> prefs.language == system,
        prefs.language_override matches Some(language) ==> prefs.language == language && Some(
            languages.pack(language).code@,
        ) == settings.language,
{
}

/// Before the first poll every provider waits for its data, and nothing goes on.
pub proof fn first_state_waits_for_every_provider(s: AppState, id: QuotaFamilyId)
    requires
        is_first_state(s),
    ensures
        id is GithubCopilot ==> s.states.github_copilot is Loading,
        !(id is GithubCopilot) ==> states_of(s.states, id).session is Loading && states_of(
            s.states,
            id,
        ).weekly is Loading,
        s.states.codex_banked_reset_count is Unavailable,
        s.data is None,
        !s.pointer.dragging && s.pointer.resize_session is None,
        !s.polling.auth_error_paused_polling && s.polling.retry_count == 0,
{
}

/// At the start the window is shown just where the widget is to be seen, once it has its
/// place; it stands above all others just where that is chosen; polling begins at once and
/// goes on at the chosen interval; and an update is looked for, without a word, just where
/// the build can update itself and a check is due.
pub proof fn start_does_what_was_chosen(prefs: Preferences, features: Features, now_unix: u64)
    ensures
        ({
            let steps = startup_steps(prefs, features, now_unix);
            &&& steps[0] == Effect::SelectTaskbar(prefs.taskbar_index)
            &&& steps.contains(Effect::ShowWindowFirst) <==> prefs.widget_visible
            &&& prefs.widget_visible ==> exists|i: int, j: int|
                0 <= i < j < steps.len() && #[trigger] steps[i] == Effect::Position
                    && #[trigger] steps[j] == Effect::ShowWindowFirst
            &&& steps.contains(Effect::SetZOrder(ZOrder::TopMost)) <==> prefs.always_on_top
            &&& steps.contains(Effect::SetZOrder(ZOrder::NotTopMost)) <==> !prefs.always_on_top
            &&& steps.contains(Effect::SetTimer(TimerKind::Poll, prefs.poll_interval_ms))
            &&& steps.contains(Effect::StartPoll)
            &&& steps.contains(Effect::SyncTrayIcons)
            &&& steps.contains(Effect::Render)
            &&& steps.contains(Effect::StartWatchdog)
            &&& steps.contains(Effect::CheckTheme)
            &&& steps.contains(Effect::ScheduleUpdateCheck) <==> features.self_update
            &&& steps.contains(Effect::BeginUpdateCheck { interactive: false })
                <==> features.self_update && auto_update_check_due(
                prefs.last_update_check_unix,
                now_unix,
            )
            &&& !steps.contains(Effect::BeginUpdateCheck { interactive: true })
        }),
{
    let steps = startup_steps(prefs, features, now_unix);
    let v: int = if prefs.widget_visible {
        1
    } else {
        0
    };
    assert(steps[1] == Effect::SyncTrayIcons);
    assert(steps[2] == Effect::Position);
    assert(prefs.widget_visible ==> steps[3] == Effect::ShowWindowFirst);
    assert(steps[3 + v] == Effect::Render);
    assert(steps[4 + v] is SetZOrder);
    assert(steps[5 + v] == Effect::SetTimer(TimerKind::Poll, prefs.poll_interval_ms));
    assert(steps[6 + v] == Effect::StartWatchdog);
    assert(steps[7 + v] == Effect::StartPoll);
    assert(features.self_update ==> steps[8 + v] == Effect::ScheduleUpdateCheck);
    assert(features.self_update && auto_update_check_due(prefs.last_update_check_unix, now_unix)
        ==> steps[9 + v] == Effect::BeginUpdateCheck { interactive: false });
    assert(steps[steps.len() - 1] == Effect::CheckTheme);
}

/// The popup is anchored to a taskbar that there is, just where there is any: to the
/// requested one where it is there, and else to the last.
pub proof fn anchor_is_a_present_taskbar(requested: usize, count: usize)
    ensures
        anchor_index(requested, count) is None <==> count == 0,
        anchor_index(requested, count) matches Some(index) ==> index < count && index <= requested
            && (index == requested || index + 1 == count),
{
}

/// A further digit makes a number ten times as large and adds its own worth; anything else
/// makes it no number.
pub proof fn further_digit_counts_ones(text: Seq<char>, start: nat, c: char)
    ensures
        digits_value(text.push(c), start) == (match digits_value(text, start) {
            Some(n) => if '0' <= c <= '9' {
                Some((10 * n + (c as nat - '0' as nat)) as nat)
            } else {
                None
            },
            None => None,
        }),
    decreases text.len(),
{
    let longer = text.push(c);
    if text.len() == 0 {
        assert(longer.skip(1) =~= Seq::<char>::empty());
        assert(longer[0] == c);
        assert(digits_value(longer.skip(1), 10 * start + (c as nat - '0' as nat) as nat) == Some(
            10 * start + (c as nat - '0' as nat) as nat,
        ));
    } else {
        assert(longer[0] == text[0]);
        assert(longer.skip(1) =~= text.skip(1).push(c));
        further_digit_counts_ones(
            text.skip(1),
            10 * start + (text[0] as nat - '0' as nat) as nat,
            c,
        );
    }
}

/// A plus sign in front of a number changes nothing, and no number is no digits.
pub proof fn plus_sign_changes_nothing(digits: Seq<char>)
    requires
        digits.len() == 0 || digits[0] != '+',
    ensures
        unsigned_in_text(seq!['+'] + digits) == unsigned_in_text(digits),
        digits.len() == 0 ==> unsigned_in_text(digits) is None,
{
    let text = seq!['+'] + digits;
    assert(text.skip(1) =~= digits);
}

/// Each unit of the path takes two bytes of the start-up entry, the lower half first, and
/// two zero bytes end it.
pub proof fn entry_is_little_endian(executable: Seq<u16>)
    ensures
        ({
            let bytes = entry_bytes(executable);
            let n = executable.len() as int;
            &&& bytes.len() == 2 * n + 2
            &&& forall|i: int|
                0 <= i < n ==> bytes[2 * i] + 256 * bytes[2 * i + 1] == #[trigger] executable[i]
            &&& bytes[2 * n] == 0 && bytes[2 * n + 1] == 0
        }),
{
    let bytes = entry_bytes(executable);
    assert forall|i: int| 0 <= i < executable.len() implies bytes[2 * i] + 256 * bytes[2 * i + 1]
        == #[trigger] executable[i] by {
        assert((2 * i) / 2 == i && (2 * i) % 2 == 0);
        assert((2 * i + 1) / 2 == i && (2 * i + 1) % 2 == 1);
    }
}

/// A path without surrogates has its units for characters.
pub proof fn plain_units_are_characters(units: Seq<u16>)
    requires
        forall|i: int| 0 <= i < units.len() ==> !(0xD800 <= #[trigger] units[i] < 0xE000),
    ensures
        characters_of(units).len() == units.len(),
        forall|i: int| 0 <= i < units.len() ==> #[trigger] characters_of(units)[i] == units[i],
    decreases units.len(),
{
    if units.len() > 0 {
        let rest = units.skip(1);
        assert(!(0xD800 <= units[0] < 0xE000));
        assert forall|i: int| 0 <= i < rest.len() implies !(0xD800 <= #[trigger] rest[i]
            < 0xE000) by {
            assert(rest[i] == units[i + 1]);
        }
        plain_units_are_characters(rest);
        assert forall|i: int| 0 <= i < units.len() implies #[trigger] characters_of(units)[i]
            == units[i] by {
            if i > 0 {
                assert(characters_of(units)[i] == characters_of(rest)[i - 1]);
                assert(rest[i - 1] == units[i]);
            }
        }
    }
}

/// Letters count as the same in either case, and nothing else counts as a letter.
pub proof fn only_letters_have_a_case(c: u32)
    ensures
        'A' as u32 <= c <= 'Z' as u32 ==> ascii_lower(c) - 'a' as u32 == c - 'A' as u32,
        !('A' as u32 <= c <= 'Z' as u32) ==> ascii_lower(c) == c,
        ascii_lower(ascii_lower(c)) == ascii_lower(c),
{
}

/// A menu without a state shows what settings that nobody ever changed mean.
pub proof fn defaults_agree(languages: Languages)
    ensures
        are_preferences_of(
            default_preferences(),
            default_settings(),
            LanguageId::English,
            languages,
        ),
{
}

/// A surrogate pair stands for one character beyond the first plane, and for each of those
/// there is just one pair: the higher digits are in the first unit, the lower in the
/// second.
pub proof fn surrogates_pair_up(high: u16, low: u16)
    requires
        is_high_surrogate(high),
        is_low_surrogate(low),
    ensures
        ({
            let beyond = paired(high, low) - 0x1_0000;
            &&& 0 <= beyond < 0x10_0000
            &&& high == 0xD800 + beyond / 0x400
            &&& low == 0xDC00 + beyond % 0x400
        }),
        characters_of(seq![high, low]) == seq![paired(high, low)],
{
    let units = seq![high, low];
    assert(units.skip(2) =~= Seq::<u16>::empty());
    assert(characters_of(units.skip(2)) =~= Seq::<u32>::empty());
    assert(characters_of(units) =~= seq![paired(high, low)]);
}

} // verus!
