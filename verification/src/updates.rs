//! Checking for updates and installing them.

use vstd::prelude::*;

use crate::effects::{Effect, TimerKind, UpdateMessage};
use crate::state::{AppState, InstallChannel, Preferences, ReleaseDescriptor, UpdateStatus};
use crate::strings::{Languages, Strings};
use crate::settings::LanguageId;
use crate::text::{replace_all, replaced};

verus! {

/// Seconds between two automatic update checks.
pub const UPDATE_CHECK_INTERVAL_SECS: u64 = 86_400;

/// Seconds since the last check, none if the clock went back.
pub open spec fn secs_since(last: u64, now: u64) -> u64 {
    if now >= last {
        (now - last) as u64
    } else {
        0
    }
}

pub open spec fn spec_auto_update_check_due(last_update_check_unix: Option<u64>, now: u64) -> bool {
    match last_update_check_unix {
        None => true,
        Some(last) => secs_since(last, now) >= UPDATE_CHECK_INTERVAL_SECS,
    }
}

/// Whether the automatic update check is due.
#[verifier::when_used_as_spec(spec_auto_update_check_due)]
pub fn auto_update_check_due(last_update_check_unix: Option<u64>, now: u64) -> (r: bool)
    ensures
        r == spec_auto_update_check_due(last_update_check_unix, now),
{
    match last_update_check_unix {
        None => true,
        Some(last) => now.saturating_sub(last) >= UPDATE_CHECK_INTERVAL_SECS,
    }
}

/// The timer of the next automatic check: none while one is due, else what is left
/// of the interval, in milliseconds.
pub open spec fn update_schedule(last: Option<u64>, now: u64) -> Seq<Effect> {
    match last {
        Some(last) => if secs_since(last, now) < UPDATE_CHECK_INTERVAL_SECS {
            seq![
                Effect::KillTimer(TimerKind::UpdateCheck),
                Effect::SetTimer(
                    TimerKind::UpdateCheck,
                    ((UPDATE_CHECK_INTERVAL_SECS - secs_since(last, now)) * 1_000) as u32,
                ),
            ]
        } else {
            seq![Effect::KillTimer(TimerKind::UpdateCheck)]
        },
        None => seq![Effect::KillTimer(TimerKind::UpdateCheck)],
    }
}

/// Plans the next automatic update check.
pub fn schedule_auto_update_check(state: &Option<AppState>, now: u64) -> (r: Vec<Effect>)
    ensures
        r@ == (match *state {
            Some(s) => update_schedule(s.prefs.last_update_check_unix, now),
            None => Seq::empty(),
        }),
{
    let mut effects: Vec<Effect> = Vec::new();
    if let Some(s) = state {
        effects.push(Effect::KillTimer(TimerKind::UpdateCheck));
        if let Some(last) = s.prefs.last_update_check_unix {
            let elapsed: u64 = now.saturating_sub(last);
            if elapsed < UPDATE_CHECK_INTERVAL_SECS {
                let delay: u64 = (UPDATE_CHECK_INTERVAL_SECS - elapsed) * 1_000;
                effects.push(Effect::SetTimer(TimerKind::UpdateCheck, delay as u32));
            }
        }
        assert(effects@ =~= update_schedule(s.prefs.last_update_check_unix, now));
    }
    effects
}

/// A planned check comes within a day, and not at once.
pub proof fn planned_check_comes_within_a_day(last: u64, now: u64)
    requires
        !auto_update_check_due(Some(last), now),
    ensures
        (match update_schedule(Some(last), now)[1] {
            Effect::SetTimer(TimerKind::UpdateCheck, delay) => 1_000 <= delay <= 86_400_000,
            _ => false,
        }),
{
}

// ---- words --------------------------------------------------------------------

/// The label of the version entry: the current version and what choosing it does.
pub open spec fn version_label(
    strings: Strings,
    winget_words: Seq<char>,
    channel: InstallChannel,
    status: UpdateStatus,
    current: Seq<char>,
) -> Seq<char> {
    "v"@ + current + " - "@ + (match status {
        UpdateStatus::Idle => strings.check_for_updates@,
        UpdateStatus::Checking => strings.checking_for_updates@,
        UpdateStatus::Applying => strings.applying_update@,
        UpdateStatus::UpToDate => strings.up_to_date_short@,
        UpdateStatus::Available(release) => (match channel {
            InstallChannel::Portable => strings.update_to@,
            InstallChannel::Winget => winget_words,
        }) + " v"@ + release.latest_version@,
    })
}

pub fn version_action_label(
    languages: &Languages,
    language: LanguageId,
    channel: InstallChannel,
    status: &UpdateStatus,
    current: &str,
) -> (r: String)
    ensures
        r@ == version_label(
            languages.strings(language),
            languages.pack(language).update_via_winget@,
            channel,
            *status,
            current@,
        ),
{
    let strings: Strings = languages.strings(language);
    let mut label: String = "v".to_owned();
    label.append(current);
    label.append(" - ");
    let ghost start = label@;
    match status {
        UpdateStatus::Idle => {
            label.append(strings.check_for_updates);
        },
        UpdateStatus::Checking => {
            label.append(strings.checking_for_updates);
        },
        UpdateStatus::Applying => {
            label.append(strings.applying_update);
        },
        UpdateStatus::UpToDate => {
            label.append(strings.up_to_date_short);
        },
        UpdateStatus::Available(release) => {
            let words: &str = match channel {
                InstallChannel::Portable => strings.update_to,
                InstallChannel::Winget => languages.pack(language).update_via_winget,
            };
            label.append(words);
            label.append(" v");
            label.append(release.latest_version.as_str());
            assert(label@ =~= start + (words@ + " v"@ + release.latest_version@));
        },
    }
    label
}

/// The question whether to install a release.
pub fn update_prompt_text(strings: Strings, release: &ReleaseDescriptor) -> (r: String)
    ensures
        r@ == replace_all(
            strings.update_prompt_now@,
            "{version}"@,
            release.latest_version@,
        ),
{
    replaced(strings.update_prompt_now, "{version}", release.latest_version.as_str())
}

/// The message of a failed update.
pub fn update_failed_text(strings: Strings, error: &str) -> (r: String)
    ensures
        r@ == strings.update_failed@ + ".\n\n"@ + error@,
{
    let mut text: String = strings.update_failed.to_owned();
    text.append(".\n\n");
    text.append(error);
    text
}

// ---- the check ------------------------------------------------------------------

/// Whether a check or an installation is under way.
pub open spec fn is_busy(status: UpdateStatus) -> bool {
    status is Checking || status is Applying
}

fn busy(status: &UpdateStatus) -> (r: bool)
    ensures
        r == is_busy(*status),
{
    matches!(status, UpdateStatus::Checking | UpdateStatus::Applying)
}

/// Starts a check. While one is under way nothing starts, and only a user who asked
/// is told so.
pub fn begin_update_check(state: &mut Option<AppState>, interactive: bool) -> (r: Vec<Effect>)
    ensures
        (match *old(state) {
            None => *final(state) is None && r@ == Seq::<Effect>::empty(),
            Some(s) => if is_busy(s.update_status) {
                *final(state) == *old(state) && r@ == if interactive {
                    seq![Effect::ShowUpdateMessage(UpdateMessage::InProgress)]
                } else {
                    Seq::empty()
                }
            } else {
                *final(state) == Some(
                    AppState { update_status: UpdateStatus::Checking, ..s },
                ) && r@ == seq![Effect::CheckForUpdates]
            },
        }),
{
    let mut effects: Vec<Effect> = Vec::new();
    let taken: Option<AppState> = state.take();
    if let Some(mut s) = taken {
        if busy(&s.update_status) {
            if interactive {
                effects.push(Effect::ShowUpdateMessage(UpdateMessage::InProgress));
            }
        } else {
            s.update_status = UpdateStatus::Checking;
            effects.push(Effect::CheckForUpdates);
        }
        *state = Some(s);
    }
    effects
}

/// What an update check found.
#[derive(Debug)]
pub enum UpdateCheckResult {
    UpToDate,
    Available(ReleaseDescriptor),
    Failed,
}

/// The status that a check leads to.
pub open spec fn status_after(result: UpdateCheckResult) -> UpdateStatus {
    match result {
        UpdateCheckResult::UpToDate => UpdateStatus::UpToDate,
        UpdateCheckResult::Available(release) => UpdateStatus::Available(release),
        UpdateCheckResult::Failed => UpdateStatus::Idle,
    }
}

/// What a user who asked for the check is shown.
pub open spec fn answer_to(result: UpdateCheckResult) -> Effect {
    match result {
        UpdateCheckResult::UpToDate => Effect::ShowUpdateMessage(UpdateMessage::UpToDate),
        UpdateCheckResult::Available(_) => Effect::PromptUpdate,
        UpdateCheckResult::Failed => Effect::ShowUpdateMessage(UpdateMessage::Failed),
    }
}

/// Ends a check: the status and the time of the check are kept and saved, and only
/// a user who asked is answered.
pub fn finish_update_check(
    state: &mut Option<AppState>,
    result: UpdateCheckResult,
    checked_at: u64,
    interactive: bool,
) -> (r: Vec<Effect>)
    ensures
        *final(state) == (match *old(state) {
            Some(s) => Some(
                AppState {
                    update_status: status_after(result),
                    prefs: Preferences { last_update_check_unix: Some(checked_at), ..s.prefs },
                    ..s
                },
            ),
            None => None,
        }),
        r@ == if interactive {
            seq![Effect::SaveSettings, answer_to(result), Effect::PostUpdateCheckComplete]
        } else {
            seq![Effect::SaveSettings, Effect::PostUpdateCheckComplete]
        },
{
    let mut effects: Vec<Effect> = vec![Effect::SaveSettings];
    if interactive {
        effects.push(
            match &result {
                UpdateCheckResult::UpToDate => Effect::ShowUpdateMessage(UpdateMessage::UpToDate),
                UpdateCheckResult::Available(_) => Effect::PromptUpdate,
                UpdateCheckResult::Failed => Effect::ShowUpdateMessage(UpdateMessage::Failed),
            },
        );
    }
    effects.push(Effect::PostUpdateCheckComplete);
    let taken: Option<AppState> = state.take();
    if let Some(mut s) = taken {
        s.update_status = match result {
            UpdateCheckResult::UpToDate => UpdateStatus::UpToDate,
            UpdateCheckResult::Available(release) => UpdateStatus::Available(release),
            UpdateCheckResult::Failed => UpdateStatus::Idle,
        };
        s.prefs.last_update_check_unix = Some(checked_at);
        *state = Some(s);
    }
    assert(effects@ =~= if interactive {
        seq![Effect::SaveSettings, answer_to(result), Effect::PostUpdateCheckComplete]
    } else {
        seq![Effect::SaveSettings, Effect::PostUpdateCheckComplete]
    });
    effects
}

/// What the answer to the prompt leads to.
pub fn update_prompt_answered(channel: InstallChannel, install: bool) -> (r: Option<Effect>)
    ensures
        r == if !install {
            None
        } else if channel is Portable {
            Some(Effect::BeginUpdateApply)
        } else {
            Some(Effect::BeginWingetUpdate)
        },
{
    if !install {
        return None;
    }
    match channel {
        InstallChannel::Portable => Some(Effect::BeginUpdateApply),
        InstallChannel::Winget => Some(Effect::BeginWingetUpdate),
    }
}

// ---- installing -------------------------------------------------------------------

/// Starts installing a release, which is handed back where it is to be installed.
/// While a check or an installation is under way nothing starts.
pub fn begin_update_apply(state: &mut Option<AppState>, release: ReleaseDescriptor) -> (r: (
    Vec<Effect>,
    Option<ReleaseDescriptor>,
))
    ensures
        (match *old(state) {
            None => *final(state) is None && r.0@ == Seq::<Effect>::empty() && r.1 is None,
            Some(s) => if is_busy(s.update_status) {
                *final(state) == *old(state) && r.0@ == seq![
                    Effect::ShowUpdateMessage(UpdateMessage::InProgress),
                ] && r.1 is None
            } else {
                *final(state) == Some(
                    AppState { update_status: UpdateStatus::Applying, ..s },
                ) && r.0@ == seq![Effect::InstallRelease] && r.1 == Some(release)
            },
        }),
{
    let mut effects: Vec<Effect> = Vec::new();
    let mut installing: Option<ReleaseDescriptor> = None;
    let taken: Option<AppState> = state.take();
    if let Some(mut s) = taken {
        if busy(&s.update_status) {
            effects.push(Effect::ShowUpdateMessage(UpdateMessage::InProgress));
        } else {
            s.update_status = UpdateStatus::Applying;
            effects.push(Effect::InstallRelease);
            installing = Some(release);
        }
        *state = Some(s);
    }
    (effects, installing)
}

/// Ends an installation: the program closes for it, or the release is on offer
/// again.
pub fn finish_update_apply(
    state: &mut Option<AppState>,
    release: ReleaseDescriptor,
    installed: bool,
) -> (r: Vec<Effect>)
    ensures
        installed ==> *final(state) == *old(state) && r@ == seq![Effect::PostClose],
        !installed ==> r@ == seq![
            Effect::ShowUpdateMessage(UpdateMessage::Failed),
            Effect::PostUpdateCheckComplete,
        ] && *final(state) == (match *old(state) {
            Some(s) => Some(AppState { update_status: UpdateStatus::Available(release), ..s }),
            None => None,
        }),
{
    if installed {
        return vec![Effect::PostClose];
    }
    let taken: Option<AppState> = state.take();
    if let Some(mut s) = taken {
        s.update_status = UpdateStatus::Available(release);
        *state = Some(s);
    }
    vec![Effect::ShowUpdateMessage(UpdateMessage::Failed), Effect::PostUpdateCheckComplete]
}

/// Ends the hand-over to the package manager.
pub fn finish_winget_update(started: bool) -> (r: Vec<Effect>)
    ensures
        r@ == if started {
            seq![Effect::PostClose]
        } else {
            seq![Effect::ShowUpdateMessage(UpdateMessage::Failed)]
        },
{
    if started {
        vec![Effect::PostClose]
    } else {
        vec![Effect::ShowUpdateMessage(UpdateMessage::Failed)]
    }
}

pub open spec fn version_action_of(channel: InstallChannel, status: UpdateStatus) -> Effect {
    if status is Available {
        match channel {
            InstallChannel::Portable => Effect::BeginUpdateApply,
            InstallChannel::Winget => Effect::BeginWingetUpdate,
        }
    } else {
        Effect::BeginUpdateCheck { interactive: true }
    }
}

/// What choosing the version entry does.
pub fn version_action(state: &Option<AppState>) -> (r: Effect)
    ensures
        r == (match *state {
            Some(s) => version_action_of(s.install_channel, s.update_status),
            None => Effect::BeginUpdateCheck { interactive: true },
        }),
{
    match state {
        Some(s) => match &s.update_status {
            UpdateStatus::Available(_) => match s.install_channel {
                InstallChannel::Portable => Effect::BeginUpdateApply,
                InstallChannel::Winget => Effect::BeginWingetUpdate,
            },
            _ => Effect::BeginUpdateCheck { interactive: true },
        },
        None => Effect::BeginUpdateCheck { interactive: true },
    }
}

/// The release that the last check found.
pub fn offered_release(state: &Option<AppState>) -> (r: Option<ReleaseDescriptor>)
    ensures
        (match r {
            Some(release) => (match *state {
                Some(s) => s.update_status is Available && release.latest_version@
                    == s.update_status->Available_0.latest_version@,
                None => false,
            }),
            None => (match *state {
                Some(s) => !(s.update_status is Available),
                None => true,
            }),
        }),
{
    match state {
        Some(s) => match &s.update_status {
            UpdateStatus::Available(release) => Some(
                ReleaseDescriptor { latest_version: release.latest_version.clone() },
            ),
            _ => None,
        },
        None => None,
    }
}

// ---- what updating is for -----------------------------------------------------------------

/// A check is due exactly a day after the last one, or where there was none.
pub proof fn checks_come_once_a_day(last: u64, now: u64)
    ensures
        auto_update_check_due(None, now),
        auto_update_check_due(Some(last), now) <==> now >= last + 86_400,
{
}

/// The planned check comes exactly a day after the last one.
pub proof fn planned_check_is_a_day_after_the_last(last: u64, now: u64)
    requires
        last <= now < last + 86_400,
    ensures
        update_schedule(Some(last), now).len() == 2,
        (match update_schedule(Some(last), now)[1] {
            Effect::SetTimer(TimerKind::UpdateCheck, delay) => 1_000 * (now - last) + delay
                == 86_400_000,
            _ => false,
        }),
{
}

/// What a check found is what is on offer: an update exactly where one was found. A user
/// who asked is told so, and a failed check never says that all is up to date.
pub proof fn check_result_decides_what_is_offered(result: UpdateCheckResult)
    ensures
        status_after(result) is Available <==> result is Available,
        result matches UpdateCheckResult::Available(release) ==> status_after(result)
            == UpdateStatus::Available(release),
        status_after(result) is UpToDate <==> result is UpToDate,
        !is_busy(status_after(result)),
        answer_to(result) == Effect::PromptUpdate <==> result is Available,
        answer_to(result) == Effect::ShowUpdateMessage(UpdateMessage::UpToDate)
            <==> result is UpToDate,
        answer_to(result) == Effect::ShowUpdateMessage(UpdateMessage::Failed) <==> result is Failed,
{
}

/// Choosing the version entry installs the release that is on offer, the way the program
/// itself was installed; without one it looks for one, as a user who asked.
pub proof fn version_entry_installs_what_is_offered(channel: InstallChannel, status: UpdateStatus)
    ensures
        version_action_of(channel, status) == Effect::BeginUpdateApply <==> status is Available
            && channel is Portable,
        version_action_of(channel, status) == Effect::BeginWingetUpdate <==> status is Available
            && channel is Winget,
        version_action_of(channel, status) == (Effect::BeginUpdateCheck { interactive: true })
            <==> !(status is Available),
{
}

/// The version entry names the current version first, and the one on offer last.
pub proof fn version_label_names_both_versions(
    strings: Strings,
    winget_words: Seq<char>,
    channel: InstallChannel,
    status: UpdateStatus,
    current: Seq<char>,
)
    ensures
        ({
            let label = version_label(strings, winget_words, channel, status, current);
            &&& ("v"@ + current).is_prefix_of(label)
            &&& match status {
                UpdateStatus::Available(release) => (" v"@
                    + release.latest_version@).is_suffix_of(label),
                UpdateStatus::Idle => strings.check_for_updates@.is_suffix_of(label),
                UpdateStatus::Checking => strings.checking_for_updates@.is_suffix_of(label),
                UpdateStatus::Applying => strings.applying_update@.is_suffix_of(label),
                UpdateStatus::UpToDate => strings.up_to_date_short@.is_suffix_of(label),
            }
        }),
{
    let label = version_label(strings, winget_words, channel, status, current);
    let start = "v"@ + current;
    assert(start =~= label.take(start.len() as int));
    let end = match status {
        UpdateStatus::Available(release) => " v"@ + release.latest_version@,
        UpdateStatus::Idle => strings.check_for_updates@,
        UpdateStatus::Checking => strings.checking_for_updates@,
        UpdateStatus::Applying => strings.applying_update@,
        UpdateStatus::UpToDate => strings.up_to_date_short@,
    };
    assert(end =~= label.skip(label.len() - end.len()));
}

} // verus!
