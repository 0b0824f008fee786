//! Polling: what each provider's outcome and each finished poll do to the state,
//! and when the next poll comes.

use vstd::arithmetic::power2::{lemma2_to64, lemma_pow2_strictly_increases, lemma_pow2_unfold, pow2};
use vstd::prelude::*;

use crate::cells::CellState;
use crate::effects::{AuthBalloon, Effect, TimerKind};
use crate::models::{
    cached_family, offers, AppUsageData, FamilyView, QuotaFamily, QuotaFamilyId, QuotaItem,
    GITHUB_COPILOT_MONTHLY_ITEM_ID,
};
use crate::paint::is_family_shown;
use crate::poll::{
    banked_reset_count_for_poll, banked_resets_after, cache_well_formed, cell_states_after, held,
    held_after, item_state_after, merge_successful_provider, merge_successful_providers,
    poll_cell_states, poll_quota_item_state, provider_error_cell_state, PollError, PollReport,
    ProviderPollOutcome,
};
use crate::settings::GithubCopilotPlan;
use crate::state::{
    refresh_usage_texts, states_of, AppState, CellStates, CredentialWatchMode, PollingState,
    Preferences, WindowStates,
};
use crate::strings::Languages;
use crate::time::Timestamp;

verus! {

/// Delay before the first retry after a transient failure.
pub const RETRY_BASE_MS: u32 = 30_000;

pub const POLL_1_MIN: u32 = 60_000;

pub const POLL_5_MIN: u32 = 300_000;

pub const POLL_15_MIN: u32 = 900_000;

pub const POLL_1_HOUR: u32 = 3_600_000;

/// While a reset has passed without fresh data, polls come this often.
pub const RESET_POLL_MS: u32 = 5_000;

/// Which providers a poll asks.
#[derive(Clone, Copy, Debug, PartialEq, Eq, Structural)]
pub struct PollRequest {
    pub claude_code: bool,
    pub codex: bool,
    pub antigravity: bool,
    pub github_copilot: bool,
    pub github_copilot_plan: GithubCopilotPlan,
}

pub open spec fn request_for(state: Option<AppState>) -> PollRequest {
    match state {
        Some(s) => PollRequest {
            claude_code: s.prefs.show_claude_code,
            codex: s.prefs.show_codex,
            antigravity: s.prefs.show_antigravity,
            github_copilot: s.prefs.show_github_copilot,
            github_copilot_plan: s.prefs.github_copilot_plan,
        },
        None => PollRequest {
            claude_code: true,
            codex: false,
            antigravity: false,
            github_copilot: false,
            github_copilot_plan: GithubCopilotPlan::Unknown,
        },
    }
}

/// The poll that the current state asks for: exactly the shown providers.
pub fn poll_request(state: &Option<AppState>) -> (r: PollRequest)
    ensures
        r == request_for(*state),
{
    match state {
        Some(s) => PollRequest {
            claude_code: s.prefs.show_claude_code,
            codex: s.prefs.show_codex,
            antigravity: s.prefs.show_antigravity,
            github_copilot: s.prefs.show_github_copilot,
            github_copilot_plan: s.prefs.github_copilot_plan,
        },
        None => PollRequest {
            claude_code: true,
            codex: false,
            antigravity: false,
            github_copilot: false,
            github_copilot_plan: GithubCopilotPlan::Unknown,
        },
    }
}

// ---- one provider's outcome -------------------------------------------------

/// Both states of a provider's windows after its outcome.
pub open spec fn window_states_after(
    provider: QuotaFamilyId,
    outcome: ProviderPollOutcome,
) -> WindowStates {
    WindowStates {
        session: cell_states_after(provider, outcome).0,
        weekly: cell_states_after(provider, outcome).1,
    }
}

/// The cells' states once one provider's outcome is in; only its own cells change.
pub open spec fn states_after_update(
    before: CellStates,
    provider: QuotaFamilyId,
    outcome: ProviderPollOutcome,
) -> CellStates {
    match provider {
        QuotaFamilyId::Claude => CellStates {
            claude: window_states_after(provider, outcome),
            ..before
        },
        QuotaFamilyId::Codex => CellStates {
            codex: window_states_after(provider, outcome),
            codex_banked_reset_count: banked_resets_after(outcome),
            ..before
        },
        QuotaFamilyId::Antigravity => CellStates {
            antigravity: window_states_after(provider, outcome),
            ..before
        },
        QuotaFamilyId::GithubCopilot => CellStates {
            github_copilot: item_state_after(
                provider,
                outcome,
                GITHUB_COPILOT_MONTHLY_ITEM_ID@,
            ),
            ..before
        },
    }
}

/// Two states that agree on everything that a poll does not touch.
pub open spec fn same_outside_usage(a: AppState, b: AppState) -> bool {
    &&& a.is_dark == b.is_dark
    &&& a.embedded == b.embedded
    &&& a.install_channel == b.install_channel
    &&& a.prefs == b.prefs
    &&& a.update_status == b.update_status
    &&& a.pointer == b.pointer
}

fn window_states(provider: QuotaFamilyId, outcome: &ProviderPollOutcome) -> (r: WindowStates)
    ensures
        r == window_states_after(provider, *outcome),
{
    let states: (CellState, CellState) = poll_cell_states(provider, outcome);
    WindowStates { session: states.0, weekly: states.1 }
}

/// Takes in one provider's outcome while the others are still being polled.
pub fn apply_provider_poll_update(
    state: &mut AppState,
    provider: QuotaFamilyId,
    outcome: &ProviderPollOutcome,
    now: Timestamp,
    languages: &Languages,
)
    ensures
        same_outside_usage(*final(state), *old(state)),
        final(state).polling == old(state).polling,
        final(state).states == states_after_update(old(state).states, provider, *outcome),
        forall|id: QuotaFamilyId|
            held(final(state).data, id) == if id == provider {
                held_after(held(old(state).data, id), provider, *outcome)
            } else {
                held(old(state).data, id)
            },
        final(state).data is None <==> old(state).data is None && !(*outcome is Success),
        !(*outcome is Success) ==> final(state).data == old(state).data,
        cache_well_formed(old(state).data) ==> cache_well_formed(final(state).data),
        final(state).shows_current(now, *languages),
{
    match provider {
        QuotaFamilyId::Claude => {
            state.states.claude = window_states(provider, outcome);
        },
        QuotaFamilyId::Codex => {
            state.states.codex = window_states(provider, outcome);
            state.states.codex_banked_reset_count = banked_reset_count_for_poll(outcome);
        },
        QuotaFamilyId::Antigravity => {
            state.states.antigravity = window_states(provider, outcome);
        },
        QuotaFamilyId::GithubCopilot => {
            state.states.github_copilot = poll_quota_item_state(
                provider,
                outcome,
                GITHUB_COPILOT_MONTHLY_ITEM_ID,
            );
        },
    }
    merge_successful_provider(&mut state.data, provider, outcome);
    refresh_usage_texts(state, now, languages);
}

// ---- a finished poll --------------------------------------------------------

/// The cells' states after a whole report, each from its own provider's outcome.
pub open spec fn states_after_report(report: PollReport) -> CellStates {
    CellStates {
        claude: window_states_after(QuotaFamilyId::Claude, report.claude_code),
        codex: window_states_after(QuotaFamilyId::Codex, report.codex),
        antigravity: window_states_after(QuotaFamilyId::Antigravity, report.antigravity),
        github_copilot: item_state_after(
            QuotaFamilyId::GithubCopilot,
            report.github_copilot,
            GITHUB_COPILOT_MONTHLY_ITEM_ID@,
        ),
        codex_banked_reset_count: banked_resets_after(report.codex),
    }
}

/// Cells, cache and texts are those of a report.
pub open spec fn took_in_report(
    after: AppState,
    before: AppState,
    report: PollReport,
    now: Timestamp,
    languages: Languages,
) -> bool {
    &&& same_outside_usage(after, before)
    &&& after.states == states_after_report(report)
    &&& after.data is Some
    &&& forall|id: QuotaFamilyId|
        held(after.data, id) == held_after(held(before.data, id), id, report.outcome(id))
    &&& cache_well_formed(before.data) ==> cache_well_formed(after.data)
    &&& after.shows_current(now, languages)
}

fn take_in_report(
    state: &mut AppState,
    report: &PollReport,
    now: Timestamp,
    languages: &Languages,
)
    ensures
        took_in_report(*final(state), *old(state), *report, now, *languages),
        final(state).polling == old(state).polling,
{
    state.states = CellStates {
        claude: window_states(QuotaFamilyId::Claude, &report.claude_code),
        codex: window_states(QuotaFamilyId::Codex, &report.codex),
        antigravity: window_states(QuotaFamilyId::Antigravity, &report.antigravity),
        github_copilot: poll_quota_item_state(
            QuotaFamilyId::GithubCopilot,
            &report.github_copilot,
            GITHUB_COPILOT_MONTHLY_ITEM_ID,
        ),
        codex_banked_reset_count: banked_reset_count_for_poll(&report.codex),
    };
    merge_successful_providers(&mut state.data, report);
    refresh_usage_texts(state, now, languages);
}

/// Polling after a poll in which something succeeded.
pub open spec fn is_recovered(polling: PollingState) -> bool {
    &&& polling.retry_count == 0
    &&& !polling.force_notify_auth_error
    &&& !polling.auth_error_paused_polling
    &&& polling.auth_watch_mode is ActiveSource
    &&& polling.auth_watch_snapshot@ == Seq::<u64>::empty()
    &&& polling.last_poll_ok
}

/// Effects of a successful poll: the snapshot, the end of fast polling once the
/// data is fresh, and the normal interval after errors.
pub open spec fn success_effects(before: Option<AppState>, past_reset: bool) -> Seq<Effect> {
    match before {
        Some(s) => seq![Effect::PersistSnapshot] + (if past_reset {
            Seq::empty()
        } else {
            seq![Effect::KillTimer(TimerKind::ResetPoll)]
        }) + (if s.polling.retry_count > 0 {
            seq![Effect::SetTimer(TimerKind::Poll, s.prefs.poll_interval_ms)]
        } else {
            Seq::empty()
        }) + seq![Effect::PostUsageUpdated],
        None => seq![Effect::PersistSnapshot, Effect::PostUsageUpdated],
    }
}

/// Ends a poll that brought data. `past_reset` tells whether some reset time in it
/// has already passed.
pub fn finish_successful_poll(
    state: &mut Option<AppState>,
    report: &PollReport,
    past_reset: bool,
    now: Timestamp,
    languages: &Languages,
) -> (r: Vec<Effect>)
    ensures
        r@ == success_effects(*old(state), past_reset),
        *final(state) is Some <==> *old(state) is Some,
        *old(state) is Some ==> took_in_report(
            (*final(state))->0,
            (*old(state))->0,
            *report,
            now,
            *languages,
        ) && is_recovered((*final(state))->0.polling),
{
    let mut effects: Vec<Effect> = vec![Effect::PersistSnapshot];
    let taken: Option<AppState> = state.take();
    if let Some(mut s) = taken {
        take_in_report(&mut s, report, now, languages);
        if !past_reset {
            effects.push(Effect::KillTimer(TimerKind::ResetPoll));
        }
        if s.polling.retry_count > 0 {
            effects.push(Effect::SetTimer(TimerKind::Poll, s.prefs.poll_interval_ms));
        }
        s.polling = PollingState {
            retry_count: 0,
            force_notify_auth_error: false,
            auth_error_paused_polling: false,
            auth_watch_mode: CredentialWatchMode::ActiveSource,
            auth_watch_snapshot: Vec::new(),
            last_poll_ok: true,
        };
        *state = Some(s);
    }
    effects.push(Effect::PostUsageUpdated);
    proof {
        assert(effects@ =~= success_effects(*old(state), past_reset));
    }
    effects
}

pub open spec fn spec_auth_watch_mode(error: PollError, request: PollRequest) -> Option<
    CredentialWatchMode,
> {
    let copilot_alone = request.github_copilot && !request.claude_code && !request.codex
        && !request.antigravity;
    let antigravity_first = request.antigravity && !request.claude_code && !request.codex;
    match error {
        PollError::RequestFailed => None,
        _ => if copilot_alone {
            None
        } else if error is NoCredentials {
            Some(CredentialWatchMode::AllSources)
        } else if antigravity_first {
            Some(CredentialWatchMode::Antigravity)
        } else {
            Some(CredentialWatchMode::ActiveSource)
        },
    }
}

/// Whether a failure pauses polling until credentials change, and whose. A failed
/// request never does, nor anything while only Copilot is polled.
#[verifier::when_used_as_spec(spec_auth_watch_mode)]
pub fn auth_watch_mode(error: PollError, request: PollRequest) -> (r: Option<CredentialWatchMode>)
    ensures
        r == spec_auth_watch_mode(error, request),
{
    let copilot_alone: bool = request.github_copilot && !request.claude_code && !request.codex
        && !request.antigravity;
    let antigravity_first: bool = request.antigravity && !request.claude_code && !request.codex;
    match error {
        PollError::AuthRequired | PollError::TokenExpired => if copilot_alone {
            None
        } else if antigravity_first {
            Some(CredentialWatchMode::Antigravity)
        } else {
            Some(CredentialWatchMode::ActiveSource)
        },
        PollError::NoCredentials => if copilot_alone {
            None
        } else {
            Some(CredentialWatchMode::AllSources)
        },
        PollError::RequestFailed => None,
    }
}

/// The delay before retry number `retry_count`: it doubles each time, up to what
/// a timer can hold.
pub open spec fn backoff(retry_count: nat) -> nat
    recommends
        retry_count >= 1,
{
    let delay = 30_000 * pow2((retry_count - 1) as nat);
    if delay > u32::MAX {
        u32::MAX as nat
    } else {
        delay
    }
}

/// The delay before a retry.
pub fn backoff_ms(retry_count: u32) -> (r: u32)
    requires
        retry_count >= 1,
    ensures
        r == backoff(retry_count as nat),
{
    let mut delay: u32 = RETRY_BASE_MS;
    let mut doubled: u32 = 1;
    proof {
        lemma2_to64();
    }
    while doubled < retry_count && delay < u32::MAX
        invariant
            1 <= doubled <= retry_count,
            delay == backoff(doubled as nat),
        decreases retry_count - doubled,
    {
        proof {
            lemma_pow2_unfold(doubled as nat);
        }
        delay = if delay > u32::MAX / 2 {
            u32::MAX
        } else {
            2 * delay
        };
        doubled += 1;
    }
    proof {
        if doubled < retry_count {
            lemma_pow2_strictly_increases((doubled - 1) as nat, (retry_count - 1) as nat);
        }
    }
    delay
}

/// Retries never come more often than every half minute nor grow more frequent.
pub proof fn backoff_never_shrinks(a: nat, b: nat)
    requires
        1 <= a <= b,
    ensures
        30_000 <= backoff(a) <= backoff(b) <= u32::MAX,
{
    lemma2_to64();
    if a < b {
        lemma_pow2_strictly_increases((a - 1) as nat, (b - 1) as nat);
    }
    if a > 1 {
        lemma_pow2_strictly_increases(0, (a - 1) as nat);
    }
}

/// One retry more, as far as the counter goes.
pub open spec fn one_more(retry_count: u32) -> u32 {
    if retry_count == u32::MAX {
        u32::MAX
    } else {
        (retry_count + 1) as u32
    }
}

/// The smaller of two delays.
pub open spec fn sooner(a: nat, b: u32) -> u32 {
    if a <= b {
        a as u32
    } else {
        b
    }
}

pub open spec fn spec_auth_balloon(prefs: Preferences) -> AuthBalloon {
    if prefs.show_claude_code {
        AuthBalloon::Claude
    } else if prefs.show_codex {
        AuthBalloon::Codex
    } else {
        AuthBalloon::Antigravity
    }
}

/// Whose credentials the balloon speaks of.
#[verifier::when_used_as_spec(spec_auth_balloon)]
pub fn auth_balloon(prefs: Preferences) -> (r: AuthBalloon)
    ensures
        r == spec_auth_balloon(prefs),
{
    if prefs.show_claude_code {
        AuthBalloon::Claude
    } else if prefs.show_codex {
        AuthBalloon::Codex
    } else {
        AuthBalloon::Antigravity
    }
}

/// Effects of a failed poll. A credential failure stops the timers, keeps the poll
/// timer at its interval to look for new credentials, and notifies on the first
/// failure or when the user asked for the poll. Anything else retries sooner.
pub open spec fn failure_effects(
    before: Option<AppState>,
    watch: Option<CredentialWatchMode>,
) -> Seq<Effect> {
    match before {
        Some(s) => match watch {
            Some(_) => seq![
                Effect::KillTimer(TimerKind::Poll),
                Effect::KillTimer(TimerKind::ResetPoll),
                Effect::KillTimer(TimerKind::Countdown),
                Effect::SetTimer(TimerKind::Poll, s.prefs.poll_interval_ms),
            ] + (if s.polling.retry_count == 0 || s.polling.force_notify_auth_error {
                seq![Effect::NotifyAuth(auth_balloon(s.prefs))]
            } else {
                Seq::empty()
            }) + seq![Effect::PostUsageUpdated],
            None => seq![
                Effect::KillTimer(TimerKind::ResetPoll),
                Effect::SetTimer(
                    TimerKind::Poll,
                    sooner(
                        backoff(one_more(s.polling.retry_count) as nat),
                        s.prefs.poll_interval_ms,
                    ),
                ),
                Effect::PostUsageUpdated,
            ],
        },
        None => seq![Effect::PostUsageUpdated],
    }
}

/// Polling after a failure.
pub open spec fn polling_after_failure(
    after: PollingState,
    before: PollingState,
    watch: Option<(CredentialWatchMode, Seq<u64>)>,
) -> bool {
    &&& !after.last_poll_ok
    &&& !after.force_notify_auth_error
    &&& after.retry_count == one_more(before.retry_count)
    &&& match watch {
        Some((mode, stamps)) => after.auth_error_paused_polling && after.auth_watch_mode == mode
            && after.auth_watch_snapshot@ == stamps,
        None => !after.auth_error_paused_polling && after.auth_watch_mode is ActiveSource
            && after.auth_watch_snapshot@ == Seq::<u64>::empty(),
    }
}

/// The watched sources as a value.
pub open spec fn watch_view(watch: Option<(CredentialWatchMode, Vec<u64>)>) -> Option<
    (CredentialWatchMode, Seq<u64>),
> {
    match watch {
        Some((mode, stamps)) => Some((mode, stamps@)),
        None => None,
    }
}

/// Ends a poll that brought nothing. `watch` is the watch mode of the failure,
/// with the stamps of the credentials that there are now.
pub fn finish_failed_poll(
    state: &mut Option<AppState>,
    report: &PollReport,
    watch: Option<(CredentialWatchMode, Vec<u64>)>,
    now: Timestamp,
    languages: &Languages,
) -> (r: Vec<Effect>)
    ensures
        r@ == failure_effects(
            *old(state),
            match watch {
                Some((mode, _)) => Some(mode),
                None => None,
            },
        ),
        *final(state) is Some <==> *old(state) is Some,
        *old(state) is Some ==> took_in_report(
            (*final(state))->0,
            (*old(state))->0,
            *report,
            now,
            *languages,
        ) && polling_after_failure(
            (*final(state))->0.polling,
            (*old(state))->0.polling,
            watch_view(watch),
        ),
{
    let mut effects: Vec<Effect> = Vec::new();
    let ghost watch_mode = match watch {
        Some((mode, _)) => Some(mode),
        None => None,
    };
    let taken: Option<AppState> = state.take();
    if let Some(mut s) = taken {
        take_in_report(&mut s, report, now, languages);
        let notify: bool = s.polling.retry_count == 0 || s.polling.force_notify_auth_error;
        let retry_count: u32 = s.polling.retry_count.saturating_add(1);
        match watch {
            Some((mode, stamps)) => {
                s.polling = PollingState {
                    retry_count,
                    force_notify_auth_error: false,
                    auth_error_paused_polling: true,
                    auth_watch_mode: mode,
                    auth_watch_snapshot: stamps,
                    last_poll_ok: false,
                };
                effects.push(Effect::KillTimer(TimerKind::Poll));
                effects.push(Effect::KillTimer(TimerKind::ResetPoll));
                effects.push(Effect::KillTimer(TimerKind::Countdown));
                effects.push(Effect::SetTimer(TimerKind::Poll, s.prefs.poll_interval_ms));
                if notify {
                    effects.push(Effect::NotifyAuth(auth_balloon(s.prefs)));
                }
            },
            None => {
                let delay: u32 = backoff_ms(retry_count);
                let interval: u32 = s.prefs.poll_interval_ms;
                s.polling = PollingState {
                    retry_count,
                    force_notify_auth_error: false,
                    auth_error_paused_polling: false,
                    auth_watch_mode: CredentialWatchMode::ActiveSource,
                    auth_watch_snapshot: Vec::new(),
                    last_poll_ok: false,
                };
                effects.push(Effect::KillTimer(TimerKind::ResetPoll));
                effects.push(
                    Effect::SetTimer(
                        TimerKind::Poll,
                        if delay <= interval {
                            delay
                        } else {
                            interval
                        },
                    ),
                );
            },
        }
        *state = Some(s);
    }
    effects.push(Effect::PostUsageUpdated);
    proof {
        assert(effects@ =~= failure_effects(*old(state), watch_mode));
    }
    effects
}

/// A cell that a poll leaves ready shows that poll's data: no ready cell stands on
/// a value from an older one.
pub proof fn ready_cells_show_this_poll(
    after: AppState,
    before: AppState,
    report: PollReport,
    now: Timestamp,
    languages: Languages,
)
    requires
        took_in_report(after, before, report, now, languages),
    ensures
        after.states.claude.session is Ready || after.states.claude.weekly is Ready
            ==> report.claude_code is Success && held(after.data, QuotaFamilyId::Claude) == Some(
            FamilyView { id: QuotaFamilyId::Claude, items: report.claude_code->usage.items@ },
        ),
        after.states.codex.session is Ready || after.states.codex.weekly is Ready
            ==> report.codex is Success && held(after.data, QuotaFamilyId::Codex) == Some(
            FamilyView { id: QuotaFamilyId::Codex, items: report.codex->usage.items@ },
        ),
        after.states.antigravity.session is Ready || after.states.antigravity.weekly is Ready
            ==> report.antigravity is Success && held(after.data, QuotaFamilyId::Antigravity)
            == Some(
            FamilyView { id: QuotaFamilyId::Antigravity, items: report.antigravity->usage.items@ },
        ),
        after.states.github_copilot is Ready ==> report.github_copilot is Success && held(
            after.data,
            QuotaFamilyId::GithubCopilot,
        ) == Some(
            FamilyView {
                id: QuotaFamilyId::GithubCopilot,
                items: report.github_copilot->usage.items@,
            },
        ),
{
    assert(held(after.data, QuotaFamilyId::Claude) == held_after(
        held(before.data, QuotaFamilyId::Claude),
        QuotaFamilyId::Claude,
        report.outcome(QuotaFamilyId::Claude),
    ));
    assert(held(after.data, QuotaFamilyId::Codex) == held_after(
        held(before.data, QuotaFamilyId::Codex),
        QuotaFamilyId::Codex,
        report.outcome(QuotaFamilyId::Codex),
    ));
    assert(held(after.data, QuotaFamilyId::Antigravity) == held_after(
        held(before.data, QuotaFamilyId::Antigravity),
        QuotaFamilyId::Antigravity,
        report.outcome(QuotaFamilyId::Antigravity),
    ));
    assert(held(after.data, QuotaFamilyId::GithubCopilot) == held_after(
        held(before.data, QuotaFamilyId::GithubCopilot),
        QuotaFamilyId::GithubCopilot,
        report.outcome(QuotaFamilyId::GithubCopilot),
    ));
}

/// After a failure that is not about credentials, the next poll comes no later
/// than the interval that the user chose.
pub proof fn retry_is_bounded_by_the_interval(before: AppState)
    ensures
        (match failure_effects(Some(before), None)[1] {
            Effect::SetTimer(TimerKind::Poll, delay) => delay <= before.prefs.poll_interval_ms,
            _ => false,
        }),
{
}

// ---- timers ------------------------------------------------------------------

/// What the poll timer leads to.
#[derive(Clone, Copy, Debug, PartialEq, Eq, Structural)]
pub enum PollTimerAction {
    /// Nothing to do.
    Nothing,
    /// Polls at once.
    Poll,
    /// Polls only if the watched credentials have changed.
    CompareCredentials(CredentialWatchMode),
}

pub open spec fn poll_timer_action_of(state: Option<AppState>) -> PollTimerAction {
    match state {
        None => PollTimerAction::Nothing,
        Some(s) => if s.polling.auth_error_paused_polling {
            PollTimerAction::CompareCredentials(s.polling.auth_watch_mode)
        } else {
            PollTimerAction::Poll
        },
    }
}

/// Decides on a tick of the poll timer.
pub fn poll_timer_action(state: &Option<AppState>) -> (r: PollTimerAction)
    ensures
        r == poll_timer_action_of(*state),
{
    match state {
        None => PollTimerAction::Nothing,
        Some(s) => if s.polling.auth_error_paused_polling {
            PollTimerAction::CompareCredentials(s.polling.auth_watch_mode)
        } else {
            PollTimerAction::Poll
        },
    }
}

/// Copies credential stamps.
pub fn copy_stamps(stamps: &Vec<u64>) -> (r: Vec<u64>)
    ensures
        r@ == stamps@,
{
    let mut copy: Vec<u64> = Vec::new();
    let mut i: usize = 0;
    while i < stamps.len()
        invariant
            i <= stamps.len(),
            copy@ == stamps@.take(i as int),
        decreases stamps.len() - i,
    {
        copy.push(stamps[i]);
        i += 1;
        assert(copy@ =~= stamps@.take(i as int));
    }
    assert(stamps@.take(stamps.len() as int) =~= stamps@);
    copy
}

/// The stamps that polling was paused with.
pub fn watched_stamps(state: &Option<AppState>) -> (r: Vec<u64>)
    ensures
        r@ == (match *state {
            Some(s) => s.polling.auth_watch_snapshot@,
            None => Seq::empty(),
        }),
{
    match state {
        Some(s) => copy_stamps(&s.polling.auth_watch_snapshot),
        None => Vec::new(),
    }
}

fn same_stamps(a: &Vec<u64>, b: &Vec<u64>) -> (r: bool)
    ensures
        r == (a@ == b@),
{
    if a.len() != b.len() {
        return false;
    }
    let mut i: usize = 0;
    while i < a.len()
        invariant
            i <= a.len(),
            a.len() == b.len(),
            forall|k: int| 0 <= k < i ==> a@[k] == b@[k],
        decreases a.len() - i,
    {
        if a[i] != b[i] {
            assert(a@[i as int] != b@[i as int]);
            return false;
        }
        i += 1;
    }
    assert(a@ =~= b@);
    true
}

/// Takes in the stamps of the watched credentials and tells whether to poll: they
/// differ from those that the tick started from. They are kept only while polling
/// is still paused for the same sources.
pub fn credentials_read(
    state: &mut Option<AppState>,
    mode: CredentialWatchMode,
    previous: &Vec<u64>,
    current: Vec<u64>,
) -> (r: bool)
    ensures
        r == (current@ != previous@),
        (match (*old(state), *final(state)) {
            (Some(before), Some(after)) => {
                &&& after.shown == before.shown
                &&& after.states == before.states
                &&& after.data == before.data
                &&& same_outside_usage(after, before)
                &&& after.polling.retry_count == before.polling.retry_count
                &&& after.polling.force_notify_auth_error == before.polling.force_notify_auth_error
                &&& after.polling.auth_error_paused_polling
                    == before.polling.auth_error_paused_polling
                &&& after.polling.auth_watch_mode == before.polling.auth_watch_mode
                &&& after.polling.last_poll_ok == before.polling.last_poll_ok
                &&& after.polling.auth_watch_snapshot@ == if r
                    && before.polling.auth_error_paused_polling && before.polling.auth_watch_mode
                    == mode {
                    current@
                } else {
                    before.polling.auth_watch_snapshot@
                }
            },
            (None, None) => true,
            _ => false,
        }),
{
    if same_stamps(&current, previous) {
        return false;
    }
    let taken: Option<AppState> = state.take();
    if let Some(mut s) = taken {
        if s.polling.auth_error_paused_polling && s.polling.auth_watch_mode == mode {
            s.polling.auth_watch_snapshot = current;
        }
        *state = Some(s);
    }
    true
}

/// Whether the fast poll after a reset goes on.
pub fn reset_poll_due(state: &Option<AppState>) -> (r: bool)
    ensures
        r == (match *state {
            Some(s) => !s.polling.auth_error_paused_polling,
            None => false,
        }),
{
    match state {
        Some(s) => !s.polling.auth_error_paused_polling,
        None => false,
    }
}

/// Refreshes the texts on a countdown tick, unless the last poll failed: error
/// words are not replaced by old data.
pub fn update_display(state: &mut Option<AppState>, now: Timestamp, languages: &Languages)
    ensures
        (match (*old(state), *final(state)) {
            (Some(before), Some(after)) => if before.polling.last_poll_ok {
                crate::state::same_but_shown(after, before) && after.shows_current(now, *languages)
            } else {
                after == before
            },
            (None, None) => true,
            _ => false,
        }),
{
    let taken: Option<AppState> = state.take();
    if let Some(mut s) = taken {
        if s.polling.last_poll_ok {
            refresh_usage_texts(&mut s, now, languages);
        }
        *state = Some(s);
    }
}

/// The soonest of some delays.
pub open spec fn soonest(delays: Seq<u64>) -> Option<u64>
    decreases delays.len(),
{
    if delays.len() == 0 {
        None
    } else {
        match soonest(delays.drop_last()) {
            None => Some(delays.last()),
            Some(d) => Some(
                if delays.last() < d {
                    delays.last()
                } else {
                    d
                },
            ),
        }
    }
}

/// The reset times of a family's items, in order; none for a family that is not held.
pub open spec fn family_resets(family: Option<QuotaFamily>) -> Seq<Option<Timestamp>> {
    match family {
        Some(f) => f.items@.map_values(|item: QuotaItem| item.resets_at),
        None => Seq::empty(),
    }
}

/// The reset times of everything that is cached, provider by provider.
pub open spec fn cached_resets(data: Option<AppUsageData>) -> Seq<Option<Timestamp>> {
    match data {
        Some(d) => family_resets(d.claude) + family_resets(d.codex) + family_resets(d.antigravity)
            + family_resets(d.github_copilot),
        None => Seq::empty(),
    }
}

fn push_family_resets(times: &mut Vec<Option<Timestamp>>, family: &Option<QuotaFamily>)
    ensures
        final(times)@ == old(times)@ + family_resets(*family),
{
    if let Some(f) = family {
        let mut i: usize = 0;
        while i < f.items.len()
            invariant
                i <= f.items.len(),
                times@ == old(times)@ + family_resets(Some(*f)).take(i as int),
            decreases f.items.len() - i,
        {
            times.push(f.items[i].resets_at);
            i += 1;
            let ghost all = family_resets(Some(*f));
            assert(all.take(i as int) =~= all.take(i - 1).push(f.items@[i - 1].resets_at));
        }
        assert(family_resets(Some(*f)).take(i as int) =~= family_resets(*family));
    } else {
        assert(times@ =~= old(times)@ + family_resets(*family));
    }
}

/// The reset times whose texts the countdown keeps up to date.
pub fn cached_reset_times(data: &Option<AppUsageData>) -> (r: Vec<Option<Timestamp>>)
    ensures
        r@ == cached_resets(*data),
{
    let mut times: Vec<Option<Timestamp>> = Vec::new();
    if let Some(d) = data {
        push_family_resets(&mut times, &d.claude);
        push_family_resets(&mut times, &d.codex);
        push_family_resets(&mut times, &d.antigravity);
        push_family_resets(&mut times, &d.github_copilot);
    }
    assert(times@ =~= cached_resets(*data));
    times
}

/// Milliseconds until the countdown timer: the soonest change of any text, a
/// minute where none is due, at least a second, in the 32 bits of a timer.
pub open spec fn countdown_delay(delays_ms: Seq<u64>) -> int {
    let wanted: u64 = match soonest(delays_ms) {
        Some(d) => d,
        None => 60_000,
    };
    (if wanted < 1_000 {
        1_000int
    } else {
        wanted as int
    }) % 0x1_0000_0000
}

/// Timers of the countdown: none while the last poll failed, none without data.
pub open spec fn countdown_effects(
    state: Option<AppState>,
    past_reset: bool,
    delays_ms: Seq<u64>,
) -> Seq<Effect> {
    match state {
        None => Seq::empty(),
        Some(s) => if !s.polling.last_poll_ok {
            seq![Effect::KillTimer(TimerKind::Countdown), Effect::KillTimer(TimerKind::ResetPoll)]
        } else if s.data is None {
            Seq::empty()
        } else {
            (if past_reset {
                seq![Effect::SetTimer(TimerKind::ResetPoll, RESET_POLL_MS)]
            } else {
                Seq::empty()
            }) + seq![Effect::SetTimer(TimerKind::Countdown, countdown_delay(delays_ms) as u32)]
        },
    }
}

/// Plans the next countdown tick. `delays_ms` holds, for every cached reset time
/// with a text that still changes, the milliseconds until it does.
pub fn schedule_countdown_timer(
    state: &Option<AppState>,
    past_reset: bool,
    delays_ms: &Vec<u64>,
) -> (r: Vec<Effect>)
    ensures
        r@ == countdown_effects(*state, past_reset, delays_ms@),
{
    let mut effects: Vec<Effect> = Vec::new();
    if let Some(s) = state {
        if !s.polling.last_poll_ok {
            effects.push(Effect::KillTimer(TimerKind::Countdown));
            effects.push(Effect::KillTimer(TimerKind::ResetPoll));
        } else if s.data.is_some() {
            if past_reset {
                effects.push(Effect::SetTimer(TimerKind::ResetPoll, RESET_POLL_MS));
            }
            let mut least: Option<u64> = None;
            let mut i: usize = 0;
            while i < delays_ms.len()
                invariant
                    i <= delays_ms.len(),
                    least == soonest(delays_ms@.take(i as int)),
                decreases delays_ms.len() - i,
            {
                let d: u64 = delays_ms[i];
                proof {
                    assert(delays_ms@.take(i + 1).drop_last() =~= delays_ms@.take(i as int));
                }
                least = match least {
                    None => Some(d),
                    Some(l) => Some(
                        if d < l {
                            d
                        } else {
                            l
                        },
                    ),
                };
                i += 1;
            }
            assert(delays_ms@.take(delays_ms.len() as int) =~= delays_ms@);
            let wanted: u64 = match least {
                Some(d) => d,
                None => 60_000,
            };
            let delay: u64 = if wanted < 1_000 {
                1_000
            } else {
                wanted
            };
            effects.push(
                Effect::SetTimer(TimerKind::Countdown, (delay % 0x1_0000_0000) as u32),
            );
        }
    }
    assert(effects@ =~= countdown_effects(*state, past_reset, delays_ms@));
    effects
}

// ---- what polling is for -----------------------------------------------------------------

/// Whether a poll asks a provider.
pub open spec fn asks(request: PollRequest, id: QuotaFamilyId) -> bool {
    match id {
        QuotaFamilyId::Claude => request.claude_code,
        QuotaFamilyId::Codex => request.codex,
        QuotaFamilyId::Antigravity => request.antigravity,
        QuotaFamilyId::GithubCopilot => request.github_copilot,
    }
}

/// A poll asks exactly the providers that are shown, and Copilot for the chosen plan.
pub proof fn exactly_the_shown_providers_are_asked(s: AppState, id: QuotaFamilyId)
    ensures
        asks(request_for(Some(s)), id) <==> is_family_shown(s.prefs, id),
        request_for(Some(s)).github_copilot_plan == s.prefs.github_copilot_plan,
        asks(request_for(None), id) <==> id is Claude,
        request_for(None).github_copilot_plan is Unknown,
{
}

/// A provider's windows take their states from its own outcome: ready exactly where it
/// succeeded with their item, whatever the others came to.
pub proof fn states_come_from_the_providers_own_outcome(report: PollReport, id: QuotaFamilyId)
    ensures
        ({
            let after = states_after_report(report);
            let outcome = report.outcome(id);
            if id is GithubCopilot {
                &&& after.github_copilot is Ready <==> (outcome
                    matches ProviderPollOutcome::Success { usage } && offers(
                    usage.items@,
                    "monthly"@,
                ))
                &&& outcome is Disabled ==> after.github_copilot is Disabled
                &&& outcome matches ProviderPollOutcome::Error { error } ==> after.github_copilot
                    == provider_error_cell_state(id, error)
            } else {
                let windows = states_of(after, id);
                &&& windows.session is Ready <==> (outcome
                    matches ProviderPollOutcome::Success { usage } && offers(
                    usage.items@,
                    "session"@,
                ))
                &&& windows.weekly is Ready <==> (outcome
                    matches ProviderPollOutcome::Success { usage } && offers(
                    usage.items@,
                    "weekly"@,
                ))
                &&& outcome is Disabled ==> windows.session is NotAvailable
                    && windows.weekly is NotAvailable
                &&& outcome matches ProviderPollOutcome::Error { error } ==> windows.session
                    == provider_error_cell_state(id, error) && windows.weekly
                    == provider_error_cell_state(id, error)
            }
        }),
        (match report.codex {
            ProviderPollOutcome::Success { usage } => states_after_report(
                report,
            ).codex_banked_reset_count == usage.banked_reset_count,
            _ => states_after_report(report).codex_banked_reset_count is Unavailable,
        }),
{
}

/// Taking outcomes in one by one, in any two orders and whatever was there before, ends
/// with the same states as the finished report.
pub proof fn single_outcomes_add_up_to_the_report(before: CellStates, report: PollReport)
    ensures
        ({
            let claude = QuotaFamilyId::Claude;
            let codex = QuotaFamilyId::Codex;
            let antigravity = QuotaFamilyId::Antigravity;
            let copilot = QuotaFamilyId::GithubCopilot;
            let forth = states_after_update(
                states_after_update(
                    states_after_update(
                        states_after_update(before, claude, report.outcome(claude)),
                        codex,
                        report.outcome(codex),
                    ),
                    antigravity,
                    report.outcome(antigravity),
                ),
                copilot,
                report.outcome(copilot),
            );
            let back = states_after_update(
                states_after_update(
                    states_after_update(
                        states_after_update(before, copilot, report.outcome(copilot)),
                        antigravity,
                        report.outcome(antigravity),
                    ),
                    codex,
                    report.outcome(codex),
                ),
                claude,
                report.outcome(claude),
            );
            forth == states_after_report(report) && back == states_after_report(report)
        }),
{
}

/// An outcome that comes in early changes the states of its own provider only.
pub proof fn outcome_leaves_other_providers_alone(
    before: CellStates,
    provider: QuotaFamilyId,
    outcome: ProviderPollOutcome,
    other: QuotaFamilyId,
)
    requires
        provider != other,
    ensures
        ({
            let after = states_after_update(before, provider, outcome);
            &&& !(other is GithubCopilot) ==> states_of(after, other) == states_of(before, other)
            &&& other is GithubCopilot ==> after.github_copilot == before.github_copilot
            &&& !(provider is Codex) ==> after.codex_banked_reset_count
                == before.codex_banked_reset_count
        }),
{
}

/// The first retry comes after half a minute, and each further one after twice the delay,
/// as long as a timer can hold it.
pub proof fn each_retry_waits_twice_as_long(retry_count: nat)
    requires
        1 <= retry_count,
    ensures
        backoff(1) == 30_000,
        backoff(retry_count + 1) == if 2 * backoff(retry_count) > u32::MAX {
            u32::MAX as nat
        } else {
            2 * backoff(retry_count)
        },
{
    lemma2_to64();
    lemma_pow2_unfold(retry_count);
}

/// After a success the snapshot is kept and the display told; fast polling ends exactly
/// where no reset time has passed, and the user's interval is restored exactly after
/// earlier failures. No other timer is touched.
pub proof fn success_restores_the_interval_after_failures(s: AppState, past_reset: bool)
    ensures
        ({
            let effects = success_effects(Some(s), past_reset);
            &&& effects.first() == Effect::PersistSnapshot
            &&& effects.last() == Effect::PostUsageUpdated
            &&& effects.contains(Effect::KillTimer(TimerKind::ResetPoll)) <==> !past_reset
            &&& effects.contains(Effect::SetTimer(TimerKind::Poll, s.prefs.poll_interval_ms))
                <==> s.polling.retry_count > 0
            &&& forall|i: int|
                0 <= i < effects.len() ==> (match #[trigger] effects[i] {
                    Effect::SetTimer(kind, delay) => kind is Poll && delay
                        == s.prefs.poll_interval_ms,
                    Effect::KillTimer(kind) => kind is ResetPoll,
                    Effect::NotifyAuth(_) => false,
                    _ => true,
                })
        }),
{
    let effects = success_effects(Some(s), past_reset);
    if past_reset {
        if s.polling.retry_count > 0 {
            assert(effects =~= seq![
                Effect::PersistSnapshot,
                Effect::SetTimer(TimerKind::Poll, s.prefs.poll_interval_ms),
                Effect::PostUsageUpdated,
            ]);
            assert(effects[1] == Effect::SetTimer(TimerKind::Poll, s.prefs.poll_interval_ms));
        } else {
            assert(effects =~= seq![Effect::PersistSnapshot, Effect::PostUsageUpdated]);
        }
    } else {
        if s.polling.retry_count > 0 {
            assert(effects =~= seq![
                Effect::PersistSnapshot,
                Effect::KillTimer(TimerKind::ResetPoll),
                Effect::SetTimer(TimerKind::Poll, s.prefs.poll_interval_ms),
                Effect::PostUsageUpdated,
            ]);
            assert(effects[1] == Effect::KillTimer(TimerKind::ResetPoll));
            assert(effects[2] == Effect::SetTimer(TimerKind::Poll, s.prefs.poll_interval_ms));
        } else {
            assert(effects =~= seq![
                Effect::PersistSnapshot,
                Effect::KillTimer(TimerKind::ResetPoll),
                Effect::PostUsageUpdated,
            ]);
            assert(effects[1] == Effect::KillTimer(TimerKind::ResetPoll));
        }
    }
}

/// A failure that is not about credentials is tried again after the delay of its number,
/// or after the user's interval where that is shorter; nobody is notified.
pub proof fn transient_failure_is_tried_again(s: AppState)
    requires
        s.polling.retry_count < u32::MAX,
    ensures
        ({
            let effects = failure_effects(Some(s), None);
            let delay = backoff((s.polling.retry_count + 1) as nat);
            &&& exists|wait: u32|
                #[trigger] effects.contains(Effect::SetTimer(TimerKind::Poll, wait)) && wait
                    <= delay && wait <= s.prefs.poll_interval_ms && (wait == delay || wait
                    == s.prefs.poll_interval_ms)
            &&& effects.contains(Effect::KillTimer(TimerKind::ResetPoll))
            &&& effects.last() == Effect::PostUsageUpdated
            &&& forall|i: int|
                0 <= i < effects.len() ==> !(#[trigger] effects[i] is NotifyAuth) && effects[i]
                    != Effect::KillTimer(TimerKind::Poll)
        }),
{
    let effects = failure_effects(Some(s), None);
    let delay = backoff((s.polling.retry_count + 1) as nat);
    backoff_never_shrinks(1, (s.polling.retry_count + 1) as nat);
    let wait: u32 = if delay <= s.prefs.poll_interval_ms {
        delay as u32
    } else {
        s.prefs.poll_interval_ms
    };
    assert(effects[0] == Effect::KillTimer(TimerKind::ResetPoll));
    assert(effects[1] == Effect::SetTimer(TimerKind::Poll, wait));
    assert(effects.contains(Effect::SetTimer(TimerKind::Poll, wait)));
}

/// A failure about credentials stops the countdown and the fast poll, keeps looking at the
/// user's interval, and notifies exactly on the first failure or where the user asked; the
/// balloon speaks of a provider that is shown.
pub proof fn credential_failure_waits_for_credentials(s: AppState, mode: CredentialWatchMode)
    ensures
        ({
            let effects = failure_effects(Some(s), Some(mode));
            let notifies = s.polling.retry_count == 0 || s.polling.force_notify_auth_error;
            &&& effects.contains(Effect::KillTimer(TimerKind::ResetPoll))
            &&& effects.contains(Effect::KillTimer(TimerKind::Countdown))
            &&& effects.contains(Effect::SetTimer(TimerKind::Poll, s.prefs.poll_interval_ms))
            &&& effects.last() == Effect::PostUsageUpdated
            &&& notifies ==> effects.contains(Effect::NotifyAuth(auth_balloon(s.prefs)))
            &&& !notifies ==> forall|i: int|
                0 <= i < effects.len() ==> !(#[trigger] effects[i] is NotifyAuth)
        }),
        (match auth_balloon(s.prefs) {
            AuthBalloon::Claude => s.prefs.show_claude_code,
            AuthBalloon::Codex => s.prefs.show_codex && !s.prefs.show_claude_code,
            AuthBalloon::Antigravity => !s.prefs.show_codex && !s.prefs.show_claude_code,
        }),
{
    let effects = failure_effects(Some(s), Some(mode));
    assert(effects[1] == Effect::KillTimer(TimerKind::ResetPoll));
    assert(effects[2] == Effect::KillTimer(TimerKind::Countdown));
    assert(effects[3] == Effect::SetTimer(TimerKind::Poll, s.prefs.poll_interval_ms));
    if s.polling.retry_count == 0 || s.polling.force_notify_auth_error {
        assert(effects[4] == Effect::NotifyAuth(auth_balloon(s.prefs)));
    }
}

/// Polling pauses for credentials only after a failure about them, and never where only
/// Copilot was asked. It then watches the sources that the failure is about: all of them
/// where there were none, Antigravity's where nothing before it was asked, else the
/// active one.
pub proof fn polling_pauses_for_the_credentials_that_failed(error: PollError, request: PollRequest)
    ensures
        ({
            let watch = auth_watch_mode(error, request);
            let copilot_alone = asks(request, QuotaFamilyId::GithubCopilot) && forall|
                id: QuotaFamilyId,
            |
                !(id is GithubCopilot) ==> !(#[trigger] asks(request, id));
            &&& watch is None <==> error is RequestFailed || copilot_alone
            &&& watch == Some(CredentialWatchMode::AllSources) <==> error is NoCredentials
                && !copilot_alone
            &&& watch == Some(CredentialWatchMode::Antigravity) <==> (error is AuthRequired
                || error is TokenExpired) && asks(request, QuotaFamilyId::Antigravity) && !asks(
                request,
                QuotaFamilyId::Claude,
            ) && !asks(request, QuotaFamilyId::Codex)
        }),
{
    assert(asks(request, QuotaFamilyId::Claude) == request.claude_code);
    assert(asks(request, QuotaFamilyId::Codex) == request.codex);
    assert(asks(request, QuotaFamilyId::Antigravity) == request.antigravity);
    assert forall|id: QuotaFamilyId|
        !request.claude_code && !request.codex && !request.antigravity && !(
        id is GithubCopilot) implies !(#[trigger] asks(request, id)) by {
        match id {
            QuotaFamilyId::Claude => {},
            QuotaFamilyId::Codex => {},
            QuotaFamilyId::Antigravity => {},
            QuotaFamilyId::GithubCopilot => {},
        }
    }
}

/// While polling is paused, the poll timer only looks at the watched credentials; else it
/// polls.
pub proof fn paused_polling_compares_credentials(s: AppState)
    ensures
        s.polling.auth_error_paused_polling <==> poll_timer_action_of(Some(s))
            == PollTimerAction::CompareCredentials(s.polling.auth_watch_mode),
        !s.polling.auth_error_paused_polling <==> poll_timer_action_of(Some(s))
            == PollTimerAction::Poll,
        poll_timer_action_of(None) == PollTimerAction::Nothing,
{
}

/// The soonest delay is one of them, and none is sooner.
pub proof fn soonest_delay_is_the_least(delays: Seq<u64>)
    ensures
        (match soonest(delays) {
            Some(least) => delays.contains(least) && forall|i: int|
                0 <= i < delays.len() ==> least <= #[trigger] delays[i],
            None => delays.len() == 0,
        }),
    decreases delays.len(),
{
    if delays.len() > 0 {
        let rest = delays.drop_last();
        soonest_delay_is_the_least(rest);
        let least = soonest(delays)->0;
        assert forall|i: int| 0 <= i < delays.len() implies least <= #[trigger] delays[i] by {
            if i < rest.len() {
                assert(rest[i] == delays[i]);
            }
        }
        if least == delays.last() {
            assert(delays[delays.len() - 1] == least);
        } else {
            let i = choose|i: int| 0 <= i < rest.len() && rest[i] == least;
            assert(delays[i] == least);
        }
    }
}

/// The countdown ticks when the first text changes, but not more than once a second; once
/// a minute where none changes. A passed reset is polled for every five seconds. Without
/// data, or after a failure, it does not tick.
pub proof fn countdown_ticks_with_the_first_change(
    s: AppState,
    past_reset: bool,
    delays_ms: Seq<u64>,
)
    requires
        forall|i: int| 0 <= i < delays_ms.len() ==> #[trigger] delays_ms[i] <= u32::MAX,
    ensures
        ({
            let effects = countdown_effects(Some(s), past_reset, delays_ms);
            if !s.polling.last_poll_ok {
                effects.contains(Effect::KillTimer(TimerKind::Countdown)) && effects.contains(
                    Effect::KillTimer(TimerKind::ResetPoll),
                ) && effects.len() == 2
            } else if s.data is None {
                effects.len() == 0
            } else {
                &&& effects.contains(Effect::SetTimer(TimerKind::ResetPoll, 5_000)) <==> past_reset
                &&& match effects.last() {
                    Effect::SetTimer(TimerKind::Countdown, wait) => {
                        &&& 1_000 <= wait
                        &&& delays_ms.len() == 0 ==> wait == 60_000
                        &&& delays_ms.len() > 0 && wait > 1_000 ==> delays_ms.contains(wait as u64)
                        &&& forall|i: int|
                            0 <= i < delays_ms.len() && #[trigger] delays_ms[i] >= 1_000 ==> wait
                                <= delays_ms[i]
                    },
                    _ => false,
                }
                &&& effects.len() == if past_reset {
                    2int
                } else {
                    1
                }
            }
        }),
{
    let effects = countdown_effects(Some(s), past_reset, delays_ms);
    if !s.polling.last_poll_ok {
        assert(effects[0] == Effect::KillTimer(TimerKind::Countdown));
        assert(effects[1] == Effect::KillTimer(TimerKind::ResetPoll));
    } else if s.data is Some {
        soonest_delay_is_the_least(delays_ms);
        let wait = countdown_delay(delays_ms) as u32;
        assert(countdown_delay(delays_ms) == wait);
        assert(effects.last() == Effect::SetTimer(TimerKind::Countdown, wait));
        if past_reset {
            assert(effects[0] == Effect::SetTimer(TimerKind::ResetPoll, 5_000));
        } else {
            assert(effects =~= seq![Effect::SetTimer(TimerKind::Countdown, wait)]);
        }
    }
}

/// Every reset time that is cached, of whichever provider and item, is among those that
/// the countdown follows, and no other is.
pub proof fn countdown_follows_every_cached_reset(data: AppUsageData, id: QuotaFamilyId, i: int)
    requires
        cached_family(data, id) matches Some(family) && 0 <= i < family.items.len(),
    ensures
        cached_resets(Some(data)).contains(cached_family(data, id)->0.items[i].resets_at),
        cached_resets(Some(data)).len() == count_of(data.claude) + count_of(data.codex) + count_of(
            data.antigravity,
        ) + count_of(data.github_copilot),
{
    let a = family_resets(data.claude);
    let b = family_resets(data.codex);
    let c = family_resets(data.antigravity);
    let d = family_resets(data.github_copilot);
    let all = a + b + c + d;
    let item = cached_family(data, id)->0.items[i];
    let at = match id {
        QuotaFamilyId::Claude => i,
        QuotaFamilyId::Codex => a.len() + i,
        QuotaFamilyId::Antigravity => a.len() + b.len() + i,
        QuotaFamilyId::GithubCopilot => a.len() + b.len() + c.len() + i,
    };
    assert(all[at] == item.resets_at);
}

/// How many items a family has.
pub open spec fn count_of(family: Option<QuotaFamily>) -> int {
    match family {
        Some(f) => f.items@.len() as int,
        None => 0,
    }
}

} // verus!
