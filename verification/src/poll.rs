//! Outcomes of polling the providers, and what they do to the cache.

use vstd::prelude::*;

use crate::cells::CellState;
use crate::models::{
    cached_family, copy_items, item_with_id, offers, AppUsageData, BankedResetCount, FamilyView,
    QuotaFamily, QuotaFamilyId, QuotaItem, QuotaItemAvailability, UsageData,
    SESSION_ITEM_ID, WEEKLY_ITEM_ID,
};

verus! {

#[derive(Clone, Copy, Debug, PartialEq, Eq, Structural)]
pub enum PollError {
    AuthRequired,
    NoCredentials,
    TokenExpired,
    RequestFailed,
}

/// What one poll of one provider came to.
#[derive(Debug)]
pub enum ProviderPollOutcome {
    Success { usage: UsageData },
    Error { error: PollError },
    Disabled,
}

/// One poll of every provider.
#[derive(Debug)]
pub struct PollReport {
    pub claude_code: ProviderPollOutcome,
    pub codex: ProviderPollOutcome,
    pub antigravity: ProviderPollOutcome,
    pub github_copilot: ProviderPollOutcome,
}

impl PollReport {
    /// The outcome of one provider.
    pub open spec fn outcome(self, id: QuotaFamilyId) -> ProviderPollOutcome {
        match id {
            QuotaFamilyId::Claude => self.claude_code,
            QuotaFamilyId::Codex => self.codex,
            QuotaFamilyId::Antigravity => self.antigravity,
            QuotaFamilyId::GithubCopilot => self.github_copilot,
        }
    }
}

/// The state that an error puts a provider's cells in. A specific state is shown
/// only where the error's cause is certain.
pub open spec fn spec_provider_error_cell_state(
    provider: QuotaFamilyId,
    error: PollError,
) -> CellState {
    match (provider, error) {
        (QuotaFamilyId::GithubCopilot, _) => CellState::FetchFailed,
        (_, PollError::NoCredentials) => CellState::CredentialsUnavailable,
        (_, PollError::AuthRequired) => CellState::AuthenticationProblem,
        (QuotaFamilyId::Claude, PollError::TokenExpired) => CellState::AuthenticationExpired,
        (QuotaFamilyId::Codex, PollError::TokenExpired) => CellState::AuthenticationProblem,
        (_, _) => CellState::FetchFailed,
    }
}

#[verifier::when_used_as_spec(spec_provider_error_cell_state)]
pub fn provider_error_cell_state(provider: QuotaFamilyId, error: PollError) -> (r: CellState)
    ensures
        r == spec_provider_error_cell_state(provider, error),
{
    match (provider, error) {
        (QuotaFamilyId::Claude, PollError::TokenExpired) => CellState::AuthenticationExpired,
        (
            QuotaFamilyId::Claude | QuotaFamilyId::Codex | QuotaFamilyId::Antigravity,
            PollError::NoCredentials,
        ) => CellState::CredentialsUnavailable,
        (
            QuotaFamilyId::Claude | QuotaFamilyId::Codex | QuotaFamilyId::Antigravity,
            PollError::AuthRequired,
        )
        | (QuotaFamilyId::Codex, PollError::TokenExpired) => CellState::AuthenticationProblem,
        _ => CellState::FetchFailed,
    }
}

/// Session and weekly states after a poll.
pub open spec fn cell_states_after(
    provider: QuotaFamilyId,
    outcome: ProviderPollOutcome,
) -> (CellState, CellState) {
    match outcome {
        ProviderPollOutcome::Success { usage } => (
            if offers(usage.items@, SESSION_ITEM_ID@) {
                CellState::Ready
            } else {
                CellState::NotAvailable
            },
            if offers(usage.items@, WEEKLY_ITEM_ID@) {
                CellState::Ready
            } else {
                CellState::NotAvailable
            },
        ),
        ProviderPollOutcome::Error { error } => (
            provider_error_cell_state(provider, error),
            provider_error_cell_state(provider, error),
        ),
        ProviderPollOutcome::Disabled => (CellState::NotAvailable, CellState::NotAvailable),
    }
}

pub fn poll_cell_states(provider: QuotaFamilyId, outcome: &ProviderPollOutcome) -> (r: (
    CellState,
    CellState,
))
    ensures
        r == cell_states_after(provider, *outcome),
{
    match outcome {
        ProviderPollOutcome::Success { usage } => (
            if usage.session_available() {
                CellState::Ready
            } else {
                CellState::NotAvailable
            },
            if usage.weekly_available() {
                CellState::Ready
            } else {
                CellState::NotAvailable
            },
        ),
        ProviderPollOutcome::Error { error } => {
            let state: CellState = provider_error_cell_state(provider, *error);
            (state, state)
        },
        ProviderPollOutcome::Disabled => (CellState::NotAvailable, CellState::NotAvailable),
    }
}

/// The state of a single quota item after a poll.
pub open spec fn item_state_after(
    provider: QuotaFamilyId,
    outcome: ProviderPollOutcome,
    item_id: Seq<char>,
) -> CellState {
    match outcome {
        ProviderPollOutcome::Success { usage } => if offers(usage.items@, item_id) {
            CellState::Ready
        } else {
            CellState::NotAvailable
        },
        ProviderPollOutcome::Error { error } => provider_error_cell_state(provider, error),
        ProviderPollOutcome::Disabled => CellState::Disabled,
    }
}

pub fn poll_quota_item_state(
    provider: QuotaFamilyId,
    outcome: &ProviderPollOutcome,
    item_id: &str,
) -> (r: CellState)
    ensures
        r == item_state_after(provider, *outcome, item_id@),
{
    match outcome {
        ProviderPollOutcome::Success { usage } => match item_with_id(&usage.items, item_id) {
            Some(item) => match item.availability {
                QuotaItemAvailability::Unavailable => CellState::NotAvailable,
                QuotaItemAvailability::Available => CellState::Ready,
            },
            None => CellState::NotAvailable,
        },
        ProviderPollOutcome::Error { .. } => poll_cell_states(provider, outcome).0,
        ProviderPollOutcome::Disabled => CellState::Disabled,
    }
}

/// The banked-reset count that a poll leaves.
pub open spec fn banked_resets_after(outcome: ProviderPollOutcome) -> BankedResetCount {
    match outcome {
        ProviderPollOutcome::Success { usage } => usage.banked_reset_count,
        _ => BankedResetCount::Unavailable,
    }
}

pub fn banked_reset_count_for_poll(outcome: &ProviderPollOutcome) -> (r: BankedResetCount)
    ensures
        r == banked_resets_after(*outcome),
{
    match outcome {
        ProviderPollOutcome::Success { usage } => usage.banked_reset_count,
        _ => BankedResetCount::Unavailable,
    }
}

/// What a cache, or no cache, holds for a provider.
pub open spec fn held(data: Option<AppUsageData>, id: QuotaFamilyId) -> Option<FamilyView> {
    match data {
        Some(data) => cached_family(data, id),
        None => None,
    }
}

/// A cache, or no cache, whose families carry the ids of their providers.
pub open spec fn cache_well_formed(data: Option<AppUsageData>) -> bool {
    data matches Some(data) ==> data.well_formed()
}

/// What the cache holds for a provider once its outcome is merged: the family of this
/// poll's items if it succeeded, else what was there.
pub open spec fn held_after(
    before: Option<FamilyView>,
    provider: QuotaFamilyId,
    outcome: ProviderPollOutcome,
) -> Option<FamilyView> {
    match outcome {
        ProviderPollOutcome::Success { usage } => Some(
            FamilyView { id: provider, items: usage.items@ },
        ),
        _ => before,
    }
}

/// Caches a provider's data if its poll succeeded; touches no other provider.
pub fn merge_successful_provider(
    data: &mut Option<AppUsageData>,
    provider: QuotaFamilyId,
    outcome: &ProviderPollOutcome,
)
    ensures
        forall|id: QuotaFamilyId|
            held(*final(data), id) == if id == provider {
                held_after(held(*old(data), id), provider, *outcome)
            } else {
                held(*old(data), id)
            },
        *final(data) is None <==> *old(data) is None && !(*outcome is Success),
        !(*outcome is Success) ==> *final(data) == *old(data),
        cache_well_formed(*old(data)) ==> cache_well_formed(*final(data)),
{
    match outcome {
        ProviderPollOutcome::Success { usage } => {
            let mut cache: AppUsageData = match data.take() {
                Some(cache) => cache,
                None => AppUsageData::default(),
            };
            let items: Vec<QuotaItem> = copy_items(&usage.items);
            cache.upsert(QuotaFamily { id: provider, items });
            *data = Some(cache);
        },
        _ => {},
    }
}

/// Merges a whole report. Afterwards there is a cache, even if every provider
/// failed.
pub fn merge_successful_providers(data: &mut Option<AppUsageData>, report: &PollReport)
    ensures
        *final(data) is Some,
        forall|id: QuotaFamilyId|
            held(*final(data), id) == held_after(held(*old(data), id), id, report.outcome(id)),
        cache_well_formed(*old(data)) ==> cache_well_formed(*final(data)),
{
    if data.is_none() {
        *data = Some(AppUsageData::default());
    }
    merge_successful_provider(data, QuotaFamilyId::Claude, &report.claude_code);
    merge_successful_provider(data, QuotaFamilyId::Codex, &report.codex);
    merge_successful_provider(data, QuotaFamilyId::Antigravity, &report.antigravity);
    merge_successful_provider(data, QuotaFamilyId::GithubCopilot, &report.github_copilot);
}

// ---- what an outcome means -------------------------------------------------------------

/// A window is ready exactly after a success that offers its item; a failed poll leaves
/// both windows in the state of its error, and a provider that was not asked has neither.
pub proof fn windows_are_ready_after_success_only(
    provider: QuotaFamilyId,
    outcome: ProviderPollOutcome,
)
    ensures
        ({
            let (session, weekly) = cell_states_after(provider, outcome);
            &&& session is Ready <==> (outcome matches ProviderPollOutcome::Success { usage }
                && offers(usage.items@, "session"@))
            &&& weekly is Ready <==> (outcome matches ProviderPollOutcome::Success { usage }
                && offers(usage.items@, "weekly"@))
            &&& outcome is Success && !(session is Ready) ==> session is NotAvailable
            &&& outcome is Success && !(weekly is Ready) ==> weekly is NotAvailable
            &&& outcome matches ProviderPollOutcome::Error { error } ==> session == weekly
                && session == provider_error_cell_state(provider, error)
            &&& outcome is Disabled ==> session is NotAvailable && weekly is NotAvailable
            &&& !(session is Loading) && !(weekly is Loading)
        }),
{
}

/// The state of a single item goes by that item alone.
pub proof fn item_is_ready_after_success_only(
    provider: QuotaFamilyId,
    outcome: ProviderPollOutcome,
    item_id: Seq<char>,
)
    ensures
        ({
            let state = item_state_after(provider, outcome, item_id);
            &&& state is Ready <==> (outcome matches ProviderPollOutcome::Success { usage }
                && offers(usage.items@, item_id))
            &&& outcome is Success && !(state is Ready) ==> state is NotAvailable
            &&& outcome matches ProviderPollOutcome::Error { error } ==> state
                == provider_error_cell_state(provider, error)
            &&& outcome is Disabled ==> state is Disabled
        }),
{
}

/// An error names its cause only where that is certain: missing credentials and refused
/// ones of a provider with a login, and an expired token of the first provider; never for
/// Copilot, and never where the request itself failed.
pub proof fn errors_name_certain_causes_only(provider: QuotaFamilyId, error: PollError)
    ensures
        ({
            let state = provider_error_cell_state(provider, error);
            &&& state is CredentialsUnavailable <==> error is NoCredentials
                && !(provider is GithubCopilot)
            &&& state is AuthenticationExpired <==> error is TokenExpired && provider is Claude
            &&& state is AuthenticationProblem <==> (error is AuthRequired && !(
            provider is GithubCopilot)) || (error is TokenExpired && provider is Codex)
            &&& error is RequestFailed || provider is GithubCopilot ==> state is FetchFailed
            &&& !(state is Ready) && !(state is Loading) && !(state is NotAvailable) && !(
            state is Disabled)
        }),
{
}

/// Only a success brings a count of banked resets.
pub proof fn banked_resets_come_with_success(outcome: ProviderPollOutcome)
    ensures
        (match outcome {
            ProviderPollOutcome::Success { usage } => banked_resets_after(outcome)
                == usage.banked_reset_count,
            _ => banked_resets_after(outcome) is Unavailable,
        }),
{
}

/// A success replaces what is held by its own items; anything else leaves it as it was.
pub proof fn only_success_replaces_what_is_held(
    before: Option<FamilyView>,
    provider: QuotaFamilyId,
    outcome: ProviderPollOutcome,
)
    ensures
        (match outcome {
            ProviderPollOutcome::Success { usage } => held_after(before, provider, outcome)
                matches Some(after) && after.id == provider && after.items == usage.items@,
            _ => held_after(before, provider, outcome) == before,
        }),
{
}

} // verus!
