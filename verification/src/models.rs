//! Usage data as providers report it and as the widget caches it.

use vstd::prelude::*;

use crate::numbers::{round_away, round_half_away, Quantity};
use crate::time::Timestamp;

verus! {

/// Id of the monthly quota item of the GitHub Copilot family.
pub const GITHUB_COPILOT_MONTHLY_ITEM_ID: &'static str = "monthly";

/// Id of the short-window item of a provider.
pub const SESSION_ITEM_ID: &'static str = "session";

/// Id of the weekly item of a provider.
pub const WEEKLY_ITEM_ID: &'static str = "weekly";

/// A provider whose quotas the widget can show.
#[derive(Clone, Copy, Debug, PartialEq, Eq, Structural)]
pub enum QuotaFamilyId {
    Claude,
    Codex,
    Antigravity,
    GithubCopilot,
}

/// One window of a provider: how much is used, and when it resets.
#[derive(Clone, Copy, Debug, PartialEq, Eq, Structural)]
pub struct UsageSection {
    pub percentage: Quantity,
    pub resets_at: Option<Timestamp>,
}

/// What a quota item measures.
#[derive(Clone, Copy, Debug, PartialEq, Eq, Structural)]
pub enum QuotaMetric {
    Percentage(Quantity),
    Used { used: Quantity, limit: Option<Quantity> },
    Remaining { remaining: Quantity, limit: Option<Quantity> },
}

#[derive(Clone, Copy, Debug, PartialEq, Eq, Structural)]
pub enum QuotaItemAvailability {
    Available,
    Unavailable,
}

#[derive(Clone, Copy, Debug, PartialEq, Eq, Structural)]
pub enum QuotaUnit {
    Percent,
    AiCredits,
}

impl QuotaUnit {
    pub open spec fn spec_as_str(self) -> &'static str {
        match self {
            QuotaUnit::Percent => "percent",
            QuotaUnit::AiCredits => "ai-credits",
        }
    }

    /// The unit's word in a quota text.
    #[verifier::when_used_as_spec(spec_as_str)]
    pub fn as_str(self) -> (r: &'static str)
        ensures
            r@ == self.spec_as_str()@,
    {
        match self {
            QuotaUnit::Percent => "percent",
            QuotaUnit::AiCredits => "ai-credits",
        }
    }
}

/// How many banked full resets a provider reports.
#[derive(Clone, Copy, Debug, PartialEq, Eq, Structural)]
pub enum BankedResetCount {
    Available(u64),
    Unavailable,
}

/// One quota of a provider.
#[derive(Debug)]
pub struct QuotaItem {
    pub id: String,
    pub label: String,
    pub availability: QuotaItemAvailability,
    pub metric: Option<QuotaMetric>,
    pub unit: QuotaUnit,
    pub resets_at: Option<Timestamp>,
}

/// Percent of a limit that an amount makes up, to the nearest millionth of a
/// point. There is none without a positive finite limit and a finite amount.
pub open spec fn percent_of(amount: Quantity, limit: Quantity) -> Option<Quantity> {
    match (amount, limit) {
        (Quantity::Finite(a), Quantity::Finite(l)) => if l > 0 {
            let p = round_half_away(a * 100_000_000, l as int);
            Some(
                Quantity::Finite(
                    if p < i64::MIN {
                        i64::MIN
                    } else if p > i64::MAX {
                        i64::MAX
                    } else {
                        p as i64
                    },
                ),
            )
        } else {
            None
        },
        _ => None,
    }
}

/// What `limit - amount` leaves, never below zero.
pub open spec fn spec_left_of(limit: Quantity, amount: Quantity) -> Quantity {
    match (limit, amount) {
        (Quantity::Finite(l), Quantity::Finite(a)) => Quantity::Finite(
            if l - a <= 0 {
                0
            } else if l - a > i64::MAX {
                i64::MAX
            } else {
                (l - a) as i64
            },
        ),
        (Quantity::PosInfinity, Quantity::Finite(_)) => Quantity::PosInfinity,
        (Quantity::PosInfinity, Quantity::NegInfinity) => Quantity::PosInfinity,
        (Quantity::Finite(_), Quantity::NegInfinity) => Quantity::PosInfinity,
        _ => Quantity::Finite(0),
    }
}

/// The part of `limit` that `amount` leaves over.
#[verifier::when_used_as_spec(spec_left_of)]
pub fn left_of(limit: Quantity, amount: Quantity) -> (r: Quantity)
    ensures
        r == spec_left_of(limit, amount),
{
    match (limit, amount) {
        (Quantity::Finite(l), Quantity::Finite(a)) => {
            let left: i128 = l as i128 - a as i128;
            Quantity::Finite(
                if left <= 0 {
                    0
                } else if left > i64::MAX as i128 {
                    i64::MAX
                } else {
                    left as i64
                },
            )
        },
        (Quantity::PosInfinity, Quantity::Finite(_)) => Quantity::PosInfinity,
        (Quantity::PosInfinity, Quantity::NegInfinity) => Quantity::PosInfinity,
        (Quantity::Finite(_), Quantity::NegInfinity) => Quantity::PosInfinity,
        _ => Quantity::Finite(0),
    }
}

fn percent(amount: Quantity, limit: Quantity) -> (r: Option<Quantity>)
    ensures
        r == percent_of(amount, limit),
{
    match (amount, limit) {
        (Quantity::Finite(a), Quantity::Finite(l)) => if l > 0 {
            let p: i128 = round_away(a as i128 * 100_000_000, l as i128);
            Some(
                Quantity::Finite(
                    if p < i64::MIN as i128 {
                        i64::MIN
                    } else if p > i64::MAX as i128 {
                        i64::MAX
                    } else {
                        p as i64
                    },
                ),
            )
        } else {
            None
        },
        _ => None,
    }
}

impl QuotaItem {
    /// The used share that the metric expresses, as far as it expresses one.
    pub open spec fn used(self) -> Option<Quantity> {
        match self.metric {
            Some(QuotaMetric::Percentage(value)) => Some(value),
            Some(QuotaMetric::Used { used, limit: Some(limit) }) => percent_of(used, limit),
            Some(QuotaMetric::Remaining { remaining, limit: Some(limit) }) => match percent_of(
                remaining,
                limit,
            ) {
                Some(Quantity::Finite(p)) => Some(
                    Quantity::Finite(
                        if 100_000_000 - p > i64::MAX {
                            i64::MAX
                        } else {
                            (100_000_000 - p) as i64
                        },
                    ),
                ),
                _ => None,
            },
            _ => None,
        }
    }

    /// Used percentage, where the metric has one.
    pub fn used_percentage(&self) -> (r: Option<Quantity>)
        ensures
            r == self.used(),
    {
        match self.metric {
            Some(QuotaMetric::Percentage(value)) => Some(value),
            Some(QuotaMetric::Used { used, limit: Some(limit) }) => percent(used, limit),
            Some(QuotaMetric::Remaining { remaining, limit: Some(limit) }) => match percent(
                remaining,
                limit,
            ) {
                Some(Quantity::Finite(p)) => {
                    let left: i128 = 100_000_000 - p as i128;
                    Some(
                        Quantity::Finite(
                            if left > i64::MAX as i128 {
                                i64::MAX
                            } else {
                                left as i64
                            },
                        ),
                    )
                },
                _ => None,
            },
            _ => None,
        }
    }

    /// An item that the provider does not offer.
    pub fn unavailable(id: &str, label: &str) -> (r: QuotaItem)
        ensures
            r.id@ == id@,
            r.label@ == label@,
            r.availability is Unavailable,
            r.metric is None,
            r.resets_at is None,
    {
        QuotaItem {
            id: id.to_owned(),
            label: label.to_owned(),
            availability: QuotaItemAvailability::Unavailable,
            metric: None,
            unit: QuotaUnit::Percent,
            resets_at: None,
        }
    }
}

impl Clone for QuotaItem {
    fn clone(&self) -> (r: Self)
        ensures
            r == *self,
    {
        QuotaItem {
            id: self.id.clone(),
            label: self.label.clone(),
            availability: self.availability,
            metric: self.metric,
            unit: self.unit,
            resets_at: self.resets_at,
        }
    }
}

/// The first item with the given id.
pub open spec fn find_item(items: Seq<QuotaItem>, id: Seq<char>) -> Option<QuotaItem>
    decreases items.len(),
{
    if items.len() == 0 {
        None
    } else if items[0].id@ == id {
        Some(items[0])
    } else {
        find_item(items.drop_first(), id)
    }
}

/// Looks an item up by its id.
pub fn item_with_id<'a>(items: &'a Vec<QuotaItem>, id: &str) -> (r: Option<&'a QuotaItem>)
    ensures
        (match r {
            Some(item) => find_item(items@, id@) == Some(*item),
            None => find_item(items@, id@) is None,
        }),
{
    let wanted: String = id.to_owned();
    let mut i: usize = 0;
    assert(items@.skip(0) =~= items@);
    while i < items.len()
        invariant
            i <= items.len(),
            wanted@ == id@,
            find_item(items@, id@) == find_item(items@.skip(i as int), id@),
        decreases items.len() - i,
    {
        if items[i].id == wanted {
            return Some(&items[i]);
        }
        assert(items@.skip(i as int).drop_first() =~= items@.skip(i + 1));
        i += 1;
    }
    None
}

/// Copies a list of items.
pub fn copy_items(items: &Vec<QuotaItem>) -> (r: Vec<QuotaItem>)
    ensures
        r@ == items@,
{
    let mut copy: Vec<QuotaItem> = Vec::new();
    let mut i: usize = 0;
    while i < items.len()
        invariant
            i <= items.len(),
            copy@ == items@.take(i as int),
        decreases items.len() - i,
    {
        copy.push(items[i].clone());
        i += 1;
        assert(copy@ =~= items@.take(i as int));
    }
    assert(items@.take(items.len() as int) =~= items@);
    copy
}

/// What one successful poll of a provider brought.
#[derive(Debug)]
pub struct UsageData {
    pub items: Vec<QuotaItem>,
    pub banked_reset_count: BankedResetCount,
}

/// Whether `items` hold one with this id that the provider offers.
pub open spec fn offers(items: Seq<QuotaItem>, id: Seq<char>) -> bool {
    match find_item(items, id) {
        Some(item) => !(item.availability is Unavailable),
        None => false,
    }
}

impl Default for UsageData {
    fn default() -> (r: Self)
        ensures
            r.items@ == Seq::<QuotaItem>::empty(),
            r.banked_reset_count is Unavailable,
    {
        UsageData { items: Vec::new(), banked_reset_count: BankedResetCount::Unavailable }
    }
}

impl UsageData {
    pub fn from_quota_items(items: Vec<QuotaItem>) -> (r: UsageData)
        ensures
            r.items@ == items@,
            r.banked_reset_count is Unavailable,
    {
        UsageData { items, banked_reset_count: BankedResetCount::Unavailable }
    }

    /// Whether the session window is among the offered items.
    pub fn session_available(&self) -> (r: bool)
        ensures
            r == offers(self.items@, SESSION_ITEM_ID@),
    {
        offered(&self.items, SESSION_ITEM_ID)
    }

    /// Whether the weekly window is among the offered items.
    pub fn weekly_available(&self) -> (r: bool)
        ensures
            r == offers(self.items@, WEEKLY_ITEM_ID@),
    {
        offered(&self.items, WEEKLY_ITEM_ID)
    }

    /// Sets the session window, in front of what was there.
    pub fn set_session(&mut self, section: UsageSection)
        ensures
            find_item(final(self).items@, SESSION_ITEM_ID@) is Some,
            section_item(find_item(final(self).items@, SESSION_ITEM_ID@)->0, section),
            final(self).items@.drop_first() == old(self).items@,
            final(self).banked_reset_count == old(self).banked_reset_count,
    {
        self.items.insert(0, percentage_item(SESSION_ITEM_ID, section));
        assert(self.items@.drop_first() =~= old(self).items@);
    }

    /// Sets the weekly window, in front of what was there.
    pub fn set_weekly(&mut self, section: UsageSection)
        ensures
            find_item(final(self).items@, WEEKLY_ITEM_ID@) is Some,
            section_item(find_item(final(self).items@, WEEKLY_ITEM_ID@)->0, section),
            final(self).items@.drop_first() == old(self).items@,
            final(self).banked_reset_count == old(self).banked_reset_count,
    {
        self.items.insert(0, percentage_item(WEEKLY_ITEM_ID, section));
        assert(self.items@.drop_first() =~= old(self).items@);
    }

    /// The items of this poll as the family of `id`.
    pub fn into_quota_family(self, id: QuotaFamilyId) -> (r: QuotaFamily)
        ensures
            r.id == id,
            r.items@ == self.items@,
    {
        QuotaFamily { id, items: self.items }
    }
}

fn offered(items: &Vec<QuotaItem>, id: &str) -> (r: bool)
    ensures
        r == offers(items@, id@),
{
    match item_with_id(items, id) {
        Some(item) => match item.availability {
            QuotaItemAvailability::Unavailable => false,
            QuotaItemAvailability::Available => true,
        },
        None => false,
    }
}

/// An offered item that carries `section` as its percentage and reset.
pub open spec fn section_item(item: QuotaItem, section: UsageSection) -> bool {
    &&& item.availability is Available
    &&& item.metric == Some(QuotaMetric::Percentage(section.percentage))
    &&& item.resets_at == section.resets_at
}

fn percentage_item(id: &str, section: UsageSection) -> (r: QuotaItem)
    ensures
        r.id@ == id@,
        section_item(r, section),
{
    QuotaItem {
        id: id.to_owned(),
        label: id.to_owned(),
        availability: QuotaItemAvailability::Available,
        metric: Some(QuotaMetric::Percentage(section.percentage)),
        unit: QuotaUnit::Percent,
        resets_at: section.resets_at,
    }
}

/// The items of one provider.
#[derive(Debug)]
pub struct QuotaFamily {
    pub id: QuotaFamilyId,
    pub items: Vec<QuotaItem>,
}

/// The items of one provider, as a value.
pub struct FamilyView {
    pub id: QuotaFamilyId,
    pub items: Seq<QuotaItem>,
}

impl View for QuotaFamily {
    type V = FamilyView;

    open spec fn view(&self) -> FamilyView {
        FamilyView { id: self.id, items: self.items@ }
    }
}

impl QuotaFamily {
    /// The item with the given id.
    pub fn item(&self, id: &str) -> (r: Option<&QuotaItem>)
        ensures
            (match r {
                Some(item) => find_item(self.items@, id@) == Some(*item),
                None => find_item(self.items@, id@) is None,
            }),
    {
        item_with_id(&self.items, id)
    }
}

/// The widget's cache: the last successful data of each provider.
#[derive(Debug)]
pub struct AppUsageData {
    pub claude: Option<QuotaFamily>,
    pub codex: Option<QuotaFamily>,
    pub antigravity: Option<QuotaFamily>,
    pub github_copilot: Option<QuotaFamily>,
}

/// The value of an optional family.
pub open spec fn family_view(family: Option<QuotaFamily>) -> Option<FamilyView> {
    match family {
        Some(f) => Some(f@),
        None => None,
    }
}

/// The family that the cache holds for a provider.
pub open spec fn cached_family(data: AppUsageData, id: QuotaFamilyId) -> Option<FamilyView> {
    match id {
        QuotaFamilyId::Claude => family_view(data.claude),
        QuotaFamilyId::Codex => family_view(data.codex),
        QuotaFamilyId::Antigravity => family_view(data.antigravity),
        QuotaFamilyId::GithubCopilot => family_view(data.github_copilot),
    }
}

impl AppUsageData {
    /// Every cached family carries the id of the provider that it is cached for.
    pub open spec fn well_formed(self) -> bool {
        forall|id: QuotaFamilyId|
            (#[trigger] cached_family(self, id)) matches Some(f) ==> f.id == id
    }
}

impl Default for AppUsageData {
    fn default() -> (r: Self)
        ensures
            forall|id: QuotaFamilyId| cached_family(r, id) is None,
            r.well_formed(),
    {
        AppUsageData { claude: None, codex: None, antigravity: None, github_copilot: None }
    }
}

impl AppUsageData {
    /// The cached family of a provider.
    pub fn family(&self, id: QuotaFamilyId) -> (r: Option<&QuotaFamily>)
        ensures
            (match r {
                Some(f) => cached_family(*self, id) == Some(f@),
                None => cached_family(*self, id) is None,
            }),
    {
        match id {
            QuotaFamilyId::Claude => self.claude.as_ref(),
            QuotaFamilyId::Codex => self.codex.as_ref(),
            QuotaFamilyId::Antigravity => self.antigravity.as_ref(),
            QuotaFamilyId::GithubCopilot => self.github_copilot.as_ref(),
        }
    }

    /// Replaces the family of one provider and no other.
    pub fn upsert(&mut self, family: QuotaFamily)
        ensures
            forall|id: QuotaFamilyId|
                cached_family(*final(self), id) == if id == family.id {
                    Some(family@)
                } else {
                    cached_family(*old(self), id)
                },
            old(self).well_formed() ==> final(self).well_formed(),
    {
        match family.id {
            QuotaFamilyId::Claude => {
                self.claude = Some(family);
            },
            QuotaFamilyId::Codex => {
                self.codex = Some(family);
            },
            QuotaFamilyId::Antigravity => {
                self.antigravity = Some(family);
            },
            QuotaFamilyId::GithubCopilot => {
                self.github_copilot = Some(family);
            },
        }
        assert forall|id: QuotaFamilyId|
            old(self).well_formed() && id != family.id implies (#[trigger] cached_family(
            *self,
            id,
        )) matches Some(f) ==> f.id == id by {
            assert(cached_family(*self, id) == cached_family(*old(self), id));
        }
    }
}

// ---- what the figures mean ------------------------------------------------------------

/// The percentage of a limit, put back on the limit, is the amount to the nearest
/// millionth of a point.
pub proof fn percentage_of_a_limit_is_the_amounts_share(amount: i64, limit: i64)
    ensures
        (match percent_of(Quantity::Finite(amount), Quantity::Finite(limit)) {
            Some(Quantity::Finite(p)) => limit > 0 && (i64::MIN < p < i64::MAX ==> -limit <= 2 * (
            amount * 100_000_000 - p * limit) <= limit),
            Some(_) => false,
            None => limit <= 0,
        }),
{
    if limit > 0 {
        crate::numbers::round_half_away_is_nearest(amount * 100_000_000, limit as int);
    }
}

/// What an amount leaves of a limit makes up the limit with it; nothing is left of a limit
/// that is reached.
pub proof fn amount_and_rest_make_up_the_limit(amount: i64, limit: i64)
    requires
        limit - amount <= i64::MAX,
    ensures
        (match left_of(Quantity::Finite(limit), Quantity::Finite(amount)) {
            Quantity::Finite(left) => 0 <= left && (amount <= limit ==> amount + left == limit) && (
            amount >= limit ==> left == 0),
            _ => false,
        }),
{
}

/// Telling a quota by what is used or by what remains of the same limit gives the same
/// used share, within the rounding of either.
pub proof fn used_and_remaining_metrics_agree(item: QuotaItem, other: QuotaItem, a: i64, l: i64)
    requires
        0 <= a <= l,
        l > 0,
        item.metric == Some(
            QuotaMetric::Used { used: Quantity::Finite(a), limit: Some(Quantity::Finite(l)) },
        ),
        other.metric == Some(
            QuotaMetric::Remaining {
                remaining: Quantity::Finite((l - a) as i64),
                limit: Some(Quantity::Finite(l)),
            },
        ),
    ensures
        (match (item.used(), other.used()) {
            (Some(Quantity::Finite(p)), Some(Quantity::Finite(q))) => {
                &&& 0 <= p <= 100_000_000 && 0 <= q <= 100_000_000
                &&& -1 <= p - q <= 1
                &&& -l <= 2 * (a * 100_000_000 - p * l) <= l
                &&& -l <= 2 * (a * 100_000_000 - q * l) <= l
            },
            _ => false,
        }),
{
    let limit = l as int;
    let x = a * 100_000_000;
    let y = (l - a) * 100_000_000;
    assert(x + y == 100_000_000 * limit) by (nonlinear_arith)
        requires
            x == a * 100_000_000,
            y == (limit - a) * 100_000_000,
    ;
    crate::numbers::round_half_away_is_nearest(x, limit);
    crate::numbers::round_half_away_is_nearest(y, limit);
    let p = round_half_away(x, limit);
    let r = round_half_away(y, limit);
    assert(0 <= p <= 100_000_000 && 0 <= r <= 100_000_000 && -1 <= p - (100_000_000 - r) <= 1)
        by (nonlinear_arith)
        requires
            0 < limit,
            0 <= x,
            0 <= y,
            x + y == 100_000_000 * limit,
            -limit <= 2 * (x - p * limit) <= limit,
            -limit <= 2 * (y - r * limit) <= limit,
    ;
    assert((100_000_000 - r) * limit == 100_000_000 * limit - r * limit) by (nonlinear_arith);
}

/// A percentage is its own used share.
pub proof fn percentage_metric_is_the_used_share(item: QuotaItem, value: Quantity)
    requires
        item.metric == Some(QuotaMetric::Percentage(value)),
    ensures
        item.used() == Some(value),
{
}

/// Looking an id up gives the first item that has it, and nothing only where none has.
pub proof fn found_item_is_the_first_with_its_id(items: Seq<QuotaItem>, id: Seq<char>)
    ensures
        (match find_item(items, id) {
            Some(item) => exists|i: int|
                0 <= i < items.len() && #[trigger] items[i] == item && item.id@ == id && (forall|
                    j: int,
                |
                    0 <= j < i ==> (#[trigger] items[j]).id@ != id),
            None => forall|i: int| 0 <= i < items.len() ==> (#[trigger] items[i]).id@ != id,
        }),
    decreases items.len(),
{
    if items.len() > 0 {
        if items[0].id@ == id {
            assert(items[0] == find_item(items, id)->0);
        } else {
            let rest = items.drop_first();
            found_item_is_the_first_with_its_id(rest, id);
            match find_item(rest, id) {
                Some(item) => {
                    let i = choose|i: int|
                        0 <= i < rest.len() && #[trigger] rest[i] == item && item.id@ == id && (
                        forall|j: int| 0 <= j < i ==> (#[trigger] rest[j]).id@ != id);
                    assert(items[i + 1] == item);
                    assert forall|j: int| 0 <= j < i + 1 implies (#[trigger] items[j]).id@ != id by {
                        if j > 0 {
                            assert(items[j] == rest[j - 1]);
                        }
                    }
                },
                None => {
                    assert forall|i: int| 0 <= i < items.len() implies (#[trigger] items[i]).id@
                        != id by {
                        if i > 0 {
                            assert(items[i] == rest[i - 1]);
                        }
                    }
                },
            }
        }
    }
}

/// The ids of the three kinds of items differ.
pub proof fn item_ids_differ()
    ensures
        SESSION_ITEM_ID@ == "session"@,
        WEEKLY_ITEM_ID@ == "weekly"@,
        GITHUB_COPILOT_MONTHLY_ITEM_ID@ == "monthly"@,
        SESSION_ITEM_ID@ != WEEKLY_ITEM_ID@,
        SESSION_ITEM_ID@ != GITHUB_COPILOT_MONTHLY_ITEM_ID@,
        WEEKLY_ITEM_ID@ != GITHUB_COPILOT_MONTHLY_ITEM_ID@,
{
    reveal_strlit("session");
    reveal_strlit("weekly");
    reveal_strlit("monthly");
    assert("session"@[0] == 's' && "weekly"@[0] == 'w' && "monthly"@[0] == 'm');
}

/// A provider offers an item just where the first one with its id is not unavailable.
pub proof fn offered_items_can_be_had(items: Seq<QuotaItem>, id: Seq<char>)
    ensures
        offers(items, id) <==> exists|i: int|
            0 <= i < items.len() && (#[trigger] items[i]).id@ == id && !(
            items[i].availability is Unavailable) && forall|j: int|
                0 <= j < i ==> (#[trigger] items[j]).id@ != id,
{
    found_item_is_the_first_with_its_id(items, id);
    if find_item(items, id) is Some {
        let item = find_item(items, id)->0;
        let first = choose|i: int|
            0 <= i < items.len() && #[trigger] items[i] == item && item.id@ == id && (forall|
                j: int,
            |
                0 <= j < i ==> (#[trigger] items[j]).id@ != id);
        assert forall|i: int|
            0 <= i < items.len() && (#[trigger] items[i]).id@ == id && (forall|j: int|
                0 <= j < i ==> (#[trigger] items[j]).id@ != id) implies i == first by {
            assert(items[first].id@ == id);
        }
    }
}

} // verus!
