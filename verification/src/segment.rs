//! The quota segment: what it is called, and what it shows once the usage and
//! the balance have been asked for.
//!
//! The segment shows two short strings. The first tells what was spent today
//! ("Used:$1.23"), the second what is left on the account ("Left:$50.00").
//! Where only one of the two figures could be had, the other string says that
//! it is unknown; where neither could be had, both strings read "Offline".
//! A usage response without any day in it counts as known usage of nothing:
//! the first string is then "Used:$0.00".

use crate::amount::{lemma_zero_renderings, Amount};
use crate::endpoints::{BalanceApiResponse, DailyUsageApiResponse};
use crate::metadata::Metadata;
use vstd::prelude::*;
use vstd::string::*;

verus! {

/// The names by which the statusline tells its segments apart.
#[derive(Clone, Copy, Debug, PartialEq, Eq, Structural)]
pub enum SegmentId {
    Quota,
}

/// The segment that reports today's spending and the balance that is left.
/// It holds no state: every collection starts from nothing.
#[derive(Clone, Copy, Debug)]
pub struct QuotaSegment;

/// What a segment hands to the statusline.
#[derive(Debug)]
pub struct SegmentData {
    pub primary: String,
    pub secondary: String,
    pub metadata: Metadata,
}

/// A usage response together with the address of the endpoint that gave it.
#[derive(Clone, Debug)]
pub struct UsageFinding {
    pub endpoint_url: String,
    pub response: DailyUsageApiResponse,
}

impl DailyUsageApiResponse {
    /// Whether the response reports any day at all.
    pub open spec fn has_data(self) -> bool {
        self.daily_usage@.len() > 0
    }

    /// What was spent today: the cost of the first day reported, and nothing
    /// where no day is reported.
    pub open spec fn today_cost(self) -> Amount {
        if self.has_data() {
            self.daily_usage@[0].total_cost
        } else {
            Amount { micros: 0 }
        }
    }
}

/// The string that shows what was spent today.
pub open spec fn used_text(cost: Amount) -> Seq<char> {
    "Used:$"@ + cost.fixed2()
}

/// The string that shows what is left on the account.
pub open spec fn left_text(balance: Amount) -> Seq<char> {
    "Left:$"@ + balance.fixed2()
}

/// The string that shows today's spending beside the total balance.
pub open spec fn used_total_text(daily_used: Amount, total: Amount) -> Seq<char> {
    "$"@ + daily_used.fixed2() + "/$"@ + total.fixed2()
}

/// The string that shows this week's spending beside the weekly limit.
pub open spec fn week_text(weekly_used: Amount, limit: Amount) -> Seq<char> {
    "Week: $"@ + weekly_used.fixed2() + "/$"@ + limit.fixed0()
}

/// The first string of the segment.
pub open spec fn primary_text(usage: Option<UsageFinding>, balance: Option<BalanceApiResponse>) -> Seq<
    char,
> {
    match usage {
        Some(finding) => if finding.response.has_data() {
            used_text(finding.response.today_cost())
        } else {
            "Used:$0.00"@
        },
        None => if balance is Some {
            "Usage Unknown"@
        } else {
            "Offline"@
        },
    }
}

/// The second string of the segment.
pub open spec fn secondary_text(
    usage: Option<UsageFinding>,
    balance: Option<BalanceApiResponse>,
) -> Seq<char> {
    match balance {
        Some(balance) => left_text(balance.total_balance),
        None => if usage is Some {
            "Balance Unknown"@
        } else {
            "Offline"@
        },
    }
}

/// What the metadata records of the usage.
pub open spec fn usage_notes(usage: Option<UsageFinding>) -> Map<Seq<char>, Seq<char>> {
    match usage {
        Some(finding) => {
            let notes = Map::<Seq<char>, Seq<char>>::empty().insert(
                "usage_endpoint"@,
                finding.endpoint_url@,
            );
            if finding.response.has_data() {
                notes.insert("raw_spent"@, finding.response.today_cost().plain())
            } else {
                notes.insert("status"@, "no_data_today"@)
            }
        },
        None => Map::empty(),
    }
}

/// The metadata of the segment. It always tells how the collection ended:
/// by `status`, or by the raw figure of what could be had.
pub open spec fn notes(usage: Option<UsageFinding>, balance: Option<BalanceApiResponse>) -> Map<
    Seq<char>,
    Seq<char>,
> {
    match balance {
        Some(balance) => usage_notes(usage).insert("raw_balance"@, balance.total_balance.plain()),
        None => if usage is Some {
            usage_notes(usage)
        } else {
            Map::<Seq<char>, Seq<char>>::empty().insert("status"@, "offline"@)
        },
    }
}

impl QuotaSegment {
    /// A new segment.
    pub fn new() -> (segment: Self)
        ensures
            segment == QuotaSegment,
    {
        QuotaSegment
    }

    /// The name of this segment.
    pub fn id(&self) -> (id: SegmentId)
        ensures
            id == SegmentId::Quota,
    {
        SegmentId::Quota
    }

    /// What was spent today according to a usage response.
    pub fn get_today_cost(&self, response: &DailyUsageApiResponse) -> (cost: Amount)
        ensures
            cost == response.today_cost(),
    {
        if response.daily_usage.len() > 0 {
            response.daily_usage[0].total_cost
        } else {
            Amount::zero()
        }
    }

    /// "Used:$" and the cost with two decimals.
    pub fn format_used(&self, cost: Amount) -> (text: String)
        ensures
            text@ == used_text(cost),
    {
        let mut text = "Used:$".to_owned();
        text.append(cost.to_fixed2().as_str());
        text
    }

    /// "Left:$" and the balance with two decimals.
    pub fn format_left(&self, balance: Amount) -> (text: String)
        ensures
            text@ == left_text(balance),
    {
        let mut text = "Left:$".to_owned();
        text.append(balance.to_fixed2().as_str());
        text
    }

    /// Today's spending and the total balance in one string, both with two
    /// decimals, as in "$1.23/$50.00". [`QuotaSegment::collect`] shows the two
    /// figures apart; this is for a statusline that wants them together.
    pub fn format_daily_used_total(&self, daily_used: Amount, total: Amount) -> (text: String)
        ensures
            text@ == used_total_text(daily_used, total),
    {
        let mut text = "$".to_owned();
        text.append(daily_used.to_fixed2().as_str());
        text.append("/$");
        text.append(total.to_fixed2().as_str());
        text
    }

    /// This week's spending with two decimals and the weekly limit without
    /// any, as in "Week: $12.00/$100". [`QuotaSegment::collect`] does not show
    /// the week; this is for a statusline that does.
    pub fn format_week_limit(&self, weekly_used: Amount, limit: Amount) -> (text: String)
        ensures
            text@ == week_text(weekly_used, limit),
    {
        let mut text = "Week: $".to_owned();
        text.append(weekly_used.to_fixed2().as_str());
        text.append("/$");
        text.append(limit.to_fixed0().as_str());
        text
    }

    /// What the segment shows once both queries are over: `usage` is what the
    /// usage endpoints yielded, `balance` what the balance endpoint yielded,
    /// `None` where nothing could be had.
    pub fn collect(&self, usage: Option<UsageFinding>, balance: Option<BalanceApiResponse>) -> (data:
        SegmentData)
        ensures
            data.primary@ == primary_text(usage, balance),
            data.secondary@ == secondary_text(usage, balance),
            data.metadata@ == notes(usage, balance),
    {
        let mut metadata = Metadata::new();
        let primary = match &usage {
            Some(finding) => {
                metadata.insert("usage_endpoint".to_owned(), finding.endpoint_url.clone());
                if finding.response.daily_usage.len() > 0 {
                    let cost = self.get_today_cost(&finding.response);
                    metadata.insert("raw_spent".to_owned(), cost.to_plain());
                    self.format_used(cost)
                } else {
                    metadata.insert("status".to_owned(), "no_data_today".to_owned());
                    "Used:$0.00".to_owned()
                }
            },
            None => {
                if balance.is_some() {
                    "Usage Unknown".to_owned()
                } else {
                    metadata.insert("status".to_owned(), "offline".to_owned());
                    "Offline".to_owned()
                }
            },
        };
        let secondary = match &balance {
            Some(balance) => {
                metadata.insert("raw_balance".to_owned(), balance.total_balance.to_plain());
                self.format_left(balance.total_balance)
            },
            None => {
                if usage.is_some() {
                    "Balance Unknown".to_owned()
                } else {
                    "Offline".to_owned()
                }
            },
        };
        SegmentData { primary, secondary, metadata }
    }
}

impl Default for QuotaSegment {
    fn default() -> (segment: Self)
        ensures
            segment == QuotaSegment,
    {
        QuotaSegment
    }
}

/// Nothing spent shows as "Used:$0.00", and so does a usage response that
/// reports no day at all.
pub proof fn lemma_no_data_shows_zero(usage: UsageFinding, balance: Option<BalanceApiResponse>)
    requires
        !usage.response.has_data(),
    ensures
        usage.response.today_cost() == (Amount { micros: 0 }),
        used_text(Amount { micros: 0 }) == "Used:$0.00"@,
        primary_text(Some(usage), balance) == "Used:$0.00"@,
        notes(Some(usage), balance).contains_pair("status"@, "no_data_today"@),
{
    lemma_zero_renderings();
    lemma_keys_differ();
    reveal_strlit("0.00");
    reveal_strlit("Used:$");
    reveal_strlit("Used:$0.00");
    assert(used_text(Amount { micros: 0 }) =~= "Used:$0.00"@);
}

/// The keys of the metadata are four different texts, and so are the two
/// values of `status`.
pub proof fn lemma_keys_differ()
    ensures
        "status"@ != "raw_spent"@,
        "status"@ != "raw_balance"@,
        "status"@ != "usage_endpoint"@,
        "raw_spent"@ != "raw_balance"@,
        "raw_spent"@ != "usage_endpoint"@,
        "raw_balance"@ != "usage_endpoint"@,
        "offline"@ != "no_data_today"@,
{
    reveal_strlit("status");
    reveal_strlit("raw_spent");
    reveal_strlit("raw_balance");
    reveal_strlit("usage_endpoint");
    reveal_strlit("offline");
    reveal_strlit("no_data_today");
    assert("status"@.len() == 6);
    assert("raw_spent"@.len() == 9);
    assert("raw_balance"@.len() == 11);
    assert("usage_endpoint"@.len() == 14);
    assert("offline"@.len() == 7);
    assert("no_data_today"@.len() == 13);
}

/// The metadata always tells how the collection ended: it holds `status`, or
/// the raw figure of the usage, or that of the balance. `status` is "offline"
/// exactly when neither the usage nor the balance could be had.
pub proof fn lemma_outcome_recorded(usage: Option<UsageFinding>, balance: Option<BalanceApiResponse>)
    ensures
        notes(usage, balance).contains_key("status"@) || notes(usage, balance).contains_key(
            "raw_spent"@,
        ) || notes(usage, balance).contains_key("raw_balance"@),
        notes(usage, balance).contains_pair("status"@, "offline"@) <==> usage is None
            && balance is None,
        notes(usage, balance).contains_pair("status"@, "no_data_today"@) <==> (usage matches Some(
            finding,
        ) && !finding.response.has_data()),
{
    lemma_keys_differ();
}

/// What the metadata holds of the figures: the usage that was found is there
/// in full under `raw_spent`, beside the address of the endpoint that gave it,
/// and the balance that was found is there in full under `raw_balance`.
/// A figure that could not be had has no entry.
pub proof fn lemma_figures_recorded(usage: Option<UsageFinding>, balance: Option<BalanceApiResponse>)
    ensures
        usage matches Some(finding) ==> notes(usage, balance).contains_pair(
            "usage_endpoint"@,
            finding.endpoint_url@,
        ),
        usage matches Some(finding) ==> finding.response.has_data() ==> notes(
            usage,
            balance,
        ).contains_pair("raw_spent"@, finding.response.today_cost().plain()),
        balance matches Some(found) ==> notes(usage, balance).contains_pair(
            "raw_balance"@,
            found.total_balance.plain(),
        ),
        usage is None ==> !notes(usage, balance).contains_key("raw_spent"@) && !notes(
            usage,
            balance,
        ).contains_key("usage_endpoint"@),
        balance is None ==> !notes(usage, balance).contains_key("raw_balance"@),
{
    lemma_keys_differ();
}

/// The two strings read "Offline" together or not at all, and they do so
/// exactly when neither the usage nor the balance could be had.
pub proof fn lemma_offline_together(usage: Option<UsageFinding>, balance: Option<BalanceApiResponse>)
    ensures
        primary_text(usage, balance) == "Offline"@ <==> usage is None && balance is None,
        secondary_text(usage, balance) == "Offline"@ <==> usage is None && balance is None,
{
    reveal_strlit("Offline");
    reveal_strlit("Used:$");
    reveal_strlit("Left:$");
    reveal_strlit("Used:$0.00");
    reveal_strlit("Usage Unknown");
    reveal_strlit("Balance Unknown");
    assert("Offline"@[0] == 'O');
    assert("Used:$0.00"@[0] == 'U');
    assert("Usage Unknown"@[0] == 'U');
    assert("Balance Unknown"@[0] == 'B');
    if let Some(finding) = usage {
        assert(used_text(finding.response.today_cost())[0] == 'U');
    }
    if let Some(found) = balance {
        assert(left_text(found.total_balance)[0] == 'L');
    }
}

} // verus!
