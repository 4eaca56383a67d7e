//! One collection, step by step.
//!
//! A collection asks the usage endpoints one after the other until one of them
//! yields data, then asks the balance endpoint once, and then shows what it
//! has. The steps are taken here; sending a request and waiting for its reply
//! is left to the caller, who hands each reply back:
//!
//! 1. [`QuotaSegment::begin`] resolves the key. Without a key there is nothing
//!    to collect.
//! 2. While the [`Detection`] is `Pending`, the caller sends
//!    [`UsageDetector::request`] and hands the reply to
//!    [`UsageDetector::advance`].
//! 3. Once it is `Settled`, the caller sends [`BalanceQuery::request`] and
//!    hands the reply to [`BalanceQuery::finish`], which gives the result.

use crate::credentials::CredentialSources;
use crate::endpoints::{
    BalanceApiResponse, DailyUsageApiResponse, EndpointConfig, HttpReply, HttpRequest,
    SmartEndpointDetector, BALANCE_URL,
};
use crate::segment::{notes, primary_text, secondary_text, QuotaSegment, SegmentData, UsageFinding};
use vstd::prelude::*;

verus! {

/// The search for a usage endpoint that answers, while it is under way.
#[derive(Debug)]
pub struct UsageDetector {
    /// The key that every request carries.
    pub api_key: String,
    /// The endpoint that is asked next.
    pub current: EndpointConfig,
    /// The endpoints that are asked after it, in their order.
    pub later: Vec<EndpointConfig>,
}

/// The query for the balance, which follows the search for usage.
#[derive(Debug)]
pub struct BalanceQuery {
    /// The key that the request carries.
    pub api_key: String,
    /// What the search for usage yielded.
    pub usage: Option<UsageFinding>,
}

/// Where the search for usage stands.
#[derive(Debug)]
pub enum Detection {
    /// An endpoint is still to be asked.
    Pending(UsageDetector),
    /// The search is over; the balance is asked next.
    Settled(BalanceQuery),
}

/// Where a search stands, told without the key: either the endpoints that are
/// still to be asked, or what was found.
pub enum Progress {
    Asking(Seq<EndpointConfig>),
    Found(Option<UsageFinding>),
}

/// Where a search over `candidates` starts.
pub open spec fn start_of(candidates: Seq<EndpointConfig>) -> Progress {
    if candidates.len() == 0 {
        Progress::Found(None)
    } else {
        Progress::Asking(candidates)
    }
}

/// One step of a search: `reply` is what the first of `candidates` answered.
/// Data ends the search, and the finding names that endpoint; without data the
/// search goes on with the other candidates, and ends without a finding when
/// there are none.
pub open spec fn step(candidates: Seq<EndpointConfig>, reply: HttpReply<DailyUsageApiResponse>) -> Progress
    recommends
        candidates.len() > 0,
{
    match reply.accepted() {
        Some(response) => Progress::Found(
            Some(UsageFinding { endpoint_url: candidates[0].url, response }),
        ),
        None => start_of(candidates.drop_first()),
    }
}

/// A whole search: `replies[i]` is what `candidates[i]` answers if it is
/// asked. The search stops at the first reply with data, or when either list
/// is used up.
pub open spec fn run(
    candidates: Seq<EndpointConfig>,
    replies: Seq<HttpReply<DailyUsageApiResponse>>,
) -> Progress
    decreases replies.len(),
{
    if candidates.len() == 0 || replies.len() == 0 {
        start_of(candidates)
    } else {
        match step(candidates, replies[0]) {
            Progress::Found(finding) => Progress::Found(finding),
            Progress::Asking(rest) => run(rest, replies.drop_first()),
        }
    }
}

/// How many requests a whole search sends, with `replies[i]` being what
/// `candidates[i]` answers if it is asked.
pub open spec fn asked(
    candidates: Seq<EndpointConfig>,
    replies: Seq<HttpReply<DailyUsageApiResponse>>,
) -> nat
    decreases replies.len(),
{
    if candidates.len() == 0 || replies.len() == 0 {
        0
    } else {
        match step(candidates, replies[0]) {
            Progress::Found(_) => 1,
            Progress::Asking(rest) => 1 + asked(rest, replies.drop_first()),
        }
    }
}

impl UsageDetector {
    /// The endpoints that are still to be asked, the next one first.
    pub open spec fn candidates(self) -> Seq<EndpointConfig> {
        seq![self.current] + self.later@
    }

    /// Starts a search over `endpoints`, which are asked in their order.
    pub fn start(api_key: String, endpoints: Vec<EndpointConfig>) -> (detection: Detection)
        ensures
            detection.progress() == start_of(endpoints@),
            detection.api_key() == api_key,
    {
        let mut later = endpoints;
        if later.len() == 0 {
            Detection::Settled(BalanceQuery { api_key, usage: None })
        } else {
            let current = later.remove(0);
            let detector = UsageDetector { api_key, current, later };
            assert(detector.candidates() =~= endpoints@);
            Detection::Pending(detector)
        }
    }

    /// The request to send next.
    pub fn request(&self) -> (request: HttpRequest)
        ensures
            request.asks_usage(self.current.url@, self.api_key@),
    {
        SmartEndpointDetector::daily_usage_request(&self.current, self.api_key.as_str())
    }

    /// Takes the reply to the last request and tells how the search goes on.
    pub fn advance(self, reply: HttpReply<DailyUsageApiResponse>) -> (detection: Detection)
        ensures
            detection.progress() == step(self.candidates(), reply),
            detection.api_key() == self.api_key,
    {
        let ghost candidates = self.candidates();
        let UsageDetector { api_key, current, later } = self;
        match SmartEndpointDetector::fetch_daily_usage(reply) {
            Some(response) => Detection::Settled(
                BalanceQuery {
                    api_key,
                    usage: Some(UsageFinding { endpoint_url: current.url, response }),
                },
            ),
            None => {
                assert(candidates.drop_first() =~= later@);
                Self::start(api_key, later)
            },
        }
    }
}

impl Detection {
    /// Where the search stands.
    pub open spec fn progress(self) -> Progress {
        match self {
            Detection::Pending(detector) => Progress::Asking(detector.candidates()),
            Detection::Settled(query) => Progress::Found(query.usage),
        }
    }

    /// The key that the collection uses.
    pub open spec fn api_key(self) -> String {
        match self {
            Detection::Pending(detector) => detector.api_key,
            Detection::Settled(query) => query.api_key,
        }
    }
}

impl BalanceQuery {
    /// The request to send.
    pub fn request(&self) -> (request: HttpRequest)
        ensures
            request.asks_balance(BALANCE_URL@, self.api_key@),
    {
        let endpoint = SmartEndpointDetector::get_balance_endpoint();
        SmartEndpointDetector::balance_request(&endpoint, self.api_key.as_str())
    }

    /// Takes the reply to the balance request and gives what the segment
    /// shows.
    pub fn finish(self, reply: HttpReply<BalanceApiResponse>) -> (data: SegmentData)
        ensures
            data.primary@ == primary_text(self.usage, reply.accepted()),
            data.secondary@ == secondary_text(self.usage, reply.accepted()),
            data.metadata@ == notes(self.usage, reply.accepted()),
    {
        let balance = SmartEndpointDetector::fetch_balance(reply);
        QuotaSegment::new().collect(self.usage, balance)
    }
}

impl QuotaSegment {
    /// Begins a collection: resolves the key and starts the search for usage
    /// over the known endpoints. Without a key the segment shows nothing, and
    /// nothing is asked.
    pub fn begin(&self, sources: &CredentialSources) -> (detection: Option<Detection>)
        ensures
            sources.resolved() is None <==> detection is None,
            detection matches Some(detection) ==> {
                &&& sources.resolved() == Some(detection.api_key()@)
                &&& detection.progress() matches Progress::Asking(candidates)
                &&& candidates.len() == 1
                &&& candidates[0].is_daily_usage()
            },
    {
        match self.load_api_key(sources) {
            Some(api_key) => Some(
                UsageDetector::start(api_key, SmartEndpointDetector::usage_endpoints()),
            ),
            None => None,
        }
    }
}

/// The first endpoint that yields data wins: if `replies[winner]` has data and
/// no reply before it has, the search ends with the data of `replies[winner]`
/// and the address of `candidates[winner]`, whatever the later endpoints would
/// have answered.
pub proof fn lemma_first_success_wins(
    candidates: Seq<EndpointConfig>,
    replies: Seq<HttpReply<DailyUsageApiResponse>>,
    winner: int,
)
    requires
        0 <= winner < candidates.len(),
        winner < replies.len(),
        replies[winner].accepted() is Some,
        forall|i: int| 0 <= i < winner ==> (#[trigger] replies[i]).accepted() is None,
    ensures
        run(candidates, replies) == Progress::Found(
            Some(
                UsageFinding {
                    endpoint_url: candidates[winner].url,
                    response: replies[winner].accepted()->0,
                },
            ),
        ),
        asked(candidates, replies) == winner + 1,
    decreases winner,
{
    if winner > 0 {
        let rest = candidates.drop_first();
        let later = replies.drop_first();
        assert(replies[0].accepted() is None);
        assert forall|i: int| 0 <= i < winner - 1 implies (#[trigger] later[i]).accepted() is None by {
            assert(later[i] == replies[i + 1]);
        }
        assert(later[winner - 1] == replies[winner]);
        assert(rest[winner - 1] == candidates[winner]);
        lemma_first_success_wins(rest, later, winner - 1);
    }
}

/// Every step leaves one endpoint fewer to ask, so a search sends no more
/// requests than there are endpoints.
pub proof fn lemma_search_is_bounded(
    candidates: Seq<EndpointConfig>,
    replies: Seq<HttpReply<DailyUsageApiResponse>>,
)
    ensures
        asked(candidates, replies) <= candidates.len(),
        candidates.len() > 0 && replies.len() > 0 ==> (step(candidates, replies[0]) matches Progress::Asking(
            rest,
        ) ==> rest == candidates.drop_first()),
    decreases replies.len(),
{
    if candidates.len() > 0 && replies.len() > 0 {
        lemma_search_is_bounded(candidates.drop_first(), replies.drop_first());
    }
}

/// A search in which every endpoint is asked and none yields data ends without
/// a finding.
pub proof fn lemma_no_success_no_finding(
    candidates: Seq<EndpointConfig>,
    replies: Seq<HttpReply<DailyUsageApiResponse>>,
)
    requires
        candidates.len() <= replies.len(),
        forall|i: int| 0 <= i < candidates.len() ==> (#[trigger] replies[i]).accepted() is None,
    ensures
        run(candidates, replies) == Progress::Found(None),
    decreases candidates.len(),
{
    if candidates.len() > 0 {
        let rest = candidates.drop_first();
        let later = replies.drop_first();
        assert(replies[0].accepted() is None);
        assert forall|i: int| 0 <= i < rest.len() implies (#[trigger] later[i]).accepted() is None by {
            assert(later[i] == replies[i + 1]);
        }
        lemma_no_success_no_finding(rest, later);
    }
}

/// What a search finds depends on the replies up to the first one with data
/// and on nothing after it: two lists of replies that agree up to there end
/// the search alike.
pub proof fn lemma_later_replies_ignored(
    candidates: Seq<EndpointConfig>,
    replies: Seq<HttpReply<DailyUsageApiResponse>>,
    others: Seq<HttpReply<DailyUsageApiResponse>>,
    winner: int,
)
    requires
        0 <= winner < candidates.len(),
        winner < replies.len(),
        winner < others.len(),
        replies[winner].accepted() is Some,
        forall|i: int| 0 <= i < winner ==> (#[trigger] replies[i]).accepted() is None,
        forall|i: int| 0 <= i <= winner ==> #[trigger] replies[i] == others[i],
    ensures
        run(candidates, replies) == run(candidates, others),
{
    assert(others[winner] == replies[winner]);
    assert forall|i: int| 0 <= i < winner implies (#[trigger] others[i]).accepted() is None by {
        assert(replies[i] == others[i]);
    }
    lemma_first_success_wins(candidates, replies, winner);
    lemma_first_success_wins(candidates, others, winner);
}

} // verus!
