//! The remote endpoints: which ones there are, what is asked of them, and what
//! counts as an answer.
//!
//! Nothing here touches the network. A request is described as plain data for
//! the caller to send, and the caller reports back what came of it.

use crate::amount::Amount;
use crate::numerals::{decimal, push_decimal};
use std::collections::hash_map::DefaultHasher;
use std::hash::{Hash, Hasher};
use vstd::prelude::*;
use vstd::std_specs::hash::DefaultHasherAdditionalSpecFns;
use vstd::string::*;

verus! {

/// The only status code that counts as success.
pub const STATUS_OK: u16 = 200;

/// How many seconds a request may take in all.
pub const REQUEST_TIMEOUT_SECS: u64 = 5;

/// The address that is asked for the usage of the last days.
pub const DAILY_USAGE_URL: &'static str = "https://co.yes.vg/api/v1/user/usage/daily";

/// The name of the daily usage endpoint in diagnostic lines.
pub const DAILY_USAGE_NAME: &'static str = "daily_usage";

/// The address that is asked for the balance of the account.
pub const BALANCE_URL: &'static str = "https://co.yes.vg/api/v1/user/balance";

/// The name of the balance endpoint in diagnostic lines.
pub const BALANCE_NAME: &'static str = "balance";

/// The environment variable that switches the diagnostic lines on. It counts
/// as set whatever its value.
pub const DEBUG_VARIABLE: &'static str = "YESCODE_DEBUG";

/// One remote address, with a short name for diagnostic lines.
#[derive(Clone, Debug)]
pub struct EndpointConfig {
    pub url: String,
    pub name: String,
}

/// One header line of a request.
#[derive(Clone, Debug)]
pub struct Header {
    pub name: String,
    pub value: String,
}

/// How a request asks. The service is only ever read from.
#[derive(Clone, Copy, Debug, PartialEq, Eq, Structural)]
pub enum HttpMethod {
    Get,
}

/// A request, described for the caller to send.
#[derive(Clone, Debug)]
pub struct HttpRequest {
    pub method: HttpMethod,
    pub url: String,
    pub headers: Vec<Header>,
    pub timeout_secs: u64,
}

/// What came of a request.
#[derive(Clone, Debug)]
pub enum HttpReply<T> {
    /// No response arrived: the connection failed or the time ran out.
    Failed { error: String },
    /// A response arrived. `body` is what its body decoded to, `None` where it
    /// did not have the expected shape.
    Answered { status: u16, body: Option<T> },
}

/// Why a request yielded no data.
#[derive(Clone, Debug, PartialEq, Eq)]
pub enum FetchFailure {
    /// No response arrived: the connection failed or the time ran out.
    Network { error: String },
    /// The service answered with a status other than 200.
    Rejected { status: u16 },
    /// The service answered with status 200, but the body did not have the
    /// expected shape.
    Undecodable,
}

/// The usage of one day.
#[derive(Clone, Debug)]
pub struct DailyUsage {
    pub date: String,
    pub total_cost: Amount,
}

/// The body of a daily usage response. The service lists the newest day first.
#[derive(Clone, Debug)]
pub struct DailyUsageApiResponse {
    pub daily_usage: Vec<DailyUsage>,
}

/// The body of a balance response.
#[derive(Clone, Copy, Debug)]
pub struct BalanceApiResponse {
    pub balance: Amount,
    pub pay_as_you_go_balance: Amount,
    pub subscription_balance: Amount,
    pub total_balance: Amount,
    pub weekly_limit: Amount,
    pub weekly_spent_balance: Amount,
}

/// The names and values of a list of headers.
pub open spec fn header_texts(headers: Seq<Header>) -> Seq<(Seq<char>, Seq<char>)> {
    headers.map_values(|header: Header| (header.name@, header.value@))
}

/// The texts of a list of strings.
pub open spec fn texts(parts: Seq<String>) -> Seq<Seq<char>> {
    parts.map_values(|part: String| part@)
}

impl EndpointConfig {
    /// Whether this is the endpoint for daily usage.
    pub open spec fn is_daily_usage(self) -> bool {
        &&& self.url@ == DAILY_USAGE_URL@
        &&& self.name@ == DAILY_USAGE_NAME@
    }

    /// Whether this is the endpoint for the balance.
    pub open spec fn is_balance(self) -> bool {
        &&& self.url@ == BALANCE_URL@
        &&& self.name@ == BALANCE_NAME@
    }
}

impl HttpRequest {
    /// Whether this is the request for daily usage at `url` with the key
    /// `api_key`: a GET with the three headers below, in this order, which
    /// may take no longer than [`REQUEST_TIMEOUT_SECS`].
    pub open spec fn asks_usage(self, url: Seq<char>, api_key: Seq<char>) -> bool {
        &&& self.method == HttpMethod::Get
        &&& self.url@ == url
        &&& self.timeout_secs == REQUEST_TIMEOUT_SECS
        &&& header_texts(self.headers@) == seq![
            ("accept"@, "*/*"@),
            ("content-type"@, "application/json"@),
            ("X-API-Key"@, api_key),
        ]
    }

    /// Whether this is the request for the balance at `url` with the key
    /// `api_key`: a GET with the two headers below, in this order, which may
    /// take no longer than [`REQUEST_TIMEOUT_SECS`].
    pub open spec fn asks_balance(self, url: Seq<char>, api_key: Seq<char>) -> bool {
        &&& self.method == HttpMethod::Get
        &&& self.url@ == url
        &&& self.timeout_secs == REQUEST_TIMEOUT_SECS
        &&& header_texts(self.headers@) == seq![
            ("accept"@, "application/json"@),
            ("X-API-Key"@, api_key),
        ]
    }
}

impl<T> HttpReply<T> {
    /// What a reply comes to: the decoded body of a response with status
    /// 200, or the reason why there is none. The status is looked at before
    /// the body, so a response with another status is rejected whatever its
    /// body holds.
    pub open spec fn outcome(self) -> Result<T, FetchFailure> {
        match self {
            HttpReply::Failed { error } => Err(FetchFailure::Network { error }),
            HttpReply::Answered { status, body } => if status != STATUS_OK {
                Err(FetchFailure::Rejected { status })
            } else {
                match body {
                    Some(data) => Ok(data),
                    None => Err(FetchFailure::Undecodable),
                }
            },
        }
    }

    /// The data that a reply yields, whatever the reason where it yields none.
    pub open spec fn accepted(self) -> Option<T> {
        match self.outcome() {
            Ok(data) => Some(data),
            Err(_) => None,
        }
    }

    /// What this reply comes to: its data, or the reason why it has none.
    pub fn into_outcome(self) -> (outcome: Result<T, FetchFailure>)
        ensures
            outcome == self.outcome(),
    {
        match self {
            HttpReply::Failed { error } => Err(FetchFailure::Network { error }),
            HttpReply::Answered { status, body } => {
                if status != STATUS_OK {
                    Err(FetchFailure::Rejected { status })
                } else {
                    match body {
                        Some(data) => Ok(data),
                        None => Err(FetchFailure::Undecodable),
                    }
                }
            },
        }
    }

    /// The data that this reply yields, if any. Why a reply yields none is not
    /// told.
    pub fn accept(self) -> (data: Option<T>)
        ensures
            data == self.accepted(),
    {
        match self.into_outcome() {
            Ok(data) => Some(data),
            Err(_) => None,
        }
    }

    /// The diagnostic line that tells what came of asking the endpoint called
    /// `name`, `elapsed_ms` milliseconds after the request was sent.
    pub open spec fn report(self, name: Seq<char>, elapsed_ms: nat) -> Seq<char> {
        match self {
            HttpReply::Answered { status, .. } => if status == STATUS_OK {
                "[DEBUG] Success: "@ + name + " in "@ + decimal(elapsed_ms) + "ms"@
            } else {
                "[DEBUG] Failed: "@ + name + " status "@ + decimal(status as nat)
            },
            HttpReply::Failed { error } => "[DEBUG] Error: "@ + name + " - "@ + error@,
        }
    }
}

/// A new header.
fn header(name: &str, value: &str) -> (header: Header)
    ensures
        header.name@ == name@,
        header.value@ == value@,
{
    Header { name: name.to_owned(), value: value.to_owned() }
}

/// What feeding a text to a hasher adds to what the hasher was fed `before`.
pub uninterp spec fn text_writes(before: Seq<Seq<u8>>, text: Seq<char>) -> Seq<Seq<u8>>;

/// The hash of a key.
pub open spec fn key_hash(api_key: Seq<char>) -> u64 {
    DefaultHasher::spec_finish(text_writes(Seq::empty(), api_key))
}

/// `<str as Hash>::hash`, feeding a text to a `DefaultHasher`. What the hasher
/// has been fed afterwards depends on what it was fed before and on the text,
/// and on nothing else.
#[verifier::external_body]
fn feed(hasher: &mut DefaultHasher, text: &str)
    ensures
        final(hasher)@ == text_writes(old(hasher)@, text@),
{
    text.hash(hasher)
}

/// The catalog of endpoints and the rules for talking to them.
pub struct SmartEndpointDetector;

impl SmartEndpointDetector {
    /// The endpoint that reports the usage of the last days.
    pub fn get_daily_usage_endpoint() -> (endpoint: EndpointConfig)
        ensures
            endpoint.is_daily_usage(),
    {
        EndpointConfig {
            url: DAILY_USAGE_URL.to_owned(),
            name: DAILY_USAGE_NAME.to_owned(),
        }
    }

    /// The endpoint that reports the balance of the account.
    pub fn get_balance_endpoint() -> (endpoint: EndpointConfig)
        ensures
            endpoint.is_balance(),
    {
        EndpointConfig {
            url: BALANCE_URL.to_owned(),
            name: BALANCE_NAME.to_owned(),
        }
    }

    /// The endpoints that are asked for daily usage, in the order in which
    /// they are tried.
    pub fn usage_endpoints() -> (endpoints: Vec<EndpointConfig>)
        ensures
            endpoints@.len() == 1,
            endpoints@[0].is_daily_usage(),
    {
        let mut endpoints: Vec<EndpointConfig> = Vec::new();
        endpoints.push(Self::get_daily_usage_endpoint());
        endpoints
    }

    /// The path of the file that remembers which endpoint answered last,
    /// given as its components: below the user's configuration directory
    /// where there is one, in the working directory where there is none.
    pub fn get_cache_file_path(config_dir: Option<&str>) -> (path: Vec<String>)
        ensures
            texts(path@) == match config_dir {
                Some(dir) => seq![dir@, "ccline"@, "endpoint_cache.json"@],
                None => seq!["endpoint_cache.json"@],
            },
    {
        let mut path: Vec<String> = Vec::new();
        match config_dir {
            Some(dir) => {
                path.push(dir.to_owned());
                path.push("ccline".to_owned());
                path.push("endpoint_cache.json".to_owned());
            },
            None => {
                path.push("endpoint_cache.json".to_owned());
            },
        }
        path
    }

    /// A number that stands for the key where the key itself must not be
    /// written down. Equal keys give equal numbers.
    pub fn hash_api_key(api_key: &str) -> (hash: u64)
        ensures
            hash == key_hash(api_key@),
    {
        let mut hasher = DefaultHasher::new();
        feed(&mut hasher, api_key);
        hasher.finish()
    }

    /// The request that asks `endpoint` for the daily usage.
    pub fn daily_usage_request(endpoint: &EndpointConfig, api_key: &str) -> (request: HttpRequest)
        ensures
            request.asks_usage(endpoint.url@, api_key@),
    {
        let mut headers: Vec<Header> = Vec::new();
        headers.push(header("accept", "*/*"));
        headers.push(header("content-type", "application/json"));
        headers.push(header("X-API-Key", api_key));
        assert(header_texts(headers@) =~= seq![
            ("accept"@, "*/*"@),
            ("content-type"@, "application/json"@),
            ("X-API-Key"@, api_key@),
        ]);
        HttpRequest {
            method: HttpMethod::Get,
            url: endpoint.url.clone(),
            headers,
            timeout_secs: REQUEST_TIMEOUT_SECS,
        }
    }

    /// The request that asks `endpoint` for the balance.
    pub fn balance_request(endpoint: &EndpointConfig, api_key: &str) -> (request: HttpRequest)
        ensures
            request.asks_balance(endpoint.url@, api_key@),
    {
        let mut headers: Vec<Header> = Vec::new();
        headers.push(header("accept", "application/json"));
        headers.push(header("X-API-Key", api_key));
        assert(header_texts(headers@) =~= seq![
            ("accept"@, "application/json"@),
            ("X-API-Key"@, api_key@),
        ]);
        HttpRequest {
            method: HttpMethod::Get,
            url: endpoint.url.clone(),
            headers,
            timeout_secs: REQUEST_TIMEOUT_SECS,
        }
    }

    /// The daily usage that a reply yields. A failed request, a status other
    /// than 200 and a body of another shape all yield nothing.
    pub fn fetch_daily_usage(reply: HttpReply<DailyUsageApiResponse>) -> (usage: Option<
        DailyUsageApiResponse,
    >)
        ensures
            usage == reply.accepted(),
    {
        reply.accept()
    }

    /// The balance that a reply yields. A failed request, a status other than
    /// 200 and a body of another shape all yield nothing.
    pub fn fetch_balance(reply: HttpReply<BalanceApiResponse>) -> (balance: Option<
        BalanceApiResponse,
    >)
        ensures
            balance == reply.accepted(),
    {
        reply.accept()
    }

    /// The diagnostic line that announces a request for daily usage.
    pub fn announce_daily_usage(endpoint: &EndpointConfig) -> (line: String)
        ensures
            line@ == "[DEBUG] Fetching daily usage from: "@ + endpoint.url@,
    {
        let mut line = "[DEBUG] Fetching daily usage from: ".to_owned();
        line.append(endpoint.url.as_str());
        line
    }

    /// The diagnostic line that announces a request for the balance.
    pub fn announce_balance(endpoint: &EndpointConfig) -> (line: String)
        ensures
            line@ == "[DEBUG] Fetching balance from: "@ + endpoint.url@,
    {
        let mut line = "[DEBUG] Fetching balance from: ".to_owned();
        line.append(endpoint.url.as_str());
        line
    }

    /// The diagnostic line that tells what came of a request to `endpoint`:
    /// success with the time it took, a refusal with its status, or a failure
    /// with its error text. Whether the line is printed changes nothing about
    /// what the reply yields.
    pub fn report<T>(endpoint: &EndpointConfig, reply: &HttpReply<T>, elapsed_ms: u128) -> (line:
        String)
        ensures
            line@ == reply.report(endpoint.name@, elapsed_ms as nat),
    {
        match reply {
            HttpReply::Answered { status, .. } => {
                if *status == STATUS_OK {
                    let mut line = "[DEBUG] Success: ".to_owned();
                    line.append(endpoint.name.as_str());
                    line.append(" in ");
                    push_decimal(&mut line, elapsed_ms);
                    line.append("ms");
                    line
                } else {
                    let mut line = "[DEBUG] Failed: ".to_owned();
                    line.append(endpoint.name.as_str());
                    line.append(" status ");
                    push_decimal(&mut line, *status as u128);
                    line
                }
            },
            HttpReply::Failed { error } => {
                let mut line = "[DEBUG] Error: ".to_owned();
                line.append(endpoint.name.as_str());
                line.append(" - ");
                line.append(error.as_str());
                line
            },
        }
    }
}

/// Only a response with status 200 yields data: a request that failed or
/// ran out of time yields none, and neither does a response with another
/// status, whatever its body holds.
pub proof fn lemma_only_success_yields_data<T>(reply: HttpReply<T>)
    ensures
        reply is Failed ==> reply.accepted() is None,
        reply matches HttpReply::Answered { status, .. } ==> status != STATUS_OK
            ==> reply.accepted() is None,
        reply.accepted() matches Some(data) ==> reply == (HttpReply::Answered {
            status: STATUS_OK,
            body: Some(data),
        }),
{
}

} // verus!
