use quota_segment::amount::Amount;
use quota_segment::endpoints::{
    BalanceApiResponse, DailyUsage, DailyUsageApiResponse, EndpointConfig, FetchFailure, HttpMethod,
    HttpReply, HttpRequest, SmartEndpointDetector, BALANCE_NAME, BALANCE_URL, DAILY_USAGE_NAME,
    DAILY_USAGE_URL, DEBUG_VARIABLE, REQUEST_TIMEOUT_SECS, STATUS_OK,
};

fn header_pairs(request: &HttpRequest) -> Vec<(String, String)> {
    request.headers.iter().map(|header| (header.name.clone(), header.value.clone())).collect()
}

fn pair(name: &str, value: &str) -> (String, String) {
    (name.to_string(), value.to_string())
}

fn usage_body(cost_micros: i64) -> DailyUsageApiResponse {
    DailyUsageApiResponse {
        daily_usage: vec![DailyUsage {
            date: "2024-01-01".to_string(),
            total_cost: Amount::from_micros(cost_micros),
        }],
    }
}

fn balance_body(total_micros: i64) -> BalanceApiResponse {
    BalanceApiResponse {
        balance: Amount::from_micros(1),
        pay_as_you_go_balance: Amount::from_micros(2),
        subscription_balance: Amount::from_micros(3),
        total_balance: Amount::from_micros(total_micros),
        weekly_limit: Amount::from_micros(4),
        weekly_spent_balance: Amount::from_micros(5),
    }
}

fn endpoint(name: &str) -> EndpointConfig {
    EndpointConfig { url: format!("https://example.test/{}", name), name: name.to_string() }
}

#[test]
fn fixed_settings() {
    assert_eq!(STATUS_OK, 200);
    assert_eq!(REQUEST_TIMEOUT_SECS, 5);
    assert_eq!(DEBUG_VARIABLE, "YESCODE_DEBUG");
    assert_eq!(DAILY_USAGE_URL, "https://co.yes.vg/api/v1/user/usage/daily");
    assert_eq!(DAILY_USAGE_NAME, "daily_usage");
    assert_eq!(BALANCE_URL, "https://co.yes.vg/api/v1/user/balance");
    assert_eq!(BALANCE_NAME, "balance");
}

#[test]
fn catalog_of_endpoints() {
    let usage = SmartEndpointDetector::get_daily_usage_endpoint();
    assert_eq!(usage.url, "https://co.yes.vg/api/v1/user/usage/daily");
    assert_eq!(usage.name, "daily_usage");
    let balance = SmartEndpointDetector::get_balance_endpoint();
    assert_eq!(balance.url, "https://co.yes.vg/api/v1/user/balance");
    assert_eq!(balance.name, "balance");
    let list = SmartEndpointDetector::usage_endpoints();
    assert_eq!(list.len(), 1);
    assert_eq!(list[0].url, usage.url);
    assert_eq!(list[0].name, usage.name);
}

#[test]
fn daily_usage_request_headers() {
    let request = SmartEndpointDetector::daily_usage_request(&endpoint("usage"), "secret-key");
    assert_eq!(request.method, HttpMethod::Get);
    assert_eq!(request.url, "https://example.test/usage");
    assert_eq!(request.timeout_secs, 5);
    assert_eq!(
        header_pairs(&request),
        vec![
            pair("accept", "*/*"),
            pair("content-type", "application/json"),
            pair("X-API-Key", "secret-key"),
        ]
    );
}

#[test]
fn balance_request_headers() {
    let request = SmartEndpointDetector::balance_request(&endpoint("balance"), "secret-key");
    assert_eq!(request.method, HttpMethod::Get);
    assert_eq!(request.url, "https://example.test/balance");
    assert_eq!(request.timeout_secs, 5);
    assert_eq!(
        header_pairs(&request),
        vec![pair("accept", "application/json"), pair("X-API-Key", "secret-key")]
    );
}

#[test]
fn the_key_is_sent_verbatim() {
    let request = SmartEndpointDetector::balance_request(&endpoint("balance"), " k e y ");
    assert_eq!(header_pairs(&request)[1], pair("X-API-Key", " k e y "));
}

#[test]
fn status_200_with_a_body_yields_the_body() {
    let reply = HttpReply::Answered { status: 200, body: Some(usage_body(1_500_000)) };
    let usage = SmartEndpointDetector::fetch_daily_usage(reply).expect("data");
    assert_eq!(usage.daily_usage.len(), 1);
    assert_eq!(usage.daily_usage[0].date, "2024-01-01");
    assert_eq!(usage.daily_usage[0].total_cost, Amount::from_micros(1_500_000));

    let reply = HttpReply::Answered { status: 200, body: Some(balance_body(50_000_000)) };
    let balance = SmartEndpointDetector::fetch_balance(reply).expect("data");
    assert_eq!(balance.total_balance, Amount::from_micros(50_000_000));
    assert_eq!(balance.weekly_spent_balance, Amount::from_micros(5));
}

#[test]
fn any_other_status_yields_nothing_whatever_the_body() {
    for status in [0u16, 100, 199, 201, 204, 301, 400, 401, 404, 429, 500, 503, u16::MAX] {
        let reply = HttpReply::Answered { status, body: Some(usage_body(1)) };
        assert!(SmartEndpointDetector::fetch_daily_usage(reply).is_none());
        let reply = HttpReply::Answered { status, body: Some(balance_body(1)) };
        assert!(SmartEndpointDetector::fetch_balance(reply).is_none());
        let reply: HttpReply<BalanceApiResponse> = HttpReply::Answered { status, body: None };
        assert!(reply.accept().is_none());
    }
}

#[test]
fn failed_requests_yield_nothing() {
    let reply: HttpReply<DailyUsageApiResponse> =
        HttpReply::Failed { error: "timed out reading response".to_string() };
    assert!(SmartEndpointDetector::fetch_daily_usage(reply).is_none());
    let reply: HttpReply<BalanceApiResponse> =
        HttpReply::Failed { error: "connection refused".to_string() };
    assert!(SmartEndpointDetector::fetch_balance(reply).is_none());
}

#[test]
fn undecodable_body_yields_nothing() {
    let reply: HttpReply<DailyUsageApiResponse> = HttpReply::Answered { status: 200, body: None };
    assert!(SmartEndpointDetector::fetch_daily_usage(reply).is_none());
    let reply: HttpReply<BalanceApiResponse> = HttpReply::Answered { status: 200, body: None };
    assert!(SmartEndpointDetector::fetch_balance(reply).is_none());
}

#[test]
fn every_failure_has_its_reason() {
    let failed: HttpReply<BalanceApiResponse> =
        HttpReply::Failed { error: "timed out".to_string() };
    assert_eq!(
        failed.into_outcome().err(),
        Some(FetchFailure::Network { error: "timed out".to_string() })
    );
    let rejected = HttpReply::Answered { status: 403, body: Some(balance_body(1)) };
    assert_eq!(rejected.into_outcome().err(), Some(FetchFailure::Rejected { status: 403 }));
    let rejected: HttpReply<BalanceApiResponse> = HttpReply::Answered { status: 204, body: None };
    assert_eq!(rejected.into_outcome().err(), Some(FetchFailure::Rejected { status: 204 }));
    let undecodable: HttpReply<BalanceApiResponse> =
        HttpReply::Answered { status: 200, body: None };
    assert_eq!(undecodable.into_outcome().err(), Some(FetchFailure::Undecodable));
    let fine = HttpReply::Answered { status: 200, body: Some(balance_body(9)) };
    assert_eq!(
        fine.into_outcome().map(|balance| balance.total_balance),
        Ok(Amount::from_micros(9))
    );
}

#[test]
fn announcements() {
    assert_eq!(
        SmartEndpointDetector::announce_daily_usage(
            &SmartEndpointDetector::get_daily_usage_endpoint()
        ),
        "[DEBUG] Fetching daily usage from: https://co.yes.vg/api/v1/user/usage/daily"
    );
    assert_eq!(
        SmartEndpointDetector::announce_balance(&SmartEndpointDetector::get_balance_endpoint()),
        "[DEBUG] Fetching balance from: https://co.yes.vg/api/v1/user/balance"
    );
}

#[test]
fn reports_of_what_came_back() {
    let usage = SmartEndpointDetector::get_daily_usage_endpoint();
    let balance = SmartEndpointDetector::get_balance_endpoint();

    let ok = HttpReply::Answered { status: 200, body: Some(usage_body(1)) };
    assert_eq!(SmartEndpointDetector::report(&usage, &ok, 137), "[DEBUG] Success: daily_usage in 137ms");

    let undecoded: HttpReply<BalanceApiResponse> = HttpReply::Answered { status: 200, body: None };
    assert_eq!(SmartEndpointDetector::report(&balance, &undecoded, 0), "[DEBUG] Success: balance in 0ms");

    let refused: HttpReply<BalanceApiResponse> = HttpReply::Answered { status: 404, body: None };
    assert_eq!(SmartEndpointDetector::report(&balance, &refused, 20), "[DEBUG] Failed: balance status 404");

    let failed: HttpReply<DailyUsageApiResponse> =
        HttpReply::Failed { error: "Network Error: timed out".to_string() };
    assert_eq!(
        SmartEndpointDetector::report(&usage, &failed, 5000),
        "[DEBUG] Error: daily_usage - Network Error: timed out"
    );
}

#[test]
fn report_of_a_very_long_wait() {
    let ok: HttpReply<BalanceApiResponse> = HttpReply::Answered { status: 200, body: None };
    assert_eq!(
        SmartEndpointDetector::report(&endpoint("e"), &ok, u128::MAX),
        "[DEBUG] Success: e in 340282366920938463463374607431768211455ms"
    );
}

#[test]
fn reporting_does_not_change_what_a_reply_yields() {
    let reply = HttpReply::Answered { status: 200, body: Some(balance_body(7)) };
    let _ = SmartEndpointDetector::report(&endpoint("balance"), &reply, 1);
    assert_eq!(
        SmartEndpointDetector::fetch_balance(reply).map(|b| b.total_balance),
        Some(Amount::from_micros(7))
    );
}

#[test]
fn hash_of_a_key() {
    let first = SmartEndpointDetector::hash_api_key("sk-one");
    assert_eq!(first, SmartEndpointDetector::hash_api_key("sk-one"));
    assert_ne!(first, SmartEndpointDetector::hash_api_key("sk-two"));
    assert_ne!(first, SmartEndpointDetector::hash_api_key(""));
    assert_ne!(
        SmartEndpointDetector::hash_api_key("ab"),
        SmartEndpointDetector::hash_api_key("ba")
    );
}

#[test]
fn cache_file_path() {
    assert_eq!(
        SmartEndpointDetector::get_cache_file_path(Some("/home/user/.config")),
        vec!["/home/user/.config", "ccline", "endpoint_cache.json"]
    );
    assert_eq!(SmartEndpointDetector::get_cache_file_path(None), vec!["endpoint_cache.json"]);
}
