use rss_gobbler::fetch::fetch_over;
use rss_gobbler::fetch::FetchError;
use rss_gobbler::fetch::LocationHeader;
use rss_gobbler::fetch::ScriptedResponse;

fn reply(status: u16, location: LocationHeader) -> ScriptedResponse {
    ScriptedResponse::Reply { status, location }
}

fn redirect_to(status: u16, url: &str) -> ScriptedResponse {
    reply(status, LocationHeader::Value(String::from(url)))
}

fn ok_reply() -> ScriptedResponse {
    reply(200, LocationHeader::Missing)
}

#[test]
fn test_two_redirects_then_success_within_budget() {
    // 301 -> 301 -> 200 within a 10-hop budget: the fetch succeeds, the URL
    // of the final request is the last Location value, and exactly three
    // requests are made.
    let mut responses = vec![
        redirect_to(301, "https://b.example.com/1"),
        redirect_to(301, "https://c.example.com/2"),
        ok_reply(),
    ];
    while responses.len() < 10 {
        responses.push(ok_reply());
    }
    let (outcome, requests) = fetch_over(String::from("https://a.example.com/0"), 10, &responses);
    assert_eq!(outcome.unwrap(), "https://c.example.com/2");
    assert_eq!(requests, 3);
}

#[test]
fn test_success_on_the_last_allowed_hop() {
    // The budget allows exactly as many requests as the chain needs: the
    // last request may still succeed.
    let responses = vec![
        redirect_to(301, "https://b.example.com/1"),
        redirect_to(301, "https://c.example.com/2"),
        ok_reply(),
    ];
    let (outcome, requests) = fetch_over(String::from("https://a.example.com/0"), 3, &responses);
    assert_eq!(outcome.unwrap(), "https://c.example.com/2");
    assert_eq!(requests, 3);
}

#[test]
fn test_endless_redirects_exhaust_the_budget() {
    // A server that always answers 302 exhausts the hop budget: the fetch
    // fails with RedirectLimitExceeded after exactly max_hops requests.
    let responses: Vec<ScriptedResponse> = (0..10)
        .map(|i| redirect_to(302, &format!("https://hop{}.example.com/", i)))
        .collect();
    let (outcome, requests) = fetch_over(String::from("https://a.example.com/0"), 10, &responses);
    match outcome.unwrap_err() {
        FetchError::RedirectLimitExceeded { max_hops, last_url, original_url } => {
            assert_eq!(max_hops, 10);
            assert_eq!(last_url, "https://hop9.example.com/");
            assert_eq!(original_url, "https://a.example.com/0");
        },
        other => panic!("expected RedirectLimitExceeded, got {:?}", other),
    }
    assert_eq!(requests, 10);
}

#[test]
fn test_unhandled_status_fails_after_one_request() {
    // A 404 is terminal at once: one request, no redirect hops consumed.
    let responses = vec![
        reply(404, LocationHeader::Missing),
        ok_reply(),
        ok_reply(),
    ];
    let (outcome, requests) = fetch_over(String::from("https://a.example.com/0"), 3, &responses);
    match outcome.unwrap_err() {
        FetchError::UnhandledStatus { status, url } => {
            assert_eq!(status, 404);
            assert_eq!(url, "https://a.example.com/0");
        },
        other => panic!("expected UnhandledStatus, got {:?}", other),
    }
    assert_eq!(requests, 1);
}

#[test]
fn test_redirect_without_location_fails() {
    let responses = vec![reply(301, LocationHeader::Missing), ok_reply()];
    let (outcome, requests) = fetch_over(String::from("https://a.example.com/0"), 2, &responses);
    match outcome.unwrap_err() {
        FetchError::MissingRedirectTarget { status, url } => {
            assert_eq!(status, 301);
            assert_eq!(url, "https://a.example.com/0");
        },
        other => panic!("expected MissingRedirectTarget, got {:?}", other),
    }
    assert_eq!(requests, 1);
}

#[test]
fn test_redirect_with_unreadable_location_fails() {
    let responses = vec![reply(308, LocationHeader::NotText), ok_reply()];
    let (outcome, _) = fetch_over(String::from("https://a.example.com/0"), 2, &responses);
    assert!(matches!(
        outcome.unwrap_err(),
        FetchError::InvalidRedirectTarget { status: 308, .. }
    ));
}

#[test]
fn test_redirect_with_unparseable_location_fails() {
    // A Location value that does not parse as a URI is an invalid target.
    let responses = vec![redirect_to(301, "not a uri"), ok_reply()];
    let (outcome, requests) = fetch_over(String::from("https://a.example.com/0"), 2, &responses);
    match outcome.unwrap_err() {
        FetchError::InvalidRedirectTarget { status, url } => {
            assert_eq!(status, 301);
            assert_eq!(url, "https://a.example.com/0");
        },
        other => panic!("expected InvalidRedirectTarget, got {:?}", other),
    }
    assert_eq!(requests, 1);
}

#[test]
fn test_transport_failure_is_terminal() {
    let responses = vec![
        redirect_to(301, "https://b.example.com/1"),
        ScriptedResponse::Dropped { cause: String::from("connection refused") },
    ];
    let (outcome, requests) = fetch_over(String::from("https://a.example.com/0"), 2, &responses);
    match outcome.unwrap_err() {
        FetchError::TransportError { url, cause } => {
            assert_eq!(url, "https://b.example.com/1");
            assert_eq!(cause, "connection refused");
        },
        other => panic!("expected TransportError, got {:?}", other),
    }
    assert_eq!(requests, 2);
}

#[test]
fn test_zero_budget_makes_no_request() {
    let responses: Vec<ScriptedResponse> = Vec::new();
    let (outcome, requests) = fetch_over(String::from("https://a.example.com/0"), 0, &responses);
    match outcome.unwrap_err() {
        FetchError::RedirectLimitExceeded { max_hops, last_url, original_url } => {
            assert_eq!(max_hops, 0);
            assert_eq!(last_url, "https://a.example.com/0");
            assert_eq!(original_url, "https://a.example.com/0");
        },
        other => panic!("expected RedirectLimitExceeded, got {:?}", other),
    }
    assert_eq!(requests, 0);
}
