//! End-to-end scenarios of the API client, checked against the library's
//! request preparation, response interpretation, retry policy and pagination.

use scout_sdk::{
    interpret_response, Backoff, Client, ClientBuilder, DomainParams, HttpMethod, Json, Pager,
    RetryLoop, SearchParams, SiteCrawlParams,
};

fn client(base: &str) -> Client {
    ClientBuilder::new(None)
        .api_key("sk_live_xyz")
        .base_url(base)
        .max_retries(3)
        .build()
        .unwrap()
}

fn obj(members: Vec<(&str, Json)>) -> Json {
    Json::Object(members.into_iter().map(|(k, v)| (k.to_string(), v)).collect())
}

fn header<'a>(headers: &'a [(String, String)], name: &str) -> Option<&'a str> {
    headers.iter().find(|(k, _)| k.eq_ignore_ascii_case(name)).map(|(_, v)| v.as_str())
}

#[test]
fn post_round_trip_sends_auth_and_idempotency() {
    let c = client("http://127.0.0.1:9999");
    let req = c.search().create(SearchParams {
        queries: vec!["hello world".into()],
        depth: Some("standard".into()),
        ..Default::default()
    });
    assert_eq!(req.method, HttpMethod::Post);
    assert_eq!(req.path, "/v1/search");
    let prepared = c.prepare(req, 0xabc, 7);
    assert_eq!(prepared.url, "http://127.0.0.1:9999/v1/search");
    assert_eq!(header(&prepared.headers, "authorization"), Some("Bearer sk_live_xyz"));
    assert!(header(&prepared.headers, "idempotency-key").is_some());

    let body = interpret_response(
        200,
        Some("req_abc123".into()),
        None,
        Some(Ok(obj(vec![("ok", Json::Bool(true))]))),
    )
    .unwrap();
    match body {
        Json::Object(m) => {
            assert_eq!(m[0].0, "ok");
            assert!(matches!(m[0].1, Json::Bool(true)));
        }
        other => panic!("unexpected body {other:?}"),
    }
}

#[test]
fn retries_on_500_then_succeeds() {
    let c = client("http://127.0.0.1:9999");
    let req = c.site().crawl(SiteCrawlParams {
        start_url: "https://example.com".into(),
        ..Default::default()
    });
    assert_eq!(req.path, "/v1/site/crawl");
    let mut retry = RetryLoop::new(c.max_retries());
    for _ in 0..2 {
        let err = interpret_response(
            500,
            None,
            None,
            Some(Ok(obj(vec![("detail", Json::Str("transient".into()))]))),
        )
        .unwrap_err();
        assert!(retry.after_failure(&err).is_some());
    }
    let res = interpret_response(200, None, None, Some(Ok(obj(vec![("ok", Json::Bool(true))]))));
    assert!(res.is_ok());
    assert_eq!(retry.attempt(), 2);
}

#[test]
fn maps_401_to_typed_error() {
    let c = client("http://127.0.0.1:9999");
    let req = c.company().enrich(DomainParams { domain: "x.com".into() });
    assert_eq!(req.path, "/v1/company");
    let err = interpret_response(
        401,
        Some("req_abc123".into()),
        None,
        Some(Ok(obj(vec![("detail", Json::Str("invalid api key".into()))]))),
    )
    .unwrap_err();

    assert_eq!(err.status(), Some(401));
    assert_eq!(err.request_id(), Some("req_abc123"));
    assert!(err.is_authentication());
}

#[test]
fn list_all_collects_a_page() {
    let c = client("http://127.0.0.1:9999");
    let mut pager: Pager = c.search().list_all();
    let req = pager.next_request();
    assert_eq!(req.method, HttpMethod::Get);
    assert_eq!(req.path, "/v1/searches");
    pager.absorb(obj(vec![(
        "items",
        Json::Array(vec![obj(vec![("id", Json::Number("1".into()))])]),
    )]));
    assert!(pager.is_done());
    let items = pager.into_items();
    assert_eq!(items.len(), 1);
}

#[test]
fn exhausted_retries_return_the_error() {
    let mut retry = RetryLoop::new(2);
    let err = interpret_response(503, None, None, None).unwrap_err();
    match retry.after_failure(&err) {
        Some(Backoff::Exponential { base_ms }) => assert_eq!(base_ms, 500),
        other => panic!("unexpected {other:?}"),
    }
    match retry.after_failure(&err) {
        Some(Backoff::Exponential { base_ms }) => assert_eq!(base_ms, 1000),
        other => panic!("unexpected {other:?}"),
    }
    assert!(retry.after_failure(&err).is_none());
    assert_eq!(retry.attempt(), 2);
}

#[test]
fn permanent_errors_are_not_retried() {
    let mut retry = RetryLoop::new(5);
    let err = interpret_response(404, None, None, None).unwrap_err();
    assert!(retry.after_failure(&err).is_none());
    assert_eq!(retry.attempt(), 0);
    let bad_request = interpret_response(400, None, None, None).unwrap_err();
    assert!(retry.after_failure(&bad_request).is_none());
}

#[test]
fn retry_after_is_honored() {
    let mut retry = RetryLoop::new(2);
    let err = interpret_response(429, None, Some("3".into()), None).unwrap_err();
    match retry.after_failure(&err) {
        Some(Backoff::RetryAfter(s)) => assert_eq!(s, "3"),
        other => panic!("unexpected {other:?}"),
    }
}
