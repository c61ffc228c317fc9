use scout_sdk::{api_error, ConnectionError, Error, Json};

fn obj(members: Vec<(&str, Json)>) -> Json {
    Json::Object(members.into_iter().map(|(k, v)| (k.to_string(), v)).collect())
}

fn s(x: &str) -> Json {
    Json::Str(x.to_string())
}

fn parts(e: &Error) -> (u16, String, Option<String>) {
    match e {
        Error::Api { status, message, code, .. } => (*status, message.clone(), code.clone()),
        _ => panic!("not an API error"),
    }
}

#[test]
fn message_prefers_detail_then_error_then_message() {
    let e = api_error(400, None, None, Some(obj(vec![("message", s("m")), ("error", s("e")), ("detail", s("d"))])));
    assert_eq!(parts(&e).1, "d");
    let e = api_error(400, None, None, Some(obj(vec![("message", s("m")), ("error", s("e"))])));
    assert_eq!(parts(&e).1, "e");
    let e = api_error(400, None, None, Some(obj(vec![("message", s("m"))])));
    assert_eq!(parts(&e).1, "m");
}

#[test]
fn message_from_nested_error_object() {
    let e = api_error(
        422,
        None,
        None,
        Some(obj(vec![("error", obj(vec![("message", s("bad input")), ("code", s("invalid"))]))])),
    );
    let (status, message, code) = parts(&e);
    assert_eq!(status, 422);
    assert_eq!(message, "bad input");
    assert_eq!(code.as_deref(), Some("invalid"));
}

#[test]
fn nested_object_without_message_falls_through() {
    let e = api_error(
        400,
        None,
        None,
        Some(obj(vec![("detail", obj(vec![("x", s("y"))])), ("message", s("fallback"))])),
    );
    assert_eq!(parts(&e).1, "fallback");
}

#[test]
fn message_from_string_body_or_status() {
    assert_eq!(parts(&api_error(502, None, None, Some(s("upstream down")))).1, "upstream down");
    assert_eq!(parts(&api_error(502, None, None, Some(s("")))).1, "Scout API returned HTTP 502");
    assert_eq!(parts(&api_error(503, None, None, None)).1, "Scout API returned HTTP 503");
    assert_eq!(parts(&api_error(404, None, None, Some(Json::Null))).1, "Scout API returned HTTP 404");
    assert_eq!(parts(&api_error(400, None, None, Some(obj(vec![("detail", Json::Bool(true))])))).1, "Scout API returned HTTP 400");
}

#[test]
fn code_prefers_top_level() {
    let e = api_error(
        400,
        None,
        None,
        Some(obj(vec![("error", obj(vec![("code", s("inner"))])), ("code", s("outer"))])),
    );
    assert_eq!(parts(&e).2.as_deref(), Some("outer"));
    let e = api_error(400, None, None, Some(obj(vec![("code", Json::Number("5".into()))])));
    assert_eq!(parts(&e).2, None);
    assert_eq!(parts(&api_error(400, None, None, None)).2, None);
}

#[test]
fn status_helpers() {
    let e = |st: u16| api_error(st, None, None, None);
    assert!(e(401).is_authentication());
    assert!(e(402).is_insufficient_credits());
    assert!(e(404).is_not_found());
    assert!(e(429).is_rate_limited());
    assert!(e(500).is_server_error());
    assert!(e(599).is_server_error());
    assert!(!e(499).is_server_error());
    assert!(!e(401).is_not_found());
    let cfg = Error::Config("x".into());
    assert_eq!(cfg.status(), None);
    assert_eq!(cfg.request_id(), None);
    assert!(!cfg.is_server_error());
    assert!(!Error::Decode("x".into()).is_retriable());
}

#[test]
fn request_id_and_retry_after_are_kept() {
    let e = api_error(429, Some("req_1".into()), Some("2.5".into()), None);
    assert_eq!(e.request_id(), Some("req_1"));
    match e {
        Error::Api { retry_after, .. } => assert_eq!(retry_after.as_deref(), Some("2.5")),
        _ => panic!(),
    }
    assert_eq!(api_error(429, None, None, None).request_id(), None);
}

#[test]
fn retriable_statuses() {
    for st in [408u16, 409, 429, 500, 501, 502, 503, 504, 599] {
        assert!(api_error(st, None, None, None).is_retriable(), "{st}");
    }
    for st in [400u16, 401, 402, 403, 404, 422, 600] {
        assert!(!api_error(st, None, None, None).is_retriable(), "{st}");
    }
}

#[test]
fn connection_failures_retry_by_kind() {
    let conn = |timeout, connect, request| {
        Error::Connection(ConnectionError { message: "x".into(), timeout, connect, request })
    };
    assert!(conn(true, false, false).is_retriable());
    assert!(conn(false, true, false).is_retriable());
    assert!(conn(false, false, true).is_retriable());
    assert!(!conn(false, false, false).is_retriable());
    assert_eq!(conn(true, false, false).status(), None);
}

#[test]
fn connection_error_keeps_what_reqwest_reports() {
    let e = reqwest::Client::new().get("not a url").build().unwrap_err();
    let (text, timeout, connect, request) = (e.to_string(), e.is_timeout(), e.is_connect(), e.is_request());
    let c = ConnectionError::from_http(e);
    assert_eq!(c.message, text);
    assert!(!c.message.is_empty());
    assert_eq!((c.timeout, c.connect, c.request), (timeout, connect, request));
}
