use scout_sdk::client::{backoff_base, new_id, DEFAULT_MAX_RETRIES};
use scout_sdk::{ApiRequest, ClientBuilder, Error, HttpMethod, Json, API_VERSION, DEFAULT_BASE_URL, VERSION};

fn header<'a>(headers: &'a [(String, String)], name: &str) -> Option<&'a str> {
    headers.iter().find(|(k, _)| k == name).map(|(_, v)| v.as_str())
}

#[test]
fn builder_defaults() {
    let c = ClientBuilder::new(Some("sk_env".into())).build().unwrap();
    assert_eq!(c.base_url(), DEFAULT_BASE_URL);
    assert_eq!(c.max_retries(), DEFAULT_MAX_RETRIES);
    assert_eq!(c.max_retries(), 2);
}

#[test]
fn build_without_key_is_a_config_error() {
    match ClientBuilder::new(None).build() {
        Err(Error::Config(m)) => {
            assert_eq!(m, "missing API key; set SCOUT_API_KEY or use .api_key()")
        }
        _ => panic!("expected a config error"),
    }
    match ClientBuilder::new(Some(String::new())).build() {
        Err(Error::Config(_)) => {}
        _ => panic!("an empty key must be refused"),
    }
}

#[test]
fn base_url_loses_trailing_slashes() {
    let c = ClientBuilder::new(None).api_key("k").base_url("https://x.test//").build().unwrap();
    assert_eq!(c.base_url(), "https://x.test");
}

#[test]
fn api_key_setter_overrides_env() {
    let c = ClientBuilder::new(Some("env".into())).api_key("explicit").build().unwrap();
    let p = c.prepare(
        ApiRequest { method: HttpMethod::Get, path: "/v1/jobs".into(), query: vec![], body: None },
        1,
        1,
    );
    assert_eq!(header(&p.headers, "Authorization"), Some("Bearer explicit"));
}

#[test]
fn reads_carry_no_idempotency_key_and_no_content_type() {
    let c = ClientBuilder::new(None).api_key("k").build().unwrap();
    let p = c.prepare(
        ApiRequest { method: HttpMethod::Get, path: "/v1/jobs".into(), query: vec![], body: None },
        1,
        1,
    );
    assert_eq!(header(&p.headers, "Idempotency-Key"), None);
    assert_eq!(header(&p.headers, "Content-Type"), None);
    assert_eq!(header(&p.headers, "Accept"), Some("application/json"));
    assert_eq!(header(&p.headers, "Scout-Version"), Some(API_VERSION));
    assert_eq!(header(&p.headers, "User-Agent"), Some(format!("scout-rust/{VERSION}").as_str()));
    assert_eq!(p.headers.len(), 4);
}

#[test]
fn writes_carry_an_idempotency_key_and_content_type() {
    let c = ClientBuilder::new(None).api_key("k").build().unwrap();
    let p = c.prepare(
        ApiRequest {
            method: HttpMethod::Post,
            path: "/v1/jobs".into(),
            query: vec![],
            body: Some(Json::Null),
        },
        0x1f,
        2,
    );
    assert_eq!(header(&p.headers, "Idempotency-Key"), Some("idmp-1f-2"));
    assert_eq!(header(&p.headers, "Content-Type"), Some("application/json"));
    let d = c.prepare(
        ApiRequest { method: HttpMethod::Delete, path: "/v1/monitors/m".into(), query: vec![], body: None },
        0,
        0,
    );
    assert_eq!(header(&d.headers, "Idempotency-Key"), Some("idmp-0-0"));
}

#[test]
fn idempotency_key_format() {
    assert_eq!(new_id(0, 0), "idmp-0-0");
    assert_eq!(new_id(255, 16), "idmp-ff-10");
    assert_eq!(new_id(u128::MAX, u64::MAX), format!("idmp-{:x}-{:x}", u128::MAX, u64::MAX));
    assert_ne!(new_id(1, 11), new_id(0x11, 1));
}

#[test]
fn backoff_doubles_up_to_eight_seconds() {
    let got: Vec<u64> = (0..8).map(backoff_base).collect();
    assert_eq!(got, vec![500, 1000, 2000, 4000, 8000, 8000, 8000, 8000]);
    assert_eq!(backoff_base(u32::MAX), 8000);
}

#[test]
fn methods_on_the_wire() {
    assert_eq!(HttpMethod::Get.as_str(), "GET");
    assert_eq!(HttpMethod::Patch.as_str(), "PATCH");
    assert!(!HttpMethod::Get.is_write());
    assert!(HttpMethod::Post.is_write());
    assert!(HttpMethod::Delete.is_write());
}

#[test]
fn every_attempt_of_a_call_sends_the_same_request() {
    let c = ClientBuilder::new(None).api_key("k").max_retries(2).build().unwrap();
    let req = ApiRequest { method: HttpMethod::Post, path: "/v1/jobs".into(), query: vec![], body: Some(Json::Null) };
    let mut call = scout_sdk::Call::new(&c, req, 0xbeef, 3);
    let first = format!("{:?}", call.request());
    let err = scout_sdk::interpret_response(503, None, None, None).unwrap_err();
    assert!(call.after_failure(&err).is_some());
    assert!(call.after_failure(&err).is_some());
    assert!(call.after_failure(&err).is_none());
    assert_eq!(format!("{:?}", call.request()), first);
    assert_eq!(header(&call.request().headers, "Idempotency-Key"), Some("idmp-beef-3"));
}

#[test]
fn an_undecodable_success_body_is_a_decode_error() {
    let err = scout_sdk::interpret_response(200, None, None, Some(Err("expected value at line 1 column 1".into())))
        .unwrap_err();
    match err {
        scout_sdk::Error::Decode(m) => assert_eq!(m, "expected value at line 1 column 1"),
        other => panic!("unexpected {other:?}"),
    }
    assert!(matches!(scout_sdk::interpret_response(204, None, None, None), Ok(Json::Null)));
}

#[test]
fn an_undecodable_error_body_reads_as_null() {
    let err = scout_sdk::interpret_response(502, Some("r1".into()), None, Some(Err("bad".into()))).unwrap_err();
    match err {
        scout_sdk::Error::Api { status, body, request_id, .. } => {
            assert_eq!(status, 502);
            assert!(matches!(body, Some(Json::Null)));
            assert_eq!(request_id.as_deref(), Some("r1"));
        }
        other => panic!("unexpected {other:?}"),
    }
}
