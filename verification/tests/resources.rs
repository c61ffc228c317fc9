use scout_sdk::{
    extract_items, ChatMessage, ChatParams, ClientBuilder, HttpMethod, Json, MonitorUpdateParams,
    ProductsParams, SearchParams, PAGE_LIMIT,
};

fn obj(members: Vec<(&str, Json)>) -> Json {
    Json::Object(members.into_iter().map(|(k, v)| (k.to_string(), v)).collect())
}

fn num(n: u32) -> Json {
    Json::Number(n.to_string())
}

fn keys(j: &Json) -> Vec<String> {
    match j {
        Json::Object(m) => m.iter().map(|(k, _)| k.clone()).collect(),
        _ => panic!("not an object"),
    }
}

fn ids(items: &[Json]) -> Vec<String> {
    items
        .iter()
        .map(|j| match j {
            Json::Number(n) => n.clone(),
            _ => panic!(),
        })
        .collect()
}

#[test]
fn extract_items_from_array_and_known_keys() {
    assert_eq!(ids(&extract_items(Json::Array(vec![num(1), num(2)]))), ["1", "2"]);
    let v = obj(vec![("runs", Json::Array(vec![num(3)])), ("data", Json::Array(vec![num(4)]))]);
    assert_eq!(ids(&extract_items(v)), ["4"]);
    let v = obj(vec![("items", Json::Str("no".into())), ("monitors", Json::Array(vec![num(5)]))]);
    assert_eq!(ids(&extract_items(v)), ["5"]);
}

#[test]
fn extract_items_falls_back_to_first_array() {
    let v = obj(vec![("total", num(2)), ("rows", Json::Array(vec![num(6)])), ("more", Json::Array(vec![num(7)]))]);
    assert_eq!(ids(&extract_items(v)), ["6"]);
    assert!(extract_items(obj(vec![("total", num(0))])).is_empty());
    assert!(extract_items(Json::Null).is_empty());
}

#[test]
fn pager_walks_until_a_short_page() {
    let c = ClientBuilder::new(None).api_key("k").build().unwrap();
    let mut pager = c.monitors().list_all();
    let full: Vec<Json> = (0..PAGE_LIMIT as u32).map(num).collect();
    let first = pager.next_request();
    assert_eq!(first.query, vec![("limit".to_string(), "50".to_string()), ("offset".to_string(), "0".to_string())]);
    pager.absorb(obj(vec![("monitors", Json::Array(full))]));
    assert!(!pager.is_done());
    let second = pager.next_request();
    assert_eq!(second.path, "/v1/monitors");
    assert_eq!(second.query[1], ("offset".to_string(), "50".to_string()));
    pager.absorb(Json::Array(vec![num(99)]));
    assert!(pager.is_done());
    assert_eq!(pager.into_items().len(), 51);
}

#[test]
fn id_paths_are_percent_encoded() {
    let c = ClientBuilder::new(None).api_key("k").build().unwrap();
    let r = c.search().get("a/b c");
    assert_eq!(r.method, HttpMethod::Get);
    assert_eq!(r.path, "/v1/searches/a%2Fb%20c");
    assert_eq!(c.jobs().cancel("t1").path, "/v1/jobs/t1/cancel");
    assert_eq!(c.jobs().run_events("r 1").path, "/v1/jobs/runs/r%201/events");
    assert_eq!(c.monitors().delete("m").method, HttpMethod::Delete);
    assert_eq!(c.lists().runs().stream_events("f").path, "/v1/lists/runs/f/events");
    assert!(c.lists().runs().enrich("f", Json::Null).body.is_some());
}

#[test]
fn list_calls_carry_limit_and_offset() {
    let c = ClientBuilder::new(None).api_key("k").build().unwrap();
    let r = c.jobs().list(10, 20);
    assert_eq!(r.path, "/v1/jobs");
    assert_eq!(r.query, vec![("limit".to_string(), "10".to_string()), ("offset".to_string(), "20".to_string())]);
    assert!(r.body.is_none());
}

#[test]
fn params_serialize_present_fields_in_order() {
    let j = SearchParams {
        queries: vec!["q".into()],
        depth: Some("deep".into()),
        limit: Some(5),
        include_domains: Some(vec!["a.com".into()]),
        ..Default::default()
    }
    .to_json();
    assert_eq!(keys(&j), ["queries", "depth", "limit", "include_domains"]);
    match &j {
        Json::Object(m) => assert!(matches!(&m[2].1, Json::Number(n) if n == "5")),
        _ => unreachable!(),
    }
    assert_eq!(keys(&SearchParams::default().to_json()), ["queries"]);
}

#[test]
fn follow_subdomains_is_camel_case() {
    let j = ProductsParams { url: "u".into(), follow_subdomains: Some(true), ..Default::default() }.to_json();
    assert_eq!(keys(&j), ["url", "followSubdomains"]);
}

#[test]
fn monitor_update_is_a_patch_with_body() {
    let c = ClientBuilder::new(None).api_key("k").build().unwrap();
    let r = c.monitors().update("m1", MonitorUpdateParams { cron: Some("0 * * * *".into()), ..Default::default() });
    assert_eq!(r.method, HttpMethod::Patch);
    assert_eq!(r.path, "/v1/monitors/m1");
    assert_eq!(keys(r.body.as_ref().unwrap()), ["cron"]);
}

#[test]
fn chat_message_json() {
    let j = ChatMessage { role: "user".into(), content: "hi".into() }.to_json();
    assert_eq!(keys(&j), ["role", "content"]);
    let c = ClientBuilder::new(None).api_key("k").build().unwrap();
    assert_eq!(c.chat().completions().create_raw(j).path, "/v1/chat/completions");
}

#[test]
fn extract_params_carry_a_schema_document() {
    let schema = obj(vec![("type", Json::Str("object".into()))]);
    let j = scout_sdk::ExtractParams {
        urls: vec!["https://example.com/pricing".into()],
        output_schema: Some(schema),
        find_via_search: Some(false),
        ..Default::default()
    }
    .to_json();
    assert_eq!(keys(&j), ["urls", "find_via_search", "output_schema"]);
    match &j {
        Json::Object(m) => match &m[2].1 {
            Json::Object(inner) => assert_eq!(inner[0].0, "type"),
            _ => panic!(),
        },
        _ => panic!(),
    }
}

#[test]
fn json_clone_is_deep() {
    let value = obj(vec![
        ("a", Json::Array(vec![num(1), Json::Null, Json::Bool(true)])),
        ("b", obj(vec![("c", Json::Str("d".into()))])),
    ]);
    let copy = value.clone();
    assert_eq!(format!("{value:?}"), format!("{copy:?}"));
}

#[test]
fn chat_params_body_and_streaming() {
    let c = ClientBuilder::new(None).api_key("k").build().unwrap();
    let params = ChatParams {
        messages: vec![ChatMessage { role: "user".into(), content: "hi".into() }],
        model: Some("scout-1".into()),
        temperature: Some(Json::Number("0.5".into())),
        max_tokens: Some(64),
        ..Default::default()
    };
    let req = c.chat().completions().create(params.clone());
    assert_eq!(req.method, HttpMethod::Post);
    assert_eq!(req.path, "/v1/chat/completions");
    let body = req.body.unwrap();
    assert_eq!(keys(&body), ["messages", "model", "temperature", "max_tokens"]);
    match &body {
        Json::Object(m) => match &m[0].1 {
            Json::Array(items) => assert_eq!(keys(&items[0]), ["role", "content"]),
            other => panic!("unexpected {other:?}"),
        },
        _ => panic!(),
    }
    let streamed = c.chat().completions().create_stream(params).body.unwrap();
    assert_eq!(keys(&streamed), ["messages", "model", "stream", "temperature", "max_tokens"]);
    match &streamed {
        Json::Object(m) => assert!(matches!(m[2].1, Json::Bool(true))),
        _ => panic!(),
    }
}
