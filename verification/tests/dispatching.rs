use serde_json::Value;
use snaxum::dispatch::{
    dispatch_outcome, parse_dispatch_response, route_is_async, route_log_line, DispatchResult,
    ResponseFields, RouteLookup,
};
use snaxum::dispatcher::{
    choose_request_body, classify_body, is_valid_status, python_reply, python_route_path,
    header_map, ReplyBody, RequestBody,
};
use snaxum::error::RuntimeError;

fn fields(success: Option<bool>, code: Option<u16>) -> ResponseFields {
    ResponseFields {
        success,
        code,
        data: Some(Value::from(7)),
        error: Some("bad".to_string()),
    }
}

#[test]
fn parse_response_success_defaults() {
    let r = parse_dispatch_response(fields(Some(true), None));
    assert!(r.success);
    assert_eq!(r.code, 200);
    assert_eq!(r.data, Some(Value::from(7)));
    assert_eq!(r.error, None);
}

#[test]
fn parse_response_failure_defaults() {
    let r = parse_dispatch_response(fields(None, None));
    assert!(!r.success);
    assert_eq!(r.code, 500);
    assert_eq!(r.data, None);
    assert_eq!(r.error.as_deref(), Some("bad"));
    let r = parse_dispatch_response(fields(Some(false), Some(404)));
    assert_eq!(r.code, 404);
}

#[test]
fn dispatch_failures() {
    let r = DispatchResult::conversion_failure("Expected dict");
    assert!(!r.success);
    assert_eq!(r.code, 500);
    assert_eq!(r.error.as_deref(), Some("Failed to convert request data: Expected dict"));
    let r = DispatchResult::submit_failure("queue closed");
    assert_eq!(r.error.as_deref(), Some("Failed to submit async request: queue closed"));
    let r = dispatch_outcome(Err("KeyError: 'x'".to_string()));
    assert_eq!(r.code, 500);
    assert_eq!(r.error.as_deref(), Some("KeyError: 'x'"));
    let r = dispatch_outcome(Ok(fields(Some(true), Some(201))));
    assert_eq!(r.code, 201);
}

#[test]
fn route_async_lookup() {
    assert_eq!(route_is_async(RouteLookup::Failed), None);
    assert_eq!(route_is_async(RouteLookup::NotFound), None);
    assert_eq!(route_is_async(RouteLookup::Found { is_async: Some(true) }), Some(true));
    assert_eq!(route_is_async(RouteLookup::Found { is_async: None }), None);
}

#[test]
fn route_log_lines() {
    assert_eq!(
        route_log_line("GET", "/python/hello", "hello", false, false),
        "  GET /python/hello -> hello()"
    );
    assert_eq!(
        route_log_line("POST", "/python/pool/sum", "pool_sum", true, true),
        "  POST /python/pool/sum -> pool_sum() [pool] [async]"
    );
}

#[test]
fn route_path_prefix() {
    assert_eq!(python_route_path("users/5"), "/python/users/5");
    assert_eq!(python_route_path(""), "/python/");
}

#[test]
fn request_body_kinds() {
    assert!(matches!(classify_body(b""), RequestBody::Absent));
    match classify_body(br#"{"a": 1}"#) {
        RequestBody::Json(v) => assert_eq!(v["a"], Value::from(1)),
        other => panic!("unexpected {:?}", other),
    }
    match classify_body(b"12") {
        RequestBody::Json(v) => assert_eq!(v, Value::from(12)),
        other => panic!("unexpected {:?}", other),
    }
    match classify_body(b"plain text") {
        RequestBody::Text(t) => assert_eq!(t, "plain text"),
        other => panic!("unexpected {:?}", other),
    }
    assert!(matches!(classify_body(&[0xff, 0xfe]), RequestBody::Absent));
    assert!(matches!(choose_request_body(true, Some(Value::Null), None), RequestBody::Absent));
    assert!(matches!(choose_request_body(false, None, None), RequestBody::Absent));
}

#[test]
fn headers_keep_visible_ascii() {
    let headers = vec![
        ("host".to_string(), b"localhost:3000".to_vec()),
        ("x-bin".to_string(), vec![0xe2, 0x82, 0xac]),
        ("x-tab".to_string(), b"a\tb".to_vec()),
        ("x-ctl".to_string(), vec![b'a', 0x7f]),
    ];
    let kept = header_map(&headers);
    assert_eq!(
        kept,
        vec![
            ("host".to_string(), "localhost:3000".to_string()),
            ("x-tab".to_string(), "a\tb".to_string()),
        ]
    );
}

#[test]
fn repeated_header_keeps_last_value() {
    let headers = vec![
        ("accept".to_string(), b"text/html".to_vec()),
        ("x-id".to_string(), b"1".to_vec()),
        ("accept".to_string(), b"application/json".to_vec()),
        ("x-id".to_string(), vec![0x80]),
    ];
    let kept = header_map(&headers);
    assert_eq!(
        kept,
        vec![
            ("accept".to_string(), "application/json".to_string()),
            ("x-id".to_string(), "1".to_string()),
        ]
    );
}

#[test]
fn status_code_validity() {
    assert!(!is_valid_status(99));
    assert!(is_valid_status(100));
    assert!(is_valid_status(999));
    assert!(!is_valid_status(1000));
}

#[test]
fn replies_for_outcomes() {
    let ok = DispatchResult { success: true, code: 200, data: None, error: None };
    let reply = python_reply(Ok(ok));
    assert_eq!(reply.status, 200);
    assert!(matches!(reply.body, ReplyBody::Data(None)));

    let failed = DispatchResult { success: false, code: 404, data: None, error: Some("Not found".to_string()) };
    let reply = python_reply(Ok(failed));
    assert_eq!(reply.status, 404);
    assert!(matches!(reply.body, ReplyBody::Error(ref m) if m == "Not found"));

    let weird = DispatchResult { success: false, code: 42, data: None, error: None };
    let reply = python_reply(Ok(weird));
    assert_eq!(reply.status, 500);
    assert!(matches!(reply.body, ReplyBody::Error(ref m) if m == "Unknown error"));

    let reply = python_reply(Err(RuntimeError::ChannelRecv("dropped".to_string())));
    assert_eq!(reply.status, 500);
    assert!(matches!(reply.body, ReplyBody::Error(ref m) if m == "Channel receive error: dropped"));
}
