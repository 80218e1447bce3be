use snaxum::json::{json_from_text, json_text};
use serde_json::Value;
use snaxum::handlers::{
    echo_response, hello_response, process_response, reply_from, squares_query_numbers,
    squares_reply, EchoRequest, HandlerReply, SquaresQuery,
};

#[test]
fn rust_hello() {
    let r = hello_response(1700000000);
    assert_eq!(r.message, "Hello from Rust");
    assert_eq!(r.timestamp, 1700000000);
}

#[test]
fn rust_echo() {
    let r = echo_response(EchoRequest { data: Value::from("hi") });
    assert_eq!(r.echo, Value::from("hi"));
    assert_eq!(r.source, "rust");
}

#[test]
fn python_process() {
    let r = process_response(Value::from(3));
    assert_eq!(r.result, Value::from(3));
    assert_eq!(r.source, "python");
}

#[test]
fn squares_query() {
    let q = SquaresQuery { numbers: "1, 2, 3".to_string() };
    assert_eq!(squares_query_numbers(&q).unwrap(), vec![1, 2, 3]);
    let q = SquaresQuery { numbers: "1, x".to_string() };
    match squares_query_numbers(&q) {
        Err(HandlerReply::Failure { status, error }) => {
            assert_eq!(status, 400);
            assert_eq!(error, "Invalid numbers format");
        }
        _ => panic!("expected a rejection"),
    }
}

#[test]
fn squares_replies() {
    match squares_reply(Ok(vec![1, 4, 9])) {
        HandlerReply::Success(r) => assert_eq!(r.squares, vec![1, 4, 9]),
        _ => panic!("expected success"),
    }
    let failed = squares_reply(Err("BrokenProcessPool".to_string()));
    assert_eq!(failed.status(), 500);
    match failed {
        HandlerReply::Failure { error, .. } => assert_eq!(error, "BrokenProcessPool"),
        _ => panic!("expected failure"),
    }
    assert_eq!(reply_from::<u8>(Ok(1)).status(), 200);
}

#[test]
fn python_process_reply_parses_result_text() {
    match snaxum::handlers::process_reply(br#"{"n": 12}"#) {
        HandlerReply::Success(r) => {
            assert_eq!(r.result["n"], Value::from(12));
            assert_eq!(r.source, "python");
        }
        _ => panic!("expected success"),
    }
    let expected = format!(
        "ValueError: {}",
        serde_json::from_str::<Value>("oops").unwrap_err()
    );
    match snaxum::handlers::process_reply(b"oops") {
        HandlerReply::Failure { status, error } => {
            assert_eq!(status, 500);
            assert_eq!(error, expected);
            assert_eq!(error, "ValueError: expected value at line 1 column 1");
        }
        _ => panic!("expected failure"),
    }
}

#[test]
fn json_text_round_trip() {
    assert_eq!(json_from_text(b"[1, 2]"), Some(Value::from(vec![1, 2])));
    assert_eq!(json_from_text(b"[1,"), None);
    let v = json_from_text(br#"{"a": "b"}"#).unwrap();
    assert_eq!(json_text(&v), r#"{"a":"b"}"#);
    assert_eq!(json_text(&Value::Null), "null");
}
