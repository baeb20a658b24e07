//! The reply decoder, exercised through `route_outcome` with the real JSON
//! parser linked in.

use next_router::{route_outcome, EngineOutcome, ProtocolFault, RouteError, RouterResult};

fn decode(reply: &str) -> Result<RouterResult, RouteError> {
    route_outcome(&EngineOutcome::Value(reply.to_string()))
}

#[test]
fn rewrite_reply_decodes() {
    let r = decode(r#"{"type":"rewrite","data":{"url":"/foo","headers":["x-test:1"]}}"#).unwrap();
    match r {
        RouterResult::Rewrite(rw) => {
            assert_eq!(rw.url, "/foo");
            assert_eq!(rw.headers, vec!["x-test:1".to_string()]);
        }
        other => panic!("expected a rewrite, got {:?}", other),
    }
}

#[test]
fn full_middleware_reply_decodes() {
    let reply = r#"{"type":"full-middleware","data":{"headers":{"statusCode":200,"headers":[]},"body":[72,105]}}"#;
    match decode(reply).unwrap() {
        RouterResult::FullMiddleware(fm) => {
            assert_eq!(fm.headers.status_code, 200);
            assert!(fm.headers.headers.is_empty());
            assert_eq!(fm.body, vec![72u8, 105u8]);
        }
        other => panic!("expected full middleware, got {:?}", other),
    }
}

#[test]
fn error_reply_decodes_to_error_regardless_of_payload() {
    let replies = [
        r#"{"type":"error","data":{"name":"Oops","message":"boom","stack":[]}}"#,
        r#"{"type":"error","data":{"anything":["at",1,null]}}"#,
        r#"{"type":"error","data":null}"#,
        r#"{"type":"error"}"#,
    ];
    for reply in replies {
        assert_eq!(decode(reply).unwrap(), RouterResult::Error, "reply: {reply}");
    }
}

#[test]
fn reserved_middleware_headers_reply_is_error_not_failure() {
    let reply =
        r#"{"type":"middleware-headers","data":{"statusCode":307,"headers":["location: /x"]}}"#;
    assert_eq!(decode(reply).unwrap(), RouterResult::Error);
}

#[test]
fn reserved_middleware_body_reply_is_error_not_failure() {
    let reply = r#"{"type":"middleware-body","data":[1,2,3]}"#;
    assert_eq!(decode(reply).unwrap(), RouterResult::Error);
}

#[test]
fn unknown_tag_decodes_to_error() {
    assert_eq!(decode(r#"{"type":"redirect","data":{}}"#).unwrap(), RouterResult::Error);
    assert_eq!(decode(r#"{"type":"","data":0}"#).unwrap(), RouterResult::Error);
}

#[test]
fn invalid_json_is_a_call_failure() {
    let r = decode("{not json");
    assert_eq!(r, Err(RouteError::Protocol(ProtocolFault::InvalidJson)));
    assert_eq!(decode(""), Err(RouteError::Protocol(ProtocolFault::InvalidJson)));
}

#[test]
fn non_object_reply_is_a_call_failure() {
    assert_eq!(decode("42"), Err(RouteError::Protocol(ProtocolFault::NotAnObject)));
    assert_eq!(decode("[1,2]"), Err(RouteError::Protocol(ProtocolFault::NotAnObject)));
    assert_eq!(decode("\"rewrite\""), Err(RouteError::Protocol(ProtocolFault::NotAnObject)));
}

#[test]
fn missing_or_non_string_tag_is_a_call_failure() {
    assert_eq!(
        decode(r#"{"data":{"url":"/foo"}}"#),
        Err(RouteError::Protocol(ProtocolFault::MalformedPayload))
    );
    assert_eq!(
        decode(r#"{"type":7,"data":{}}"#),
        Err(RouteError::Protocol(ProtocolFault::MalformedPayload))
    );
}

#[test]
fn malformed_rewrite_payload_is_a_call_failure() {
    let bad = [
        r#"{"type":"rewrite","data":{"url":5,"headers":[]}}"#,
        r#"{"type":"rewrite","data":{"headers":[]}}"#,
        r#"{"type":"rewrite","data":{"url":"/foo","headers":["a",1]}}"#,
        r#"{"type":"rewrite","data":{"url":"/foo"}}"#,
        r#"{"type":"rewrite","data":[]}"#,
        r#"{"type":"rewrite"}"#,
    ];
    for reply in bad {
        assert_eq!(
            decode(reply),
            Err(RouteError::Protocol(ProtocolFault::MalformedPayload)),
            "reply: {reply}"
        );
    }
}

#[test]
fn malformed_status_code_is_a_call_failure() {
    let bad = [
        r#"{"type":"middleware-headers","data":{"statusCode":70000,"headers":[]}}"#,
        r#"{"type":"middleware-headers","data":{"statusCode":200.5,"headers":[]}}"#,
        r#"{"type":"middleware-headers","data":{"statusCode":-1,"headers":[]}}"#,
        r#"{"type":"middleware-headers","data":{"headers":[]}}"#,
    ];
    for reply in bad {
        assert_eq!(
            decode(reply),
            Err(RouteError::Protocol(ProtocolFault::MalformedPayload)),
            "reply: {reply}"
        );
    }
}

#[test]
fn malformed_body_bytes_are_a_call_failure() {
    let bad = [
        r#"{"type":"middleware-body","data":[256]}"#,
        r#"{"type":"middleware-body","data":[-1]}"#,
        r#"{"type":"middleware-body","data":[1.5]}"#,
        r#"{"type":"middleware-body","data":"Hi"}"#,
        r#"{"type":"full-middleware","data":{"headers":{"statusCode":200,"headers":[]},"body":[300]}}"#,
    ];
    for reply in bad {
        assert_eq!(
            decode(reply),
            Err(RouteError::Protocol(ProtocolFault::MalformedPayload)),
            "reply: {reply}"
        );
    }
}

#[test]
fn engine_error_sentinel_is_the_error_result() {
    assert_eq!(route_outcome(&EngineOutcome::Error), Ok(RouterResult::Error));
}

#[test]
fn stream_outcome_is_a_fatal_failure() {
    assert_eq!(route_outcome(&EngineOutcome::Stream), Err(RouteError::UnsupportedStream));
}

#[test]
fn extra_fields_are_ignored() {
    let reply = r#"{"type":"rewrite","extra":true,"data":{"url":"/a","headers":[],"junk":0}}"#;
    match decode(reply).unwrap() {
        RouterResult::Rewrite(rw) => assert_eq!(rw.url, "/a"),
        other => panic!("expected a rewrite, got {:?}", other),
    }
}
