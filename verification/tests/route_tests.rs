//! The invocation builder, request serialization, and the full call.

use next_router::{
    route, route_invocation, EngineOutcome, Headers, ParamValue, ProtocolFault, Query, RouteError,
    RouterRequest, RouterResult, serialize_request,
};

fn sample_request() -> RouterRequest {
    RouterRequest {
        method: "GET".to_string(),
        pathname: "/blog/post".to_string(),
        query: Query(vec![
            ("page".to_string(), ParamValue::Single("2".to_string())),
            (
                "tag".to_string(),
                ParamValue::Multiple(vec!["a".to_string(), "b".to_string()]),
            ),
        ]),
        headers: Headers(vec![(
            "accept".to_string(),
            ParamValue::Single("text/html".to_string()),
        )]),
    }
}

#[test]
fn serialized_request_text_is_exact() {
    let json = serialize_request(&sample_request());
    assert_eq!(
        json,
        r#"{"method":"GET","pathname":"/blog/post","query":{"page":"2","tag":["a","b"]},"headers":{"accept":"text/html"}}"#
    );
}

#[test]
fn serialized_request_escapes_as_json_requires() {
    let req = RouterRequest {
        method: "GET".to_string(),
        pathname: "/a\"b\\c\nd".to_string(),
        query: Query(Vec::new()),
        headers: Headers(Vec::new()),
    };
    let json = serialize_request(&req);
    assert_eq!(
        json,
        "{\"method\":\"GET\",\"pathname\":\"/a\\\"b\\\\c\\u000ad\",\"query\":{},\"headers\":{}}"
    );
    // The emitted text must read back as the same values under a real JSON
    // parser.
    let v: serde_json::Value = serde_json::from_str(&json).unwrap();
    assert_eq!(v["pathname"], serde_json::Value::String("/a\"b\\c\nd".to_string()));
    assert_eq!(v["method"], serde_json::Value::String("GET".to_string()));
}

#[test]
fn serialized_request_keeps_unicode_and_escapes_controls() {
    let req = RouterRequest {
        method: "GET".to_string(),
        pathname: "/caf\u{e9}/\u{2603}".to_string(),
        query: Query(vec![(
            "k\t".to_string(),
            ParamValue::Multiple(Vec::new()),
        )]),
        headers: Headers(Vec::new()),
    };
    let json = serialize_request(&req);
    assert_eq!(
        json,
        "{\"method\":\"GET\",\"pathname\":\"/caf\u{e9}/\u{2603}\",\"query\":{\"k\\u0009\":[]},\"headers\":{}}"
    );
    let v: serde_json::Value = serde_json::from_str(&json).unwrap();
    assert_eq!(v["pathname"], serde_json::Value::String("/caf\u{e9}/\u{2603}".to_string()));
    assert_eq!(v["query"]["k\t"], serde_json::Value::Array(Vec::new()));
}

#[test]
fn invocation_carries_both_positional_arguments_and_candidates() {
    let inv = route_invocation(
        &sample_request(),
        &vec!["js".to_string(), "ts".to_string()],
        Some("/home/user/proj".to_string()),
        "/home/user/proj/.next",
    )
    .unwrap();
    assert_eq!(inv.project_path, "/home/user/proj");
    assert_eq!(inv.intermediate_output_dir, "/home/user/proj/.next/router");
    assert_eq!(inv.request_json, serialize_request(&sample_request()));
    assert_eq!(
        inv.config_candidates,
        vec!["next.config.mjs".to_string(), "next.config.js".to_string()]
    );
    assert_eq!(
        inv.middleware_candidates,
        vec![
            "middleware.js".to_string(),
            "middleware.ts".to_string(),
            "src/middleware.js".to_string(),
            "src/middleware.ts".to_string(),
        ]
    );
}

#[test]
fn unresolvable_root_fails_before_any_engine_call() {
    let r = route_invocation(&sample_request(), &vec!["js".to_string()], None, ".next");
    assert_eq!(r, Err(RouteError::Configuration));

    // Even with an engine outcome in hand, a call without an on-disk root
    // fails with the configuration error, never with the outcome's meaning.
    let out = EngineOutcome::Value(r#"{"type":"error"}"#.to_string());
    assert_eq!(route(&sample_request(), None, &out), Err(RouteError::Configuration));
}

#[test]
fn route_decodes_the_outcome_once_the_root_resolves() {
    let req = sample_request();
    let root = Some("/proj".to_string());
    let reply = r#"{"type":"rewrite","data":{"url":"/foo","headers":[]}}"#;
    match route(&req, root, &EngineOutcome::Value(reply.to_string())).unwrap() {
        RouterResult::Rewrite(rw) => assert_eq!(rw.url, "/foo"),
        other => panic!("expected a rewrite, got {:?}", other),
    }
    assert_eq!(
        route(&req, Some("/proj".to_string()), &EngineOutcome::Error),
        Ok(RouterResult::Error)
    );
    assert_eq!(
        route(&req, Some("/proj".to_string()), &EngineOutcome::Stream),
        Err(RouteError::UnsupportedStream)
    );
    assert_eq!(
        route(
            &req,
            Some("/proj".to_string()),
            &EngineOutcome::Value("nonsense".to_string())
        ),
        Err(RouteError::Protocol(ProtocolFault::InvalidJson))
    );
}

#[test]
fn identical_calls_yield_equal_independent_results() {
    let req = sample_request();
    let reply = r#"{"type":"rewrite","data":{"url":"/foo","headers":["h:1"]}}"#;
    let first = route(
        &req,
        Some("/proj".to_string()),
        &EngineOutcome::Value(reply.to_string()),
    );
    let second = route(
        &req,
        Some("/proj".to_string()),
        &EngineOutcome::Value(reply.to_string()),
    );
    assert_eq!(first, second);
}
