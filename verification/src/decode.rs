//! Decoding the engine's JSON reply into the public result type.
//!
//! The reply is a JSON object tagged by a `"type"` field with kebab-case
//! tags.  `rewrite` and `full-middleware` carry their payloads through; the
//! reserved partial-middleware tags, the `error` tag and any unrecognized
//! tag collapse to the `Error` result; text that is not JSON, a reply that
//! is not an object, or a recognized tag over a malformed payload is a
//! protocol violation — a call failure, not a result.
//!
//! Generic JSON parsing is serde_json's, behind trusted items; every
//! decision taken on the parsed tree is verified.

use vstd::prelude::*;

use crate::json::{bytes_of_array, obj_get, spec_bytes_of, spec_lookup, spec_strings_of,
    strings_of_array, JsonValue};
use crate::messages::{spec_msg_to_result, FullMiddlewareRep, FullMiddlewareResponse,
    MiddlewareBodyResponse, MiddlewareHeadersRep, MiddlewareHeadersResponse, MsgRep,
    ProtocolFault, ResultRep, RewriteRep, RewriteResponse, RouteError, RouterIncomingMessage,
    RouterResult};
use crate::text::{clone_string, str_eq};

verus! {

#[verifier::external_type_specification]
#[verifier::external_body]
pub struct ExValue(serde_json::Value);

#[verifier::external_type_specification]
#[verifier::external_body]
pub struct ExError(serde_json::Error);

/// The router's tree for what a `serde_json::Value` holds: a function of
/// the value alone.
pub uninterp spec fn json_contents(v: serde_json::Value) -> JsonValue;

/// What parsing a reply text yields: the tree of the JSON document the
/// parser accepts the text as, or `None` where it rejects the text.  A
/// function of the text alone.
pub uninterp spec fn parsed_json(text: Seq<char>) -> Option<JsonValue>;

/// Relies on `serde_json::from_str::<serde_json::Value>`: it returns `Ok`
/// exactly on the texts it accepts as one JSON document, and what it parses
/// depends on the text alone.
#[verifier::external_body]
fn parse_json_value(text: &str) -> (r: Result<serde_json::Value, serde_json::Error>)
    ensures
        match r {
            Ok(v) => parsed_json(text@) == Some(json_contents(v)),
            Err(_) => parsed_json(text@) is None,
        },
{
    serde_json::from_str::<serde_json::Value>(text)
}

/// Relies on `serde_json::Value`'s variant structure and
/// `serde_json::Number::as_u64` (`Some` exactly for integers a `u64`
/// holds): rebuilds the value as the router's tree, arm for arm.
#[verifier::external_body]
fn tree_of(v: serde_json::Value) -> (r: JsonValue)
    ensures
        r == json_contents(v),
{
    match v {
        serde_json::Value::Null => JsonValue::Null,
        serde_json::Value::Bool(b) => JsonValue::Bool(b),
        serde_json::Value::Number(n) => JsonValue::Num(n.as_u64()),
        serde_json::Value::String(s) => JsonValue::Str(s),
        serde_json::Value::Array(a) => JsonValue::Arr(a.into_iter().map(tree_of).collect()),
        serde_json::Value::Object(m) => JsonValue::Obj(
            m.into_iter().map(|(k, x)| (k, tree_of(x))).collect(),
        ),
    }
}

/// The `{statusCode, headers}` payload read from a tree, or the fault.
pub open spec fn spec_mw_headers(d: JsonValue) -> Result<MiddlewareHeadersRep, ProtocolFault> {
    match d {
        JsonValue::Obj(fields) => match (
            spec_lookup(fields@, "statusCode"@),
            spec_lookup(fields@, "headers"@),
        ) {
            (Some(JsonValue::Num(Some(n))), Some(JsonValue::Arr(hs))) => if n <= 0xffff {
                match spec_strings_of(hs@) {
                    Some(headers) => Ok(MiddlewareHeadersRep { status_code: n as u16, headers }),
                    None => Err(ProtocolFault::MalformedPayload),
                }
            } else {
                Err(ProtocolFault::MalformedPayload)
            },
            _ => Err(ProtocolFault::MalformedPayload),
        },
        _ => Err(ProtocolFault::MalformedPayload),
    }
}

/// The `{url, headers}` payload read from a tree, or the fault.
pub open spec fn spec_rewrite(d: JsonValue) -> Result<RewriteRep, ProtocolFault> {
    match d {
        JsonValue::Obj(fields) => match (
            spec_lookup(fields@, "url"@),
            spec_lookup(fields@, "headers"@),
        ) {
            (Some(JsonValue::Str(url)), Some(JsonValue::Arr(hs))) => match spec_strings_of(hs@) {
                Some(headers) => Ok(RewriteRep { url: url@, headers }),
                None => Err(ProtocolFault::MalformedPayload),
            },
            _ => Err(ProtocolFault::MalformedPayload),
        },
        _ => Err(ProtocolFault::MalformedPayload),
    }
}

/// The message meant by one tag and its payload.  Recognized tags demand
/// their payload shape; the `error` tag and every unrecognized tag mean
/// `Error` whatever the payload holds, the protocol's safe default.
pub open spec fn spec_decode_tagged(tag: Seq<char>, data: Option<JsonValue>) -> Result<
    MsgRep,
    ProtocolFault,
> {
    if tag == "rewrite"@ {
        match data {
            Some(d) => match spec_rewrite(d) {
                Ok(rw) => Ok(MsgRep::Rewrite(rw)),
                Err(f) => Err(f),
            },
            None => Err(ProtocolFault::MalformedPayload),
        }
    } else if tag == "middleware-headers"@ {
        match data {
            Some(d) => match spec_mw_headers(d) {
                Ok(h) => Ok(MsgRep::MiddlewareHeaders(h)),
                Err(f) => Err(f),
            },
            None => Err(ProtocolFault::MalformedPayload),
        }
    } else if tag == "middleware-body"@ {
        match data {
            Some(JsonValue::Arr(items)) => match spec_bytes_of(items@) {
                Some(bs) => Ok(MsgRep::MiddlewareBody(bs)),
                None => Err(ProtocolFault::MalformedPayload),
            },
            _ => Err(ProtocolFault::MalformedPayload),
        }
    } else if tag == "full-middleware"@ {
        match data {
            Some(JsonValue::Obj(fields)) => match (
                spec_lookup(fields@, "headers"@),
                spec_lookup(fields@, "body"@),
            ) {
                (Some(h), Some(JsonValue::Arr(body))) => match (
                    spec_mw_headers(h),
                    spec_bytes_of(body@),
                ) {
                    (Ok(hr), Some(bs)) => Ok(
                        MsgRep::FullMiddleware(FullMiddlewareRep { headers: hr, body: bs }),
                    ),
                    _ => Err(ProtocolFault::MalformedPayload),
                },
                _ => Err(ProtocolFault::MalformedPayload),
            },
            _ => Err(ProtocolFault::MalformedPayload),
        }
    } else {
        Ok(MsgRep::Error)
    }
}

/// The message a reply tree means, or the protocol fault it commits.
pub open spec fn spec_decode_tree(t: JsonValue) -> Result<MsgRep, ProtocolFault> {
    match t {
        JsonValue::Obj(fields) => match spec_lookup(fields@, "type"@) {
            Some(JsonValue::Str(tag)) => spec_decode_tagged(tag@, spec_lookup(fields@, "data"@)),
            _ => Err(ProtocolFault::MalformedPayload),
        },
        _ => Err(ProtocolFault::NotAnObject),
    }
}

/// Reads a `{statusCode, headers}` payload.
fn decode_mw_headers(d: &JsonValue) -> (r: Result<MiddlewareHeadersResponse, ProtocolFault>)
    ensures
        match r {
            Ok(h) => spec_mw_headers(*d) == Ok::<MiddlewareHeadersRep, ProtocolFault>(h@),
            Err(f) => spec_mw_headers(*d) == Err::<MiddlewareHeadersRep, ProtocolFault>(f),
        },
{
    let fields = match d {
        JsonValue::Obj(fields) => fields,
        _ => {
            return Err(ProtocolFault::MalformedPayload);
        },
    };
    let status_code: u16 = match obj_get(fields, "statusCode") {
        Some(JsonValue::Num(Some(n))) => {
            if *n <= 0xffff {
                *n as u16
            } else {
                return Err(ProtocolFault::MalformedPayload);
            }
        },
        _ => {
            return Err(ProtocolFault::MalformedPayload);
        },
    };
    let headers = match obj_get(fields, "headers") {
        Some(JsonValue::Arr(items)) => match strings_of_array(items) {
            Some(hs) => hs,
            None => {
                return Err(ProtocolFault::MalformedPayload);
            },
        },
        _ => {
            return Err(ProtocolFault::MalformedPayload);
        },
    };
    Ok(MiddlewareHeadersResponse { status_code, headers })
}

/// Decodes a reply tree into the tagged message it means.
pub fn decode_tree(t: &JsonValue) -> (r: Result<RouterIncomingMessage, ProtocolFault>)
    ensures
        match r {
            Ok(m) => spec_decode_tree(*t) == Ok::<MsgRep, ProtocolFault>(m@),
            Err(f) => spec_decode_tree(*t) == Err::<MsgRep, ProtocolFault>(f),
        },
{
    let fields = match t {
        JsonValue::Obj(fields) => fields,
        _ => {
            return Err(ProtocolFault::NotAnObject);
        },
    };
    let tag: &String = match obj_get(fields, "type") {
        Some(JsonValue::Str(s)) => s,
        _ => {
            return Err(ProtocolFault::MalformedPayload);
        },
    };
    let data = obj_get(fields, "data");
    if str_eq(tag.as_str(), "rewrite") {
        let dfields = match data {
            Some(JsonValue::Obj(f)) => f,
            _ => {
                return Err(ProtocolFault::MalformedPayload);
            },
        };
        let url = match obj_get(dfields, "url") {
            Some(JsonValue::Str(u)) => clone_string(u),
            _ => {
                return Err(ProtocolFault::MalformedPayload);
            },
        };
        let headers = match obj_get(dfields, "headers") {
            Some(JsonValue::Arr(items)) => match strings_of_array(items) {
                Some(hs) => hs,
                None => {
                    return Err(ProtocolFault::MalformedPayload);
                },
            },
            _ => {
                return Err(ProtocolFault::MalformedPayload);
            },
        };
        Ok(RouterIncomingMessage::Rewrite { data: RewriteResponse { url, headers } })
    } else if str_eq(tag.as_str(), "middleware-headers") {
        let d = match data {
            Some(d) => d,
            None => {
                return Err(ProtocolFault::MalformedPayload);
            },
        };
        match decode_mw_headers(d) {
            Ok(h) => Ok(RouterIncomingMessage::MiddlewareHeaders { data: h }),
            Err(f) => Err(f),
        }
    } else if str_eq(tag.as_str(), "middleware-body") {
        match data {
            Some(JsonValue::Arr(items)) => match bytes_of_array(items) {
                Some(bs) => Ok(
                    RouterIncomingMessage::MiddlewareBody { data: MiddlewareBodyResponse(bs) },
                ),
                None => Err(ProtocolFault::MalformedPayload),
            },
            _ => Err(ProtocolFault::MalformedPayload),
        }
    } else if str_eq(tag.as_str(), "full-middleware") {
        let dfields = match data {
            Some(JsonValue::Obj(f)) => f,
            _ => {
                return Err(ProtocolFault::MalformedPayload);
            },
        };
        let h = match obj_get(dfields, "headers") {
            Some(h) => h,
            None => {
                return Err(ProtocolFault::MalformedPayload);
            },
        };
        let body = match obj_get(dfields, "body") {
            Some(JsonValue::Arr(items)) => match bytes_of_array(items) {
                Some(bs) => bs,
                None => {
                    return Err(ProtocolFault::MalformedPayload);
                },
            },
            _ => {
                return Err(ProtocolFault::MalformedPayload);
            },
        };
        match decode_mw_headers(h) {
            Ok(headers) => Ok(
                RouterIncomingMessage::FullMiddleware {
                    data: FullMiddlewareResponse { headers, body },
                },
            ),
            Err(f) => Err(f),
        }
    } else {
        Ok(RouterIncomingMessage::Error)
    }
}

/// What a reply text means: the result it decodes to, or the call failure
/// it provokes.
pub open spec fn spec_decode_reply(text: Seq<char>) -> Result<ResultRep, RouteError> {
    match parsed_json(text) {
        None => Err(RouteError::Protocol(ProtocolFault::InvalidJson)),
        Some(t) => match spec_decode_tree(t) {
            Ok(m) => Ok(spec_msg_to_result(m)),
            Err(f) => Err(RouteError::Protocol(f)),
        },
    }
}

/// Parses and decodes the engine's textual reply value.
pub fn decode_reply(text: &str) -> (r: Result<RouterResult, RouteError>)
    ensures
        match r {
            Ok(res) => spec_decode_reply(text@) == Ok::<ResultRep, RouteError>(res@),
            Err(e) => spec_decode_reply(text@) == Err::<ResultRep, RouteError>(e),
        },
{
    let v = match parse_json_value(text) {
        Ok(v) => v,
        Err(_) => {
            return Err(RouteError::Protocol(ProtocolFault::InvalidJson));
        },
    };
    let t = tree_of(v);
    match decode_tree(&t) {
        Ok(m) => Ok(RouterResult::from(m)),
        Err(f) => Err(RouteError::Protocol(f)),
    }
}

/// A reply tagged `error` decodes to the `Error` result whatever diagnostic
/// payload it carries — even none at all.
pub proof fn lemma_error_reply_decodes_to_error(t: JsonValue)
    requires
        ({
            &&& t matches JsonValue::Obj(fields)
            &&& spec_lookup(fields@, "type"@) matches Some(tag)
            &&& tag matches JsonValue::Str(s)
            &&& s@ == "error"@
        }),
    ensures
        spec_decode_tree(t) == Ok::<MsgRep, ProtocolFault>(MsgRep::Error),
{
    reveal_strlit("error");
    reveal_strlit("rewrite");
    reveal_strlit("middleware-headers");
    reveal_strlit("middleware-body");
    reveal_strlit("full-middleware");
    assert("error"@.len() == 5);
    assert("rewrite"@.len() == 7);
    assert("middleware-headers"@.len() == 18);
    assert("middleware-body"@.len() == 15);
    assert("full-middleware"@.len() == 15);
    assert("error"@ != "rewrite"@);
    assert("error"@ != "middleware-headers"@);
    assert("error"@ != "middleware-body"@);
    assert("error"@ != "full-middleware"@);
}

/// A reply carrying an unrecognized tag decodes to the `Error` result, the
/// forward-compatible default, never to a call failure.
pub proof fn lemma_unknown_tag_decodes_to_error(t: JsonValue)
    requires
        ({
            &&& t matches JsonValue::Obj(fields)
            &&& spec_lookup(fields@, "type"@) matches Some(tag)
            &&& tag matches JsonValue::Str(s)
            &&& s@ != "rewrite"@
            &&& s@ != "middleware-headers"@
            &&& s@ != "middleware-body"@
            &&& s@ != "full-middleware"@
        }),
    ensures
        spec_decode_tree(t) == Ok::<MsgRep, ProtocolFault>(MsgRep::Error),
{
}

/// A reply tagged with the reserved `middleware-headers` tag over a
/// well-formed payload decodes to the `Error` result — not yet actionable,
/// but no call failure.
pub proof fn lemma_reserved_tag_is_not_a_failure(t: JsonValue)
    requires
        ({
            &&& t matches JsonValue::Obj(fields)
            &&& spec_lookup(fields@, "type"@) matches Some(tag)
            &&& tag matches JsonValue::Str(s)
            &&& s@ == "middleware-headers"@
            &&& spec_lookup(fields@, "data"@) matches Some(d)
            &&& spec_mw_headers(d) is Ok
        }),
    ensures
        spec_decode_tree(t) matches Ok(m) && spec_msg_to_result(m) == ResultRep::Error,
{
    reveal_strlit("middleware-headers");
    reveal_strlit("rewrite");
    assert("middleware-headers"@.len() == 18);
    assert("rewrite"@.len() == 7);
    assert("middleware-headers"@ != "rewrite"@);
}

} // verus!
