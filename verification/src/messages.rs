//! The request/response data types of the router and their mathematical
//! models, plus the error taxonomy of a single routing call.

use vstd::prelude::*;

verus! {

/// The value(s) bound to one query parameter or header name.
#[derive(Debug, Clone, PartialEq)]
pub enum ParamValue {
    Single(String),
    Multiple(Vec<String>),
}

/// Model of [`ParamValue`].
#[verifier::ext_equal]
pub enum ParamRep {
    Single(Seq<char>),
    Multiple(Seq<Seq<char>>),
}

impl View for ParamValue {
    type V = ParamRep;

    open spec fn view(&self) -> ParamRep {
        match self {
            ParamValue::Single(s) => ParamRep::Single(s@),
            ParamValue::Multiple(ss) => ParamRep::Multiple(ss@.map_values(|s: String| s@)),
        }
    }
}

/// The query parameters of a request, in order.
#[derive(Debug, Clone, PartialEq)]
pub struct Query(pub Vec<(String, ParamValue)>);

/// The headers of a request, in order.
#[derive(Debug, Clone, PartialEq)]
pub struct Headers(pub Vec<(String, ParamValue)>);

/// Model of an ordered string-to-value(s) mapping.
pub open spec fn params_rep(ps: Seq<(String, ParamValue)>) -> Seq<(Seq<char>, ParamRep)> {
    ps.map_values(|p: (String, ParamValue)| (p.0@, p.1@))
}

impl View for Query {
    type V = Seq<(Seq<char>, ParamRep)>;

    open spec fn view(&self) -> Seq<(Seq<char>, ParamRep)> {
        params_rep(self.0@)
    }
}

impl View for Headers {
    type V = Seq<(Seq<char>, ParamRep)>;

    open spec fn view(&self) -> Seq<(Seq<char>, ParamRep)> {
        params_rep(self.0@)
    }
}

/// An inbound request descriptor, constructed once per request by the caller.
#[derive(Debug, Clone, PartialEq)]
pub struct RouterRequest {
    pub method: String,
    pub pathname: String,
    pub query: Query,
    pub headers: Headers,
}

/// Model of [`RouterRequest`].
#[verifier::ext_equal]
pub struct RequestRep {
    pub method: Seq<char>,
    pub pathname: Seq<char>,
    pub query: Seq<(Seq<char>, ParamRep)>,
    pub headers: Seq<(Seq<char>, ParamRep)>,
}

impl View for RouterRequest {
    type V = RequestRep;

    open spec fn view(&self) -> RequestRep {
        RequestRep {
            method: self.method@,
            pathname: self.pathname@,
            query: self.query@,
            headers: self.headers@,
        }
    }
}

/// A rewrite decision: the request is redirected to `url`.
#[derive(Debug, Clone, PartialEq)]
pub struct RewriteResponse {
    pub url: String,
    pub headers: Vec<String>,
}

/// Model of [`RewriteResponse`].
#[verifier::ext_equal]
pub struct RewriteRep {
    pub url: Seq<char>,
    pub headers: Seq<Seq<char>>,
}

/// The character sequences of a vector of strings.
pub open spec fn strings_rep(ss: Seq<String>) -> Seq<Seq<char>> {
    ss.map_values(|s: String| s@)
}

impl View for RewriteResponse {
    type V = RewriteRep;

    open spec fn view(&self) -> RewriteRep {
        RewriteRep { url: self.url@, headers: strings_rep(self.headers@) }
    }
}

/// The header part of a middleware response.
#[derive(Debug, Clone, PartialEq)]
pub struct MiddlewareHeadersResponse {
    pub status_code: u16,
    pub headers: Vec<String>,
}

/// Model of [`MiddlewareHeadersResponse`].
#[verifier::ext_equal]
pub struct MiddlewareHeadersRep {
    pub status_code: u16,
    pub headers: Seq<Seq<char>>,
}

impl View for MiddlewareHeadersResponse {
    type V = MiddlewareHeadersRep;

    open spec fn view(&self) -> MiddlewareHeadersRep {
        MiddlewareHeadersRep { status_code: self.status_code, headers: strings_rep(self.headers@) }
    }
}

/// The body part of a middleware response (reserved as a standalone outcome).
#[derive(Debug, Clone, PartialEq)]
pub struct MiddlewareBodyResponse(pub Vec<u8>);

impl View for MiddlewareBodyResponse {
    type V = Seq<u8>;

    open spec fn view(&self) -> Seq<u8> {
        self.0@
    }
}

/// A full middleware response: headers plus raw body bytes.
#[derive(Debug, Clone, PartialEq)]
pub struct FullMiddlewareResponse {
    pub headers: MiddlewareHeadersResponse,
    pub body: Vec<u8>,
}

/// Model of [`FullMiddlewareResponse`].
#[verifier::ext_equal]
pub struct FullMiddlewareRep {
    pub headers: MiddlewareHeadersRep,
    pub body: Seq<u8>,
}

impl View for FullMiddlewareResponse {
    type V = FullMiddlewareRep;

    open spec fn view(&self) -> FullMiddlewareRep {
        FullMiddlewareRep { headers: self.headers@, body: self.body@ }
    }
}

/// The engine's tagged reply message, one variant per recognized tag.
/// Replies whose tag is unrecognized decode to `Error`, the safe default.
#[derive(Debug, Clone, PartialEq)]
pub enum RouterIncomingMessage {
    Rewrite { data: RewriteResponse },
    MiddlewareHeaders { data: MiddlewareHeadersResponse },
    MiddlewareBody { data: MiddlewareBodyResponse },
    FullMiddleware { data: FullMiddlewareResponse },
    Error,
}

/// Model of [`RouterIncomingMessage`].
#[verifier::ext_equal]
pub enum MsgRep {
    Rewrite(RewriteRep),
    MiddlewareHeaders(MiddlewareHeadersRep),
    MiddlewareBody(Seq<u8>),
    FullMiddleware(FullMiddlewareRep),
    Error,
}

impl View for RouterIncomingMessage {
    type V = MsgRep;

    open spec fn view(&self) -> MsgRep {
        match self {
            RouterIncomingMessage::Rewrite { data } => MsgRep::Rewrite(data@),
            RouterIncomingMessage::MiddlewareHeaders { data } => MsgRep::MiddlewareHeaders(data@),
            RouterIncomingMessage::MiddlewareBody { data } => MsgRep::MiddlewareBody(data@),
            RouterIncomingMessage::FullMiddleware { data } => MsgRep::FullMiddleware(data@),
            RouterIncomingMessage::Error => MsgRep::Error,
        }
    }
}

/// The routing decision handed back to the dev server; exactly one variant
/// per invocation.  `Error` means "no routing decision; fall back".
#[derive(Debug, Clone, PartialEq)]
pub enum RouterResult {
    Rewrite(RewriteResponse),
    FullMiddleware(FullMiddlewareResponse),
    Error,
}

/// Model of [`RouterResult`].
#[verifier::ext_equal]
pub enum ResultRep {
    Rewrite(RewriteRep),
    FullMiddleware(FullMiddlewareRep),
    Error,
}

impl View for RouterResult {
    type V = ResultRep;

    open spec fn view(&self) -> ResultRep {
        match self {
            RouterResult::Rewrite(data) => ResultRep::Rewrite(data@),
            RouterResult::FullMiddleware(data) => ResultRep::FullMiddleware(data@),
            RouterResult::Error => ResultRep::Error,
        }
    }
}

/// How a decoded message collapses into the public result: rewrites and full
/// middleware responses pass through; everything else, including the two
/// reserved partial-middleware messages, becomes `Error`.
pub open spec fn spec_msg_to_result(m: MsgRep) -> ResultRep {
    match m {
        MsgRep::Rewrite(data) => ResultRep::Rewrite(data),
        MsgRep::FullMiddleware(data) => ResultRep::FullMiddleware(data),
        _ => ResultRep::Error,
    }
}

impl vstd::std_specs::convert::FromSpecImpl<RouterIncomingMessage> for RouterResult {
    open spec fn obeys_from_spec() -> bool {
        true
    }

    open spec fn from_spec(m: RouterIncomingMessage) -> RouterResult {
        match m {
            RouterIncomingMessage::Rewrite { data } => RouterResult::Rewrite(data),
            RouterIncomingMessage::FullMiddleware { data } => RouterResult::FullMiddleware(data),
            _ => RouterResult::Error,
        }
    }
}

impl From<RouterIncomingMessage> for RouterResult {
    fn from(value: RouterIncomingMessage) -> Self {
        match value {
            RouterIncomingMessage::Rewrite { data } => Self::Rewrite(data),
            RouterIncomingMessage::FullMiddleware { data } => Self::FullMiddleware(data),
            _ => Self::Error,
        }
    }
}

/// Why the reply could not be decoded: the protocol violation it commits.
#[derive(Debug, Clone, Copy, PartialEq, Eq, Structural)]
pub enum ProtocolFault {
    /// The reply is not valid JSON text.
    InvalidJson,
    /// The reply parses, but is not a JSON object.
    NotAnObject,
    /// The reply object's shape beyond the tag is not the tag's payload shape.
    MalformedPayload,
}

/// A failed routing call, as distinct from the `RouterResult::Error` result:
/// these are tooling failures that the dev server surfaces to the developer.
#[derive(Debug, Clone, Copy, PartialEq, Eq, Structural)]
pub enum RouteError {
    /// The project root does not map to a real on-disk directory.
    Configuration,
    /// The engine's reply violated the wire protocol.
    Protocol(ProtocolFault),
    /// The engine returned a streaming value, which the single-shot router
    /// protocol does not support.
    UnsupportedStream,
}

} // verus!
