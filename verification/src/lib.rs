//! Request-routing evaluator for a JavaScript/TypeScript dev server.
//!
//! Given an HTTP-like request descriptor, the router decides whether the
//! project's routing configuration rewrites the request to another URL or
//! runs custom middleware that produces a full response.  The dynamic parts
//! (module compilation, the isolated script engine, the filesystem) belong
//! to external collaborators; this crate holds the verified decision logic:
//! candidate-file generation, first-match config location, auxiliary module
//! aggregation, request serialization, and decoding of the engine's tagged
//! JSON reply into a closed result type.

mod config;
mod decode;
mod json;
mod messages;
mod route;
mod serialize;
mod text;

pub use config::{extra_config, extra_configs, lemma_config_precedence, locate_first,
    middleware_files, next_configs, router_entry_asset, router_entry_path, spec_first_existing,
    spec_first_existing_from, spec_middleware_files, spec_next_configs, ModuleHandle};
pub use decode::{decode_reply, decode_tree, json_contents, lemma_error_reply_decodes_to_error,
    lemma_reserved_tag_is_not_a_failure, lemma_unknown_tag_decodes_to_error, parsed_json,
    spec_decode_reply, spec_decode_tagged, spec_decode_tree, spec_mw_headers, spec_rewrite};
pub use json::{bytes_of_array, obj_get, spec_bytes_of, spec_lookup, spec_lookup_from,
    spec_strings_of, strings_of_array, JsonValue};
pub use messages::{FullMiddlewareRep, FullMiddlewareResponse, Headers, MiddlewareBodyResponse,
    MiddlewareHeadersRep, MiddlewareHeadersResponse, MsgRep, ParamRep, ParamValue, ProtocolFault,
    Query, RequestRep, ResultRep, RewriteRep, RewriteResponse, RouteError, RouterIncomingMessage,
    RouterRequest, RouterResult, params_rep, spec_msg_to_result, strings_rep};
pub use route::{lemma_route_is_deterministic, lemma_route_is_total,
    lemma_unresolved_root_fails_before_invoke, root_rep, route, route_invocation, route_outcome,
    spec_route, spec_route_invocation, spec_route_outcome, EngineOutcome, InvocationRep,
    OutcomeRep, RouterInvocation};
pub use serialize::{entry_json, escaped, escaped_char, joined, json_of_request, json_string,
    param_json, params_json, serialize_request, spec_hex_digit};
pub use text::str_eq;
