//! The routing call itself, split at the engine boundary.
//!
//! One invocation walks a fixed machine: config discovery and router-module
//! compilation proceed independently, their module handles join into the
//! watch-only side list, then the engine evaluates the compiled router with
//! two positional JSON arguments and hands back one outcome.  The engine —
//! async, memoized, out of process — is the caller's; this module holds the
//! two decisions around it: what to hand the engine ([`route_invocation`]),
//! and what its outcome means ([`route_outcome`]).  A single call is
//! one-shot: no retry lives here, failure recovery belongs to the build
//! graph that re-issues the call.

use vstd::prelude::*;

use crate::config::{middleware_files, next_configs, spec_middleware_files, spec_next_configs};
use crate::decode::{decode_reply, spec_decode_reply};
use crate::messages::{strings_rep, RequestRep, ResultRep, RouteError, RouterRequest,
    RouterResult};
use crate::serialize::{json_of_request, serialize_request};

verus! {

/// The engine's raw outcome for one evaluation call.
#[derive(Debug, Clone, PartialEq)]
pub enum EngineOutcome {
    /// A completed evaluation's textual JSON reply.
    Value(String),
    /// The engine's error sentinel: the evaluated routing logic failed; its
    /// diagnostics already went through the engine's own channel.
    Error,
    /// A streaming value, which the single-shot router protocol refuses.
    Stream,
}

/// Model of [`EngineOutcome`].
#[verifier::ext_equal]
pub enum OutcomeRep {
    Value(Seq<char>),
    Error,
    Stream,
}

impl View for EngineOutcome {
    type V = OutcomeRep;

    open spec fn view(&self) -> OutcomeRep {
        match self {
            EngineOutcome::Value(text) => OutcomeRep::Value(text@),
            EngineOutcome::Error => OutcomeRep::Error,
            EngineOutcome::Stream => OutcomeRep::Stream,
        }
    }
}

/// Everything this component decides about one evaluation call: the two
/// positional arguments, and the candidate filenames whose first on-disk
/// matches become the watch-only module list.
#[derive(Debug, Clone, PartialEq)]
pub struct RouterInvocation {
    /// The serialized request: the call's first positional JSON argument.
    pub request_json: String,
    /// The verified on-disk project root: the second positional argument,
    /// and the evaluation working directory.
    pub project_path: String,
    /// Where the engine keeps this call's intermediate output: the
    /// `router` directory under the caller's intermediate output path.
    pub intermediate_output_dir: String,
    /// Candidate filenames for the project's `next.config` file.
    pub config_candidates: Vec<String>,
    /// Candidate filenames for the project's middleware entry.
    pub middleware_candidates: Vec<String>,
}

/// Model of [`RouterInvocation`].
#[verifier::ext_equal]
pub struct InvocationRep {
    pub request_json: Seq<char>,
    pub project_path: Seq<char>,
    pub intermediate_output_dir: Seq<char>,
    pub config_candidates: Seq<Seq<char>>,
    pub middleware_candidates: Seq<Seq<char>>,
}

impl View for RouterInvocation {
    type V = InvocationRep;

    open spec fn view(&self) -> InvocationRep {
        InvocationRep {
            request_json: self.request_json@,
            project_path: self.project_path@,
            intermediate_output_dir: self.intermediate_output_dir@,
            config_candidates: strings_rep(self.config_candidates@),
            middleware_candidates: strings_rep(self.middleware_candidates@),
        }
    }
}

/// The on-disk project root, as the model sees it.
pub open spec fn root_rep(root: Option<String>) -> Option<Seq<char>> {
    match root {
        Some(p) => Some(p@),
        None => None,
    }
}

/// What the engine is handed, or why the call fails first: without a real
/// on-disk project root there is nothing the disk-based module resolution
/// could run against, so the call fails before any invocation exists.
pub open spec fn spec_route_invocation(
    req: RequestRep,
    exts: Seq<Seq<char>>,
    root: Option<Seq<char>>,
    intermediate_output_path: Seq<char>,
) -> Result<InvocationRep, RouteError> {
    match root {
        None => Err(RouteError::Configuration),
        Some(p) => Ok(
            InvocationRep {
                request_json: json_of_request(req),
                project_path: p,
                intermediate_output_dir: intermediate_output_path + "/router"@,
                config_candidates: spec_next_configs(),
                middleware_candidates: spec_middleware_files(exts),
            },
        ),
    }
}

/// Prepares one evaluation call: serializes the request and fixes the
/// candidate lists.  Fails with [`RouteError::Configuration`] — before any
/// engine call can be described — exactly when the project root has no
/// on-disk path.
pub fn route_invocation(
    request: &RouterRequest,
    page_extensions: &Vec<String>,
    disk_root: Option<String>,
    intermediate_output_path: &str,
) -> (r: Result<RouterInvocation, RouteError>)
    ensures
        match r {
            Ok(inv) => spec_route_invocation(
                request@,
                strings_rep(page_extensions@),
                root_rep(disk_root),
                intermediate_output_path@,
            ) == Ok::<InvocationRep, RouteError>(inv@),
            Err(e) => spec_route_invocation(
                request@,
                strings_rep(page_extensions@),
                root_rep(disk_root),
                intermediate_output_path@,
            ) == Err::<InvocationRep, RouteError>(e),
        },
{
    match disk_root {
        None => Err(RouteError::Configuration),
        Some(project_path) => {
            let request_json = serialize_request(request);
            let intermediate_output_dir = String::from_str(intermediate_output_path).concat(
                "/router",
            );
            let config_candidates = next_configs();
            let middleware_candidates = middleware_files(page_extensions);
            let inv = RouterInvocation {
                request_json,
                project_path,
                intermediate_output_dir,
                config_candidates,
                middleware_candidates,
            };
            proof {
                assert(strings_rep(inv.config_candidates@) =~= spec_next_configs());
                assert(strings_rep(inv.middleware_candidates@) =~= spec_middleware_files(
                    strings_rep(page_extensions@),
                ));
                assert(inv@ =~= spec_route_invocation(
                    request@,
                    strings_rep(page_extensions@),
                    root_rep(Some(inv.project_path)),
                    intermediate_output_path@,
                )->Ok_0);
            }
            Ok(inv)
        },
    }
}

/// What one engine outcome means: a textual value decodes; the error
/// sentinel is the `Error` result, already reported elsewhere; a stream is
/// a fatal protocol violation, never coerced into any result.
pub open spec fn spec_route_outcome(o: OutcomeRep) -> Result<ResultRep, RouteError> {
    match o {
        OutcomeRep::Value(text) => spec_decode_reply(text),
        OutcomeRep::Error => Ok(ResultRep::Error),
        OutcomeRep::Stream => Err(RouteError::UnsupportedStream),
    }
}

/// Classifies and decodes the engine's outcome.
pub fn route_outcome(outcome: &EngineOutcome) -> (r: Result<RouterResult, RouteError>)
    ensures
        match r {
            Ok(res) => spec_route_outcome(outcome@) == Ok::<ResultRep, RouteError>(res@),
            Err(e) => spec_route_outcome(outcome@) == Err::<ResultRep, RouteError>(e),
        },
{
    match outcome {
        EngineOutcome::Value(text) => decode_reply(text.as_str()),
        EngineOutcome::Error => Ok(RouterResult::Error),
        EngineOutcome::Stream => Err(RouteError::UnsupportedStream),
    }
}

/// The routing call end to end: what it returns once the engine, having
/// been handed the invocation, answered with `o` — or why it failed before
/// the engine was ever reached.
pub open spec fn spec_route(req: RequestRep, root: Option<Seq<char>>, o: OutcomeRep) -> Result<
    ResultRep,
    RouteError,
> {
    match root {
        None => Err(RouteError::Configuration),
        Some(_) => spec_route_outcome(o),
    }
}

/// One full routing call over the engine's answers: `disk_root` is the
/// engine's resolution of the project root, `outcome` its evaluation of the
/// invocation that [`route_invocation`] describes for this request.
pub fn route(
    request: &RouterRequest,
    disk_root: Option<String>,
    outcome: &EngineOutcome,
) -> (r: Result<RouterResult, RouteError>)
    ensures
        match r {
            Ok(res) => spec_route(request@, root_rep(disk_root), outcome@) == Ok::<
                ResultRep,
                RouteError,
            >(res@),
            Err(e) => spec_route(request@, root_rep(disk_root), outcome@) == Err::<
                ResultRep,
                RouteError,
            >(e),
        },
{
    match disk_root {
        None => Err(RouteError::Configuration),
        Some(_) => route_outcome(outcome),
    }
}

/// For every request, root and engine outcome, a routing call yields
/// exactly one of the three result variants — rewrite, full middleware, or
/// error — or fails with one of the three call-failure kinds; nothing else.
pub proof fn lemma_route_is_total(req: RequestRep, root: Option<Seq<char>>, o: OutcomeRep)
    ensures
        match spec_route(req, root, o) {
            Ok(res) => res is Rewrite || res is FullMiddleware || res is Error,
            Err(e) => e is Configuration || e is Protocol || e is UnsupportedStream,
        },
{
}

/// A project root with no on-disk path fails the call with a configuration
/// error before any engine call exists: no invocation is produced, and no
/// engine outcome whatsoever could change the answer.
pub proof fn lemma_unresolved_root_fails_before_invoke(
    req: RequestRep,
    exts: Seq<Seq<char>>,
    out_path: Seq<char>,
    o1: OutcomeRep,
    o2: OutcomeRep,
)
    ensures
        spec_route_invocation(req, exts, None, out_path) == Err::<InvocationRep, RouteError>(
            RouteError::Configuration,
        ),
        spec_route(req, None, o1) == Err::<ResultRep, RouteError>(RouteError::Configuration),
        spec_route(req, None, o1) == spec_route(req, None, o2),
{
}

/// The router holds no state of its own: two calls over the same request,
/// root and engine outcome — concurrent or not, their sub-computations
/// shared by the engine's cache or not — decode to equal results, each its
/// own value.
pub proof fn lemma_route_is_deterministic(
    req1: RequestRep,
    req2: RequestRep,
    root1: Option<Seq<char>>,
    root2: Option<Seq<char>>,
    o1: OutcomeRep,
    o2: OutcomeRep,
)
    requires
        req1 == req2,
        root1 == root2,
        o1 == o2,
    ensures
        spec_route(req1, root1, o1) == spec_route(req2, root2, o2),
{
}

} // verus!
