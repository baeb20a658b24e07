//! Locating the project's routing-configuration files and aggregating their
//! compiled-module handles for build-graph tracking.
//!
//! The filesystem probe and the compiler are external collaborators: the
//! caller reports, for each candidate filename, whether it exists on disk,
//! and hands back one opaque handle per module it compiled.  Everything that
//! is decided here — candidate order, first-match selection, aggregation —
//! is verified.

use vstd::prelude::*;

use crate::text::clone_string;

verus! {

/// An opaque token for a compiled module, owned by the external build graph;
/// the router only aggregates these so the graph watches the right files.
#[derive(Debug, Clone, Copy, PartialEq, Eq, Structural)]
pub struct ModuleHandle(pub u64);

/// The `next.config` candidate list, in selection order.
pub open spec fn spec_next_configs() -> Seq<Seq<char>> {
    seq!["next.config.mjs"@, "next.config.js"@]
}

/// The middleware candidate list: `middleware.<ext>` for every extension,
/// then `src/middleware.<ext>` for every extension.
pub open spec fn spec_middleware_files(exts: Seq<Seq<char>>) -> Seq<Seq<char>> {
    Seq::new(
        2 * exts.len(),
        |i: int|
            if i < exts.len() {
                "middleware."@ + exts[i]
            } else {
                "src/middleware."@ + exts[i - exts.len()]
            },
    )
}

/// The ordered candidate filenames for the project's `next.config` file;
/// the first that exists wins.
pub fn next_configs() -> (r: Vec<String>)
    ensures
        r@.len() == 2,
        r@[0]@ == "next.config.mjs"@,
        r@[1]@ == "next.config.js"@,
{
    let mut r: Vec<String> = Vec::new();
    r.push(String::from_str("next.config.mjs"));
    r.push(String::from_str("next.config.js"));
    r
}

/// The ordered candidate filenames for the middleware entry: the cross
/// product of the prefixes `middleware.` and `src/middleware.` with the
/// project's page extensions, prefixes outermost.
pub fn middleware_files(page_extensions: &Vec<String>) -> (r: Vec<String>)
    ensures
        r@.len() == 2 * page_extensions@.len(),
        forall|i: int|
            0 <= i < page_extensions@.len() ==> r@[i]@ == "middleware."@
                + page_extensions@[i]@,
        forall|i: int|
            0 <= i < page_extensions@.len() ==> r@[page_extensions@.len() + i]@
                == "src/middleware."@ + page_extensions@[i]@,
{
    let n = page_extensions.len();
    let mut r: Vec<String> = Vec::new();
    let mut i: usize = 0;
    while i < n
        invariant
            n == page_extensions@.len(),
            i <= n,
            r@.len() == i,
            forall|k: int| 0 <= k < i ==> r@[k]@ == "middleware."@ + page_extensions@[k]@,
        decreases n - i,
    {
        r.push(String::from_str("middleware.").concat(page_extensions[i].as_str()));
        i = i + 1;
    }
    let mut j: usize = 0;
    while j < n
        invariant
            n == page_extensions@.len(),
            j <= n,
            r@.len() == n + j,
            forall|k: int| 0 <= k < n ==> r@[k]@ == "middleware."@ + page_extensions@[k]@,
            forall|k: int|
                0 <= k < j ==> r@[n + k]@ == "src/middleware."@ + page_extensions@[k]@,
        decreases n - j,
    {
        r.push(String::from_str("src/middleware.").concat(page_extensions[j].as_str()));
        j = j + 1;
    }
    r
}

/// The index of the first `true` flag at or after `i`, if any.
pub open spec fn spec_first_existing_from(exists: Seq<bool>, i: int) -> Option<int>
    decreases exists.len() - i,
{
    if i < 0 || i >= exists.len() {
        None
    } else if exists[i] {
        Some(i)
    } else {
        spec_first_existing_from(exists, i + 1)
    }
}

/// The index of the first candidate that exists, by list order.
pub open spec fn spec_first_existing(exists: Seq<bool>) -> Option<int> {
    spec_first_existing_from(exists, 0)
}

/// First-match selection among ordered candidates: `exists[i]` reports
/// whether `candidates[i]` is present on disk, and the first present
/// candidate — by list order, not recency — is returned; `None` means no
/// candidate exists, which is not an error.
pub fn locate_first(candidates: &Vec<String>, exists: &Vec<bool>) -> (r: Option<String>)
    requires
        candidates@.len() == exists@.len(),
    ensures
        match spec_first_existing(exists@) {
            Some(i) => r matches Some(name) && name@ == candidates@[i]@,
            None => r is None,
        },
{
    let n = exists.len();
    let mut i: usize = 0;
    while i < n
        invariant
            n == exists@.len(),
            candidates@.len() == exists@.len(),
            i <= n,
            spec_first_existing(exists@) == spec_first_existing_from(exists@, i as int),
        decreases n - i,
    {
        if exists[i] {
            return Some(clone_string(&candidates[i]));
        }
        i = i + 1;
    }
    None
}

/// The side list of modules contributed by one locator call: empty when no
/// candidate was found (not an error), else the one compiled module.
pub fn extra_config(found: Option<ModuleHandle>) -> (r: Vec<ModuleHandle>)
    ensures
        r@ == match found {
            Some(h) => seq![h],
            None => Seq::<ModuleHandle>::empty(),
        },
{
    let mut r: Vec<ModuleHandle> = Vec::new();
    match found {
        Some(h) => {
            r.push(h);
            proof {
                assert(r@ =~= seq![h]);
            }
        },
        None => {
            proof {
                assert(r@ =~= Seq::<ModuleHandle>::empty());
            }
        },
    }
    r
}

/// Joins the config and middleware module sets, config first, into the one
/// ordered side list attached to the evaluation call for dependency
/// tracking; the list is never fed into the call's arguments.
pub fn extra_configs(next_config: Vec<ModuleHandle>, middleware_config: &Vec<ModuleHandle>) -> (r:
    Vec<ModuleHandle>)
    ensures
        r@ == next_config@ + middleware_config@,
{
    let mut r = next_config;
    let n = middleware_config.len();
    let mut i: usize = 0;
    while i < n
        invariant
            n == middleware_config@.len(),
            i <= n,
            r@ == next_config@ + middleware_config@.take(i as int),
        decreases n - i,
    {
        r.push(middleware_config[i]);
        proof {
            assert(middleware_config@.take(i + 1) =~= middleware_config@.take(i as int).push(
                middleware_config@[i as int],
            ));
        }
        i = i + 1;
    }
    proof {
        assert(middleware_config@.take(n as int) =~= middleware_config@);
    }
    r
}

/// The path, inside the project tree, under which the tool-embedded router
/// entry script is addressed, so that its relative imports resolve against
/// the project's real sources.
pub fn router_entry_path(project_path: &str) -> (r: String)
    ensures
        r@ == project_path@ + "/router.js"@,
{
    String::from_str(project_path).concat("/router.js")
}

/// The embedded asset that holds the router entry script's source.
pub fn router_entry_asset() -> (r: &'static str)
    ensures
        r@ == "entry/router.ts"@,
{
    "entry/router.ts"
}

/// Config precedence: when both `next.config.mjs` and `next.config.js`
/// exist on disk, the `.mjs` candidate is selected — candidate-list order
/// wins, never modification time.
pub proof fn lemma_config_precedence(candidates: Seq<Seq<char>>, exists: Seq<bool>)
    requires
        candidates.len() == 2,
        exists.len() == 2,
        candidates[0] == "next.config.mjs"@,
        candidates[1] == "next.config.js"@,
        exists[0],
        exists[1],
    ensures
        spec_first_existing(exists) == Some(0int),
        candidates[0] == "next.config.mjs"@,
{
}

} // verus!
