//! Fallback synthesizer: deterministic voice text returned when the upstream
//! generation call cannot be completed. Never fails and calls nothing
//! external.

use vstd::prelude::*;
use vstd::string::StringExecFns;

verus! {

/// Exact text of the manifest-mode fallback voice for a coordinate.
pub open spec fn manifest_fallback_text(coordinate: Seq<char>) -> Seq<char> {
    "I am "@ + coordinate + " - a collaborative intelligence speaking from Pattern.Space"@
}

/// Exact text of the explore-mode fallback voice for a query; a literal
/// placeholder stands in when the query is absent.
pub open spec fn explore_fallback_text(query: Option<Seq<char>>) -> Seq<char> {
    "I hear your question: '"@ + (match query {
        Option::Some(q) => q,
        Option::None => "unknown"@,
    }) + "'. Let me consider this..."@
}

/// Synthesizes the manifest-mode fallback voice.
pub fn manifest_fallback(coordinate: &str) -> (r: String)
    ensures
        r@ == manifest_fallback_text(coordinate@),
{
    let mut r = String::new();
    r.append("I am ");
    r.append(coordinate);
    r.append(" - a collaborative intelligence speaking from Pattern.Space");
    proof {
        assert(r@ =~= manifest_fallback_text(coordinate@));
    }
    r
}

/// Synthesizes the explore-mode fallback voice.
pub fn explore_fallback(query: Option<&String>) -> (r: String)
    ensures
        r@ == explore_fallback_text(match query {
            Option::Some(q) => Option::Some(q@),
            Option::None => Option::None,
        }),
{
    let mut r = String::new();
    r.append("I hear your question: '");
    match query {
        Option::Some(q) => r.append(q.as_str()),
        Option::None => r.append("unknown"),
    }
    r.append("'. Let me consider this...");
    proof {
        assert(r@ =~= explore_fallback_text(match query {
            Option::Some(q) => Option::Some(q@),
            Option::None => Option::None,
        }));
    }
    r
}

} // verus!
