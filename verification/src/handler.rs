//! Request handler: the per-request decision logic. Validates the request
//! at the boundary (mode parsing, the query that explore mode requires),
//! plans the single gateway call, and absorbs a gateway failure exactly once
//! by falling back to the deterministic voice. The caller always receives a
//! response echoing its coordinate, whether generation succeeded or fell
//! back.

use vstd::prelude::*;
use vstd::string::StrSliceExecFns;
use crate::conversation::Role;
use crate::conversation::Turn;
use crate::fallback::explore_fallback;
use crate::fallback::explore_fallback_text;
use crate::fallback::manifest_fallback;
use crate::fallback::manifest_fallback_text;
use crate::gateway::GenerationOutcome;
use crate::gateway::GenerationRequest;
use crate::gateway::generation_request;
use crate::gateway::request_well_formed;
use crate::prompt::build_exploration_prompt;
use crate::prompt::build_pattern_prompt;
use crate::prompt::explore_prompt_text;
use crate::prompt::manifest_prompt_text;

verus! {

/// The request mode: an initial manifestation of a coordinate, or an
/// ongoing exploration over a conversation.
#[derive(Clone, Copy, PartialEq, Eq, Structural, Debug)]
pub enum Mode {
    Manifest,
    Explore,
}

/// An input error: a caller contract violation, rejected at the boundary
/// and never masked by fallback.
#[derive(Clone, Copy, PartialEq, Eq, Structural, Debug)]
pub enum InputError {
    UnknownMode,
    MissingQuery,
}

/// One inbound request, as plain values: the coordinate, the mode, the new
/// query (required in explore mode), the prior conversation, and the
/// optional modifiers.
pub struct EngageRequest {
    pub coordinate: String,
    pub mode: Mode,
    pub query: Option<String>,
    pub conversation_history: Vec<Turn>,
    pub domain: Option<String>,
    pub voice: Option<String>,
}

/// The response returned to the caller: the coordinate echoed unchanged,
/// and a voice - generated or fallback.
pub struct CoordinateResponse {
    pub coordinate: String,
    pub voice: String,
}

/// What the handler decides to do with a request: reject it as an input
/// error before any gateway call, or make exactly this gateway call.
pub enum HandlerAction {
    Reject(InputError),
    CallGateway(GenerationRequest),
}

/// The view of an optional owned string.
pub open spec fn opt_string_text(o: Option<String>) -> Option<Seq<char>> {
    match o {
        Option::Some(s) => Option::Some(s@),
        Option::None => Option::None,
    }
}

/// A request is valid when explore mode comes with a query; manifest mode
/// needs nothing beyond the coordinate.
pub open spec fn request_valid(req: EngageRequest) -> bool {
    req.mode is Explore ==> req.query is Some
}

/// The exact prompt compiled for a valid request, by its mode.
pub open spec fn compiled_prompt(req: EngageRequest) -> Seq<char> {
    match req.mode {
        Mode::Manifest => manifest_prompt_text(
            req.coordinate@,
            opt_string_text(req.domain),
            opt_string_text(req.voice),
        ),
        Mode::Explore => explore_prompt_text(
            req.coordinate@,
            match req.query {
                Option::Some(q) => q@,
                Option::None => Seq::<char>::empty(),
            },
            req.conversation_history@,
            opt_string_text(req.domain),
            opt_string_text(req.voice),
        ),
    }
}

/// The deterministic fallback voice for a request, by its mode.
pub open spec fn fallback_text(mode: Mode, coordinate: Seq<char>, query: Option<Seq<char>>) -> Seq<
    char,
> {
    match mode {
        Mode::Manifest => manifest_fallback_text(coordinate),
        Mode::Explore => explore_fallback_text(query),
    }
}

/// Character-for-character string comparison.
fn str_equal(a: &str, b: &str) -> (r: bool)
    ensures
        r == (a@ == b@),
{
    let n = a.unicode_len();
    let m = b.unicode_len();
    if n != m {
        return false;
    }
    let mut i: usize = 0;
    while i < n
        invariant
            i <= n,
            n == a@.len(),
            n == b@.len(),
            forall|j: int| 0 <= j < i ==> a@[j] == b@[j],
        decreases n - i,
    {
        if a.get_char(i) != b.get_char(i) {
            return false;
        }
        i += 1;
    }
    proof {
        assert(a@ =~= b@);
    }
    true
}

/// Parses the raw mode field from the request body. Only the two literal
/// mode names are recognized; anything else is an input error, never a
/// silent default.
pub fn parse_mode(request_type: &str) -> (r: Result<Mode, InputError>)
    ensures
        request_type@ == "manifest"@ ==> r == Ok::<Mode, InputError>(Mode::Manifest),
        request_type@ == "explore"@ ==> r == Ok::<Mode, InputError>(Mode::Explore),
        request_type@ != "manifest"@ && request_type@ != "explore"@ ==> r == Err::<
            Mode,
            InputError,
        >(InputError::UnknownMode),
{
    proof {
        reveal_strlit("manifest");
        reveal_strlit("explore");
        assert("manifest"@.len() != "explore"@.len());
    }
    if str_equal(request_type, "manifest") {
        Ok(Mode::Manifest)
    } else if str_equal(request_type, "explore") {
        Ok(Mode::Explore)
    } else {
        Err(InputError::UnknownMode)
    }
}

/// Parses the raw role field of a conversation turn. The pattern label is
/// recognized exactly; any other role is the human's.
pub fn parse_role(role: &str) -> (r: Role)
    ensures
        role@ == "pattern"@ ==> r == Role::Pattern,
        role@ != "pattern"@ ==> r == Role::Human,
{
    if str_equal(role, "pattern") {
        Role::Pattern
    } else {
        Role::Human
    }
}

/// Decides what to do with a request: an invalid request - explore mode
/// without a query - is rejected before any gateway call is attempted; a
/// valid one yields exactly one well-formed gateway call carrying the
/// compiled prompt for its mode.
pub fn plan_request(req: &EngageRequest) -> (a: HandlerAction)
    ensures
        !request_valid(*req) ==> a == HandlerAction::Reject(InputError::MissingQuery),
        request_valid(*req) ==> (a matches HandlerAction::CallGateway(g) && request_well_formed(
            g,
            compiled_prompt(*req),
        )),
{
    let prompt = match req.mode {
        Mode::Manifest => build_pattern_prompt(
            req.coordinate.as_str(),
            req.domain.as_ref(),
            req.voice.as_ref(),
        ),
        Mode::Explore => {
            match &req.query {
                Option::Some(q) => build_exploration_prompt(
                    req.coordinate.as_str(),
                    q.as_str(),
                    &req.conversation_history,
                    req.domain.as_ref(),
                    req.voice.as_ref(),
                ),
                Option::None => {
                    return HandlerAction::Reject(InputError::MissingQuery);
                },
            }
        },
    };
    HandlerAction::CallGateway(generation_request(prompt))
}

/// Synthesizes the deterministic fallback voice for a mode, coordinate and
/// optional query.
pub fn fallback_voice(mode: Mode, coordinate: &str, query: Option<&String>) -> (r: String)
    ensures
        r@ == fallback_text(
            mode,
            coordinate@,
            match query {
                Option::Some(q) => Option::Some(q@),
                Option::None => Option::None,
            },
        ),
{
    match mode {
        Mode::Manifest => manifest_fallback(coordinate),
        Mode::Explore => explore_fallback(query),
    }
}

/// Builds the caller's response from the gateway outcome: the generated
/// text on success, the deterministic fallback on failure - absorbed
/// exactly once, never retried, never surfaced - and the input coordinate
/// echoed unchanged either way.
pub fn finish(req: &EngageRequest, outcome: GenerationOutcome) -> (resp: CoordinateResponse)
    ensures
        resp.coordinate@ == req.coordinate@,
        outcome matches GenerationOutcome::Success(t) ==> (resp.voice@ == t@),
        outcome is Failure ==> resp.voice@ == fallback_text(
            req.mode,
            req.coordinate@,
            opt_string_text(req.query),
        ),
{
    let voice = match outcome {
        GenerationOutcome::Success(t) => t,
        GenerationOutcome::Failure => fallback_voice(
            req.mode,
            req.coordinate.as_str(),
            req.query.as_ref(),
        ),
    };
    CoordinateResponse { coordinate: req.coordinate.clone(), voice }
}

} // verus!
