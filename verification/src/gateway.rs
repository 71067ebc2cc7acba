//! Generation gateway data model: the single-message generation call built
//! from a compiled prompt, and the extraction of the generated text from the
//! backend's decoded reply. The network call itself is transport plumbing
//! and lives outside this crate; every failure of it collapses to the single
//! `Failure` outcome.

use vstd::prelude::*;

verus! {

/// One message of a generation call.
pub struct GenerationMessage {
    pub role: String,
    pub content: String,
}

/// The generation call sent to the backend: a fixed maximum output size and
/// exactly one user-role message carrying the compiled prompt. The backend
/// model identifier is transport configuration, fixed at build time by the
/// surrounding program, never caller-configurable.
pub struct GenerationRequest {
    pub max_tokens: u32,
    pub messages: Vec<GenerationMessage>,
}

/// What came back from the backend: the generated text, or one opaque
/// failure covering every fault (missing credential, network error,
/// non-success response, undecodable body).
pub enum GenerationOutcome {
    Success(String),
    Failure,
}

/// The fixed maximum output size of every generation call.
pub const GENERATION_MAX_TOKENS: u32 = 1000;

/// A generation request is well-formed when it carries the fixed output
/// bound and exactly one user-role message holding the compiled prompt.
pub open spec fn request_well_formed(g: GenerationRequest, prompt: Seq<char>) -> bool {
    &&& g.max_tokens == GENERATION_MAX_TOKENS
    &&& g.messages@.len() == 1
    &&& g.messages@[0].role@ == "user"@
    &&& g.messages@[0].content@ == prompt
}

/// Builds the generation call for a compiled prompt: fixed output bound,
/// one user-role message holding the whole prompt.
pub fn generation_request(prompt: String) -> (g: GenerationRequest)
    ensures
        request_well_formed(g, prompt@),
{
    let mut messages: Vec<GenerationMessage> = Vec::new();
    messages.push(
        GenerationMessage { role: "user".to_owned(), content: prompt },
    );
    GenerationRequest { max_tokens: GENERATION_MAX_TOKENS, messages }
}

/// Extracts the generated voice from the decoded reply body: the first text
/// segment when one exists, and nothing - a failure - when the reply carries
/// none.
pub fn extract_generated_text(contents: &Vec<String>) -> (r: Option<String>)
    ensures
        contents@.len() > 0 ==> (r matches Some(t) && t@ == contents@[0]@),
        contents@.len() == 0 ==> r is None,
{
    if contents.len() > 0 {
        Some(contents[0].clone())
    } else {
        None
    }
}

} // verus!
