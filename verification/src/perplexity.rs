use vstd::prelude::*;
use crate::errors::{PipelineError, PipelineStage};
use crate::perplexity_models::{Message, PerplexityRequest, PerplexityResponse, SearchRequest};

verus! {

/// The answer endpoint that natural-language answer requests are sent to.
pub open spec fn spec_perplexity_endpoint() -> Seq<char> {
    "https://api.perplexity.ai/chat/completions"@
}

pub fn perplexity_endpoint() -> (endpoint: &'static str)
    ensures
        endpoint@ == spec_perplexity_endpoint(),
{
    "https://api.perplexity.ai/chat/completions"
}

/// The small underlying answer model.
pub open spec fn spec_sonar_small() -> Seq<char> {
    "llama-3-sonar-small-32k-online"@
}

/// The large underlying answer model, the default.
pub open spec fn spec_sonar_large() -> Seq<char> {
    "llama-3-sonar-large-32k-online"@
}

/// The instruction suffix appended to every answer request, asking for
/// markdown with inline source URLs.
pub open spec fn spec_prompt_rules() -> Seq<char> {
    ". Transform the response into markdown and add the url at the end of each item."@
}

/// Puts an answer request into the backend's wire format: the small model
/// exactly when the caller asked for it, the large one otherwise or when
/// the caller left the flag unset, and one user message carrying the query
/// followed by the instruction suffix.
pub fn build_perplexity_request(req: &SearchRequest) -> (wire: PerplexityRequest)
    ensures
        req.use_sonar_small == Some(true) ==> wire.model@ == spec_sonar_small(),
        req.use_sonar_small != Some(true) ==> wire.model@ == spec_sonar_large(),
        wire.messages@.len() == 1,
        wire.messages@[0].role@ == "user"@,
        wire.messages@[0].content@ == req.query@ + spec_prompt_rules(),
{
    let use_small = match &req.use_sonar_small {
        Some(flag) => *flag,
        None => false,
    };
    let model = if use_small {
        "llama-3-sonar-small-32k-online".to_owned()
    } else {
        "llama-3-sonar-large-32k-online".to_owned()
    };
    let mut content = req.query.clone();
    content.append(
        ". Transform the response into markdown and add the url at the end of each item.",
    );
    let user = Message { role: "user".to_owned(), content };
    let mut messages: Vec<Message> = Vec::new();
    messages.push(user);
    PerplexityRequest { model, messages }
}

/// The first (best) answer's text, and nothing when the response carries no
/// choices at all.
pub fn get_perplexity_response(response: &PerplexityResponse) -> (content: Option<String>)
    ensures
        content is Some <==> response.choices.len() > 0,
        content is Some ==> content.unwrap() == response.choices@[0].message.content,
{
    if response.choices.len() == 0 {
        None
    } else {
        Some(response.choices[0].message.content.clone())
    }
}

/// The fetch outcome of one answer response: a well-formed response with no
/// choices at all is a contentless response, distinct from a hard failure;
/// otherwise the best answer's text is the content.
pub fn answer_fetch_outcome(response: &PerplexityResponse) -> (outcome: Result<
    String,
    PipelineError,
>)
    ensures
        response.choices.len() == 0 ==> (outcome matches Err(e) && e matches
            PipelineError::EmptyResultError { stage } && stage == PipelineStage::Fetch),
        response.choices.len() > 0 ==> (outcome matches Ok(content) && content
            == response.choices@[0].message.content),
{
    match get_perplexity_response(response) {
        Some(content) => Ok(content),
        None => Err(PipelineError::EmptyResultError { stage: PipelineStage::Fetch }),
    }
}

} // verus!
