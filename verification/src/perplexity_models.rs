use vstd::prelude::*;

verus! {

/// A natural-language answer request: the question, and whether to route it
/// to the small underlying model (the large one when absent or false).
#[derive(Debug)]
pub struct SearchRequest {
    pub query: String,
    pub use_sonar_small: Option<bool>,
}

/// One answer request as the answering backend's wire format has it.
pub struct PerplexityRequest {
    pub model: String,
    pub messages: Vec<Message>,
}

/// One message of an answer conversation.
pub struct Message {
    pub role: String,
    pub content: String,
}

/// The answering backend's response: the candidate answers, best first.
pub struct PerplexityResponse {
    pub choices: Vec<Choice>,
}

/// One candidate answer.
pub struct Choice {
    pub message: Message,
}

} // verus!
