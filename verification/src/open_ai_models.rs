use vstd::prelude::*;

verus! {

/// One chat-completion request as the completion backend's wire format has
/// it: a model name and the conversation so far.
pub struct OpenAiRequest {
    pub model: String,
    pub messages: Vec<Message>,
}

/// One message of a completion conversation.
pub struct Message {
    pub role: String,
    pub content: String,
}

/// The completion backend's response: the candidate choices, absent when
/// the backend returned none at all.
pub struct OpenAiResponse {
    pub choices: Option<Vec<Choice>>,
}

/// One candidate completion.
pub struct Choice {
    pub message: Option<Message>,
}

/// A caller's completion request before it is put into the wire format:
/// the model to use and the single user query.
#[derive(Debug)]
pub struct CompletionRequest {
    pub model: String,
    pub query: String,
}

} // verus!
