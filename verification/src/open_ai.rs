use vstd::prelude::*;
use crate::open_ai_models::{CompletionRequest, Message, OpenAiRequest, OpenAiResponse};

verus! {

/// The completion endpoint that chat-completion requests are sent to.
pub open spec fn spec_open_ai_endpoint() -> Seq<char> {
    "https://api.openai.com/v1/chat/completions"@
}

pub fn open_ai_endpoint() -> (endpoint: &'static str)
    ensures
        endpoint@ == spec_open_ai_endpoint(),
{
    "https://api.openai.com/v1/chat/completions"
}

/// Puts a completion request into the backend's wire format: the requested
/// model, an empty system message, and the query as the user message.
pub fn build_openai_request(req: &CompletionRequest) -> (wire: OpenAiRequest)
    ensures
        wire.model == req.model,
        wire.messages@.len() == 2,
        wire.messages@[0].role@ == "system"@,
        wire.messages@[0].content@ == Seq::<char>::empty(),
        wire.messages@[1].role@ == "user"@,
        wire.messages@[1].content == req.query,
{
    let system = Message { role: "system".to_owned(), content: String::new() };
    let user = Message { role: "user".to_owned(), content: req.query.clone() };
    let mut messages: Vec<Message> = Vec::new();
    messages.push(system);
    messages.push(user);
    OpenAiRequest { model: req.model.clone(), messages }
}

/// Exactly the first choice's message content, and nothing when the
/// response carries no choices, an empty choice list, or a first choice
/// without a message.
pub fn first_choice_content(response: &OpenAiResponse) -> (content: Option<String>)
    ensures
        content is Some <==> (response.choices is Some && response.choices.unwrap().len() > 0
            && response.choices.unwrap()@[0].message is Some),
        content is Some ==> content.unwrap()
            == response.choices.unwrap()@[0].message.unwrap().content,
{
    match &response.choices {
        Some(choices) => {
            if choices.len() == 0 {
                None
            } else {
                match &choices[0].message {
                    Some(message) => Some(message.content.clone()),
                    None => None,
                }
            }
        },
        None => None,
    }
}

} // verus!
