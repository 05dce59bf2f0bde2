//! Conversation messages and what the library does with a language model's
//! replies.

pub mod manager;
pub mod provider;
pub mod providers;

use vstd::prelude::*;
use crate::error::LlmError;
use crate::text::{concat2, trim_end_char, trim_end_matches};

verus! {

/// Whether an HTTP status reports success, as `StatusCode::is_success`
/// says: 200 to 299.
pub fn is_success_status(status: u16) -> (r: bool)
    ensures
        r == (200 <= status && status <= 299),
{
    200 <= status && status <= 299
}

/// The text that an unsuccessful reply's error carries: its body, or
/// "Unknown error" where the body could not be read.
pub open spec fn failure_text(body: Option<String>) -> Seq<char> {
    match body {
        Some(b) => b@,
        None => "Unknown error"@,
    }
}

/// The error of an unsuccessful Ollama reply: an embedding request fails
/// as an embedding error, any other request as a failed generation.
pub fn ollama_failure(body: Option<String>, embedding: bool) -> (e: LlmError)
    ensures
        embedding ==> (e matches LlmError::EmbeddingFailed(t) && t@ == failure_text(body)),
        !embedding ==> (e matches LlmError::GenerationFailed(t) && t@ == failure_text(body)),
{
    let text = match body {
        Some(b) => b,
        None => String::from_str("Unknown error"),
    };
    if embedding {
        LlmError::EmbeddingFailed(text)
    } else {
        LlmError::GenerationFailed(text)
    }
}

/// The role of a message in a conversation.
#[derive(Debug, Clone, Copy, PartialEq, Eq, Structural)]
pub enum Role {
    System,
    User,
    Assistant,
}

/// A message in a conversation.
#[derive(Debug)]
pub struct Message {
    pub role: Role,
    pub content: String,
}

impl Clone for Message {
    /// An equal message.
    fn clone(&self) -> (m: Self)
        ensures
            m == *self,
    {
        Message { role: self.role, content: self.content.clone() }
    }
}

/// The reply of a text generation.
#[derive(Debug, Clone)]
pub struct GenerationResponse {
    pub text: String,
    pub tokens_used: Option<u32>,
    pub model: String,
    pub finish_reason: Option<String>,
}

/// A system message holding `content`.
pub fn system_message(content: &str) -> (m: Message)
    ensures
        m.role == Role::System,
        m.content@ == content@,
{
    Message { role: Role::System, content: String::from_str(content) }
}

/// A user message holding `content`.
pub fn user_message(content: &str) -> (m: Message)
    ensures
        m.role == Role::User,
        m.content@ == content@,
{
    Message { role: Role::User, content: String::from_str(content) }
}

/// An assistant message holding `content`.
pub fn assistant_message(content: &str) -> (m: Message)
    ensures
        m.role == Role::Assistant,
        m.content@ == content@,
{
    Message { role: Role::Assistant, content: String::from_str(content) }
}

/// The URL of an Ollama API endpoint under a server's base URL.
pub open spec fn ollama_url_spec(base: Seq<char>, endpoint: Seq<char>) -> Seq<char> {
    trim_end_char(base, '/') + "/api/"@ + endpoint
}

/// The URL of Ollama's API endpoint `endpoint` under `base`: trailing
/// slashes of the base are dropped, then `/api/` and the endpoint follow.
pub fn ollama_api_url(base: &str, endpoint: &str) -> (r: String)
    ensures
        r@ == ollama_url_spec(base@, endpoint@),
{
    let trimmed = trim_end_matches(base, '/');
    let with_api = concat2(trimmed.as_str(), "/api/");
    concat2(with_api.as_str(), endpoint)
}

/// `i` is the position of the first system message.
pub open spec fn is_first_system(messages: Seq<Message>, i: int) -> bool {
    0 <= i < messages.len() && messages[i].role == Role::System
        && forall|j: int| 0 <= j < i ==> messages[j].role != Role::System
}

/// The content of the first system message, if there is one.
pub fn first_system_content(messages: &[Message]) -> (r: Option<&String>)
    ensures
        match r {
            Some(c) => exists|i: int| is_first_system(messages@, i) && messages@[i].content == *c,
            None => forall|j: int| 0 <= j < messages@.len() ==> messages@[j].role != Role::System,
        },
{
    let mut i: usize = 0;
    while i < messages.len()
        invariant
            i <= messages@.len(),
            forall|j: int| 0 <= j < i ==> messages@[j].role != Role::System,
        decreases messages@.len() - i,
    {
        if messages[i].role == Role::System {
            assert(is_first_system(messages@, i as int));
            return Some(&messages[i].content);
        }
        i = i + 1;
    }
    None
}

/// The reply served from the response cache.
pub fn cached_generation(text: String, model: String) -> (r: GenerationResponse)
    ensures
        r.text == text,
        r.model == model,
        r.tokens_used is None,
        r.finish_reason matches Some(f) && f@ == "cached"@,
{
    GenerationResponse { text, tokens_used: None, model, finish_reason: Some(String::from_str("cached")) }
}

/// The generation that an Ollama chat reply describes: an incomplete reply
/// is refused as an invalid response.
pub fn ollama_generation(
    model: String,
    content: String,
    done: bool,
    done_reason: Option<String>,
    eval_count: Option<u32>,
) -> (r: Result<GenerationResponse, LlmError>)
    ensures
        done ==> r == Ok::<GenerationResponse, LlmError>(GenerationResponse {
            text: content,
            tokens_used: eval_count,
            model,
            finish_reason: done_reason,
        }),
        !done ==> (r matches Err(LlmError::InvalidResponse(t)) && t@ == "Incomplete response"@),
{
    if !done {
        return Err(LlmError::InvalidResponse(String::from_str("Incomplete response")));
    }
    Ok(GenerationResponse { text: content, tokens_used: eval_count, model, finish_reason: done_reason })
}

} // verus!
