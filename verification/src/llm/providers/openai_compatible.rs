//! Messages and replies of OpenAI-compatible APIs.

use vstd::prelude::*;
use crate::error::LlmError;
use crate::llm::{GenerationResponse, Message, Role};

verus! {

/// A message in OpenAI's wire format.
#[derive(Debug, Clone)]
pub struct OpenAIMessage {
    pub role: String,
    pub content: String,
}

/// The OpenAI name of a role.
pub open spec fn openai_role(r: Role) -> Seq<char> {
    match r {
        Role::System => "system"@,
        Role::User => "user"@,
        Role::Assistant => "assistant"@,
    }
}

impl OpenAIMessage {
    /// The wire form of a conversation message.
    pub fn from_message(msg: &Message) -> (m: OpenAIMessage)
        ensures
            m.role@ == openai_role(msg.role),
            m.content@ == msg.content@,
    {
        let role = match msg.role {
            Role::System => "system",
            Role::User => "user",
            Role::Assistant => "assistant",
        };
        OpenAIMessage { role: String::from_str(role), content: msg.content.clone() }
    }
}

impl<'a> vstd::std_specs::convert::FromSpecImpl<&'a Message> for OpenAIMessage {
    open spec fn obeys_from_spec() -> bool {
        false
    }

    open spec fn from_spec(v: &'a Message) -> OpenAIMessage {
        arbitrary()
    }
}

impl<'a> From<&'a Message> for OpenAIMessage {
    fn from(msg: &'a Message) -> (m: OpenAIMessage)
        ensures
            m.role@ == openai_role(msg.role),
            m.content@ == msg.content@,
    {
        OpenAIMessage::from_message(msg)
    }
}

/// A choice in a chat completion.
#[derive(Debug, Clone)]
pub struct ChatChoice {
    pub index: u32,
    pub message: OpenAIMessage,
    pub finish_reason: Option<String>,
}

/// Token usage of a chat completion.
#[derive(Debug, Clone)]
pub struct UsageInfo {
    pub prompt_tokens: u32,
    pub completion_tokens: u32,
    pub total_tokens: u32,
}

/// A chat completion reply.
#[derive(Debug, Clone)]
pub struct ChatCompletionResponse {
    pub id: String,
    pub model: String,
    pub choices: Vec<ChatChoice>,
    pub usage: Option<UsageInfo>,
}

/// An embedding request.
#[derive(Debug, Clone)]
pub struct EmbeddingRequest {
    pub model: String,
    pub input: String,
}

/// A model in a model listing.
#[derive(Debug, Clone)]
pub struct ModelData {
    pub id: String,
    pub created: Option<u64>,
    pub owned_by: Option<String>,
}

/// A model listing.
#[derive(Debug, Clone)]
pub struct ModelsResponse {
    pub data: Vec<ModelData>,
}

/// The wire form of every message of a conversation, in order.
pub fn request_messages(messages: &[Message]) -> (r: Vec<OpenAIMessage>)
    ensures
        r@.len() == messages@.len(),
        forall|i: int| 0 <= i < r@.len() ==> r@[i].role@ == openai_role(messages@[i].role)
            && r@[i].content@ == messages@[i].content@,
{
    let mut r: Vec<OpenAIMessage> = Vec::new();
    let mut i: usize = 0;
    while i < messages.len()
        invariant
            i <= messages@.len(),
            r@.len() == i,
            forall|j: int| 0 <= j < i ==> r@[j].role@ == openai_role(messages@[j].role)
                && r@[j].content@ == messages@[j].content@,
        decreases messages@.len() - i,
    {
        r.push(OpenAIMessage::from_message(&messages[i]));
        i = i + 1;
    }
    r
}

/// The generation a chat completion describes: the first choice's message,
/// the total token count and the reply's model. A reply without choices is
/// refused.
pub fn completion_generation(resp: ChatCompletionResponse) -> (r: Result<GenerationResponse, LlmError>)
    ensures
        resp.choices@.len() == 0 ==> (r matches Err(LlmError::InvalidResponse(t)) && t@ == "No choices in response"@),
        resp.choices@.len() > 0 ==> (r matches Ok(g) && g.text == resp.choices@[0].message.content
            && g.model == resp.model && g.finish_reason == resp.choices@[0].finish_reason
            && g.tokens_used == (match resp.usage { Some(u) => Some(u.total_tokens), None => None })),
{
    if resp.choices.len() == 0 {
        return Err(LlmError::InvalidResponse(String::from_str("No choices in response")));
    }
    let tokens_used = match &resp.usage {
        Some(u) => Some(u.total_tokens),
        None => None,
    };
    let text = resp.choices[0].message.content.clone();
    let finish_reason = resp.choices[0].finish_reason.clone();
    Ok(GenerationResponse { text, tokens_used, model: resp.model, finish_reason })
}

/// The ids of a model listing, in order.
pub fn model_ids(resp: &ModelsResponse) -> (r: Vec<String>)
    ensures
        r@.len() == resp.data@.len(),
        forall|i: int| 0 <= i < r@.len() ==> r@[i] == resp.data@[i].id,
{
    let mut r: Vec<String> = Vec::new();
    let mut i: usize = 0;
    while i < resp.data.len()
        invariant
            i <= resp.data@.len(),
            r@.len() == i,
            forall|j: int| 0 <= j < i ==> r@[j] == resp.data@[j].id,
        decreases resp.data@.len() - i,
    {
        r.push(resp.data[i].id.clone());
        i = i + 1;
    }
    r
}

/// Whether `model` is among the listed models.
pub fn is_model_listed(models: &[String], model: &str) -> (r: bool)
    ensures
        r == exists|i: int| 0 <= i < models@.len() && models@[i]@ == model@,
{
    let mut i: usize = 0;
    while i < models.len()
        invariant
            i <= models@.len(),
            forall|j: int| 0 <= j < i ==> models@[j]@ != model@,
        decreases models@.len() - i,
    {
        if crate::text::str_eq(models[i].as_str(), model) {
            return true;
        }
        i = i + 1;
    }
    false
}

} // verus!
