//! Messages and replies of Anthropic's API.

use vstd::prelude::*;
use crate::error::LlmError;
use crate::llm::{GenerationResponse, Message, Role};
use crate::text::{concat2, join_seqs, join_strings, trim_end_char, trim_end_matches, views};

verus! {

/// A message in Anthropic's wire format.
#[derive(Debug, Clone)]
pub struct AnthropicMessage {
    pub role: String,
    pub content: String,
}

/// Anthropic's name for a role; system messages travel separately and are
/// sent as the user where they occur among the messages.
pub open spec fn anthropic_role(r: Role) -> Seq<char> {
    match r {
        Role::User => "user"@,
        Role::Assistant => "assistant"@,
        Role::System => "user"@,
    }
}

impl AnthropicMessage {
    /// The wire form of a conversation message.
    pub fn from_message(msg: &Message) -> (m: AnthropicMessage)
        ensures
            m.role@ == anthropic_role(msg.role),
            m.content@ == msg.content@,
    {
        let role = match msg.role {
            Role::User => "user",
            Role::Assistant => "assistant",
            Role::System => "user",
        };
        AnthropicMessage { role: String::from_str(role), content: msg.content.clone() }
    }
}

impl<'a> vstd::std_specs::convert::FromSpecImpl<&'a Message> for AnthropicMessage {
    open spec fn obeys_from_spec() -> bool {
        false
    }

    open spec fn from_spec(v: &'a Message) -> AnthropicMessage {
        arbitrary()
    }
}

impl<'a> From<&'a Message> for AnthropicMessage {
    fn from(msg: &'a Message) -> (m: AnthropicMessage)
        ensures
            m.role@ == anthropic_role(msg.role),
            m.content@ == msg.content@,
    {
        AnthropicMessage::from_message(msg)
    }
}

/// A content block of a reply.
#[derive(Debug, Clone)]
pub struct ContentBlock {
    pub block_type: String,
    pub text: String,
}

/// Token usage of a reply.
#[derive(Debug, Clone)]
pub struct UsageInfo {
    pub input_tokens: u32,
    pub output_tokens: u32,
}

/// A reply of the messages API.
#[derive(Debug, Clone)]
pub struct AnthropicResponse {
    pub id: String,
    pub response_type: String,
    pub role: String,
    pub content: Vec<ContentBlock>,
    pub model: String,
    pub stop_reason: Option<String>,
    pub usage: UsageInfo,
}

/// A model of a model listing.
#[derive(Debug, Clone)]
pub struct ModelInfo {
    pub id: String,
}

/// A model listing.
#[derive(Debug, Clone)]
pub struct ModelsResponse {
    pub data: Vec<ModelInfo>,
}

/// The non-system messages of a conversation, in order.
pub open spec fn non_system(messages: Seq<Message>) -> Seq<Message> {
    messages.filter(|m: Message| m.role != Role::System)
}

/// The parts of a request: the first system message's content, if any, and
/// every other message in wire form. A conversation with no message besides
/// system messages is refused.
pub fn request_parts(messages: &[Message]) -> (r: Result<(Option<String>, Vec<AnthropicMessage>), LlmError>)
    ensures
        non_system(messages@).len() == 0 ==> (r matches Err(LlmError::InvalidResponse(t)) && t@ == "No messages to send"@),
        non_system(messages@).len() > 0 ==> (r matches Ok((sys, ms)) && ms@.len() == non_system(messages@).len()
            && (forall|i: int| 0 <= i < ms@.len() ==> ms@[i].role@ == anthropic_role(non_system(messages@)[i].role)
                && ms@[i].content@ == non_system(messages@)[i].content@)
            && (match sys {
                Some(c) => exists|i: int| crate::llm::is_first_system(messages@, i) && messages@[i].content == c,
                None => forall|j: int| 0 <= j < messages@.len() ==> messages@[j].role != Role::System,
            })),
{
    let system = match crate::llm::first_system_content(messages) {
        Some(c) => Some(c.clone()),
        None => None,
    };
    let mut ms: Vec<AnthropicMessage> = Vec::new();
    let mut i: usize = 0;
    while i < messages.len()
        invariant
            i <= messages@.len(),
            ms@.len() == non_system(messages@.take(i as int)).len(),
            forall|j: int| 0 <= j < ms@.len() ==> ms@[j].role@ == anthropic_role(non_system(messages@.take(i as int))[j].role)
                && ms@[j].content@ == non_system(messages@.take(i as int))[j].content@,
        decreases messages@.len() - i,
    {
        proof {
            assert(messages@.take(i + 1).drop_last() =~= messages@.take(i as int));
            reveal_with_fuel(Seq::filter, 1);
        }
        if messages[i].role != Role::System {
            ms.push(AnthropicMessage::from_message(&messages[i]));
        }
        i = i + 1;
    }
    assert(messages@.take(messages@.len() as int) =~= messages@);
    if ms.len() == 0 {
        return Err(LlmError::InvalidResponse(String::from_str("No messages to send")));
    }
    Ok((system, ms))
}

/// The texts of a reply's content blocks, in order.
pub open spec fn block_texts(blocks: Seq<ContentBlock>) -> Seq<Seq<char>> {
    blocks.map_values(|b: ContentBlock| b.text@)
}

/// The generation a reply describes: its blocks' texts joined by newlines
/// and the input and output tokens added. A reply without content is
/// refused.
pub fn anthropic_generation(resp: AnthropicResponse) -> (r: Result<GenerationResponse, LlmError>)
    requires
        resp.usage.input_tokens + resp.usage.output_tokens <= u32::MAX,
    ensures
        resp.content@.len() == 0 ==> (r matches Err(LlmError::InvalidResponse(t)) && t@ == "No content in response"@),
        resp.content@.len() > 0 ==> (r matches Ok(g) && g.text@ == join_seqs(block_texts(resp.content@), "\n"@)
            && g.tokens_used == Some((resp.usage.input_tokens + resp.usage.output_tokens) as u32)
            && g.model == resp.model && g.finish_reason == resp.stop_reason),
{
    if resp.content.len() == 0 {
        return Err(LlmError::InvalidResponse(String::from_str("No content in response")));
    }
    let mut texts: Vec<String> = Vec::new();
    let mut i: usize = 0;
    while i < resp.content.len()
        invariant
            i <= resp.content@.len(),
            texts@.len() == i,
            forall|j: int| 0 <= j < i ==> texts@[j]@ == resp.content@[j].text@,
        decreases resp.content@.len() - i,
    {
        texts.push(resp.content[i].text.clone());
        i = i + 1;
    }
    assert(views(texts@) =~= block_texts(resp.content@));
    let text = join_strings(texts.as_slice(), "\n");
    let total = resp.usage.input_tokens + resp.usage.output_tokens;
    Ok(GenerationResponse { text, tokens_used: Some(total), model: resp.model, finish_reason: resp.stop_reason })
}

/// The messages endpoint under a base URL.
pub open spec fn messages_url_spec(base: Seq<char>) -> Seq<char> {
    trim_end_char(base, '/') + "/v1/messages"@
}

/// The messages endpoint: the configured base URL, or Anthropic's public
/// one, with `/v1/messages` after it.
pub fn messages_url(base_url: Option<&str>) -> (r: String)
    ensures
        base_url matches Some(b) ==> r@ == messages_url_spec(b@),
        base_url is None ==> r@ == messages_url_spec("https://api.anthropic.com"@),
{
    let base = match base_url {
        Some(b) => b,
        None => "https://api.anthropic.com",
    };
    let t = trim_end_matches(base, '/');
    concat2(t.as_str(), "/v1/messages")
}

/// The request headers: JSON content, the API version and, if any, the key.
pub fn request_headers(api_key: Option<&str>) -> (hs: Vec<(&'static str, String)>)
    ensures
        hs@.len() == (if api_key is Some { 3int } else { 2int }),
        hs@[0].0@ == "Content-Type"@ && hs@[0].1@ == "application/json"@,
        hs@[1].0@ == "anthropic-version"@ && hs@[1].1@ == "2023-06-01"@,
        api_key matches Some(k) ==> hs@[2].0@ == "x-api-key"@ && hs@[2].1@ == k@,
{
    let mut hs: Vec<(&'static str, String)> = Vec::new();
    hs.push(("Content-Type", String::from_str("application/json")));
    hs.push(("anthropic-version", String::from_str("2023-06-01")));
    match api_key {
        Some(k) => {
            hs.push(("x-api-key", String::from_str(k)));
        },
        None => {},
    }
    hs
}

} // verus!
