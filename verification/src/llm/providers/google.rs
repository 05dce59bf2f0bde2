//! Messages and replies of Google's Gemini API.

use vstd::prelude::*;
use crate::error::LlmError;
use crate::llm::{GenerationResponse, Message, Role};
use crate::text::{concat2, join_seqs, join_strings, trim_end_char, trim_end_matches, views};

verus! {

/// A part of a Gemini content.
#[derive(Debug, Clone)]
pub struct GeminiPart {
    pub text: String,
}

/// A message in Gemini's wire format.
#[derive(Debug, Clone)]
pub struct GeminiContent {
    pub role: String,
    pub parts: Vec<GeminiPart>,
}

/// Gemini's name for a role: the assistant is the model and system messages
/// are sent as the user.
pub open spec fn gemini_role(r: Role) -> Seq<char> {
    match r {
        Role::User => "user"@,
        Role::Assistant => "model"@,
        Role::System => "user"@,
    }
}

impl GeminiContent {
    /// The wire form of a conversation message: one part holding its text.
    pub fn from_message(msg: &Message) -> (c: GeminiContent)
        ensures
            c.role@ == gemini_role(msg.role),
            c.parts@.len() == 1,
            c.parts@[0].text@ == msg.content@,
    {
        let role = match msg.role {
            Role::User => "user",
            Role::Assistant => "model",
            Role::System => "user",
        };
        let mut parts: Vec<GeminiPart> = Vec::new();
        parts.push(GeminiPart { text: msg.content.clone() });
        GeminiContent { role: String::from_str(role), parts }
    }
}

impl<'a> vstd::std_specs::convert::FromSpecImpl<&'a Message> for GeminiContent {
    open spec fn obeys_from_spec() -> bool {
        false
    }

    open spec fn from_spec(v: &'a Message) -> GeminiContent {
        arbitrary()
    }
}

impl<'a> From<&'a Message> for GeminiContent {
    fn from(msg: &'a Message) -> (c: GeminiContent)
        ensures
            c.role@ == gemini_role(msg.role),
            c.parts@.len() == 1,
            c.parts@[0].text@ == msg.content@,
    {
        GeminiContent::from_message(msg)
    }
}

/// A candidate answer.
#[derive(Debug, Clone)]
pub struct Candidate {
    pub content: GeminiContent,
    pub finish_reason: Option<String>,
}

/// Token usage of a reply.
#[derive(Debug, Clone)]
pub struct UsageMetadata {
    pub prompt_token_count: u32,
    pub candidates_token_count: u32,
    pub total_token_count: u32,
}

/// A reply of the generate endpoint.
#[derive(Debug, Clone)]
pub struct GeminiResponse {
    pub candidates: Vec<Candidate>,
    pub usage_metadata: Option<UsageMetadata>,
}

/// An embedding request.
#[derive(Debug, Clone)]
pub struct GeminiEmbedRequest {
    pub content: GeminiContent,
}

/// The texts of a content's parts, in order.
pub open spec fn part_texts(parts: Seq<GeminiPart>) -> Seq<Seq<char>> {
    parts.map_values(|p: GeminiPart| p.text@)
}

/// The generation a reply describes: the first candidate's parts joined by
/// newlines, the total token count and the configured model. A reply without
/// candidates is refused.
pub fn gemini_generation(resp: GeminiResponse, model: String) -> (r: Result<GenerationResponse, LlmError>)
    ensures
        resp.candidates@.len() == 0 ==> (r matches Err(LlmError::InvalidResponse(t)) && t@ == "No candidates in response"@),
        resp.candidates@.len() > 0 ==> (r matches Ok(g)
            && g.text@ == join_seqs(part_texts(resp.candidates@[0].content.parts@), "\n"@)
            && g.tokens_used == (match resp.usage_metadata { Some(u) => Some(u.total_token_count), None => None })
            && g.model == model && g.finish_reason == resp.candidates@[0].finish_reason),
{
    if resp.candidates.len() == 0 {
        return Err(LlmError::InvalidResponse(String::from_str("No candidates in response")));
    }
    let parts = &resp.candidates[0].content.parts;
    let mut texts: Vec<String> = Vec::new();
    let mut i: usize = 0;
    while i < parts.len()
        invariant
            i <= parts@.len(),
            texts@.len() == i,
            forall|j: int| 0 <= j < i ==> texts@[j]@ == parts@[j].text@,
        decreases parts@.len() - i,
    {
        texts.push(parts[i].text.clone());
        i = i + 1;
    }
    assert(views(texts@) =~= part_texts(parts@));
    let text = join_strings(texts.as_slice(), "\n");
    let tokens_used = match &resp.usage_metadata {
        Some(u) => Some(u.total_token_count),
        None => None,
    };
    let finish_reason = resp.candidates[0].finish_reason.clone();
    Ok(GenerationResponse { text, tokens_used, model, finish_reason })
}

/// The URL of a model action under a base URL, with the key as a query
/// parameter.
pub open spec fn action_url_spec(base: Seq<char>, model: Seq<char>, action: Seq<char>, key: Seq<char>) -> Seq<char> {
    trim_end_char(base, '/') + "/models/"@ + model + ":"@ + action + "?key="@ + key
}

/// The URL of a model action (`generateContent` or `embedContent`): the
/// configured base URL, or Google's public one, then the model and action;
/// without an API key the request is refused as unauthorized.
pub fn action_url(base_url: Option<&str>, model: &str, action: &str, api_key: Option<&str>) -> (r: Result<String, LlmError>)
    ensures
        api_key is None ==> r == Err::<String, LlmError>(LlmError::Unauthorized),
        api_key matches Some(k) ==> (r matches Ok(u) && u@ == action_url_spec(
            match base_url { Some(b) => b@, None => "https://generativelanguage.googleapis.com/v1beta"@ },
            model@, action@, k@)),
{
    let key = match api_key {
        Some(k) => k,
        None => {
            return Err(LlmError::Unauthorized);
        },
    };
    let base = match base_url {
        Some(b) => b,
        None => "https://generativelanguage.googleapis.com/v1beta",
    };
    let t = trim_end_matches(base, '/');
    let a = concat2(t.as_str(), "/models/");
    let b = concat2(a.as_str(), model);
    let c = concat2(b.as_str(), ":");
    let d = concat2(c.as_str(), action);
    let e = concat2(d.as_str(), "?key=");
    Ok(concat2(e.as_str(), key))
}

/// The models Gemini is known to serve.
pub fn known_models() -> (r: Vec<String>)
    ensures
        r@.len() == 5,
        r@[0]@ == "gemini-pro"@,
        r@[1]@ == "gemini-pro-vision"@,
        r@[2]@ == "gemini-1.5-pro"@,
        r@[3]@ == "gemini-1.5-flash"@,
        r@[4]@ == "embedding-001"@,
{
    let mut r: Vec<String> = Vec::new();
    r.push(String::from_str("gemini-pro"));
    r.push(String::from_str("gemini-pro-vision"));
    r.push(String::from_str("gemini-1.5-pro"));
    r.push(String::from_str("gemini-1.5-flash"));
    r.push(String::from_str("embedding-001"));
    r
}

} // verus!
