//! The built-in workflow steps. Each one reads the context and decides what
//! the workflow does next.

use vstd::prelude::*;
use crate::ids::{
    clock_now, instant_nanos, instant_nanos_exec, is_uuid_v4_text, new_uuid_string, parse_rfc3339_instant, rfc3339_instant,
};
use crate::json::empty_json_object;
use crate::llm::{Message, Role};
use crate::mcp::{ToolCall, ToolContent, ToolResult};
use crate::strmap::StrMap;
use crate::text::{
    concat2, contains_seq, decimal, join_seqs, join_strings, lowercased, push_str, starts_with_seq,
    str_contains, str_eq, str_starts_with, to_lowercase, u64_to_string, views,
};
use super::{meta_equals, meta_is, MemoryRecall, PauseType, SuspendReason, WorkflowContext, WorkflowDecision};

verus! {

/// Whether a lowercased user message asks about earlier conversations.
pub open spec fn is_memory_query(c: Seq<char>) -> bool {
    ||| contains_seq(c, "earlier"@)
    ||| contains_seq(c, "before"@)
    ||| contains_seq(c, "previous"@)
    ||| contains_seq(c, "remember"@)
    ||| contains_seq(c, "talked about"@)
    ||| contains_seq(c, "discussed"@)
    ||| contains_seq(c, "said"@)
    ||| contains_seq(c, "conversation"@)
    ||| contains_seq(c, "what do i"@)
    ||| contains_seq(c, "what did i"@)
    ||| contains_seq(c, "do i like"@)
    ||| contains_seq(c, "did i tell"@)
    ||| contains_seq(c, "did i mention"@)
    ||| (contains_seq(c, "what"@) && (contains_seq(c, "like"@) || contains_seq(c, "prefer"@)))
    ||| starts_with_seq(c, "do i"@)
    ||| starts_with_seq(c, "did i"@)
}

fn memory_query(c: &str) -> (r: bool)
    ensures
        r == is_memory_query(c@),
{
    str_contains(c, "earlier") || str_contains(c, "before") || str_contains(c, "previous")
        || str_contains(c, "remember") || str_contains(c, "talked about")
        || str_contains(c, "discussed") || str_contains(c, "said")
        || str_contains(c, "conversation") || str_contains(c, "what do i")
        || str_contains(c, "what did i") || str_contains(c, "do i like")
        || str_contains(c, "did i tell") || str_contains(c, "did i mention")
        || (str_contains(c, "what") && (str_contains(c, "like") || str_contains(c, "prefer")))
        || str_starts_with(c, "do i") || str_starts_with(c, "did i")
}

/// Whether the last message of the conversation is a user's.
pub open spec fn last_is_user(messages: Seq<Message>) -> bool {
    messages.len() > 0 && messages.last().role == Role::User
}

/// Whether the memory step asks for memories: the last message is a user's
/// that asks about earlier conversations, and none were retrieved for it yet.
pub open spec fn wants_memories(c: WorkflowContext) -> bool {
    &&& last_is_user(c.messages@)
    &&& !meta_is(c.metadata@, "memories_retrieved"@, "true"@)
    &&& is_memory_query(lowercased(c.messages@.last().content@))
}

/// Whether `d` retrieves memories for the last message of `c`, or continues,
/// as the memory step decides.
pub open spec fn memory_decision(c: WorkflowContext, d: WorkflowDecision) -> bool {
    if wants_memories(c) {
        d matches WorkflowDecision::RetrieveMemories(q) && q@ == c.messages@.last().content@
    } else {
        d is Continue
    }
}

/// The words and phrases by which a user's message asks about earlier
/// conversations: the message, in lower case, contains one of them.
pub open spec fn memory_phrase(p: Seq<char>) -> bool {
    ||| p == "earlier"@
    ||| p == "before"@
    ||| p == "previous"@
    ||| p == "remember"@
    ||| p == "talked about"@
    ||| p == "discussed"@
    ||| p == "said"@
    ||| p == "conversation"@
    ||| p == "what do i"@
    ||| p == "what did i"@
    ||| p == "do i like"@
    ||| p == "did i tell"@
    ||| p == "did i mention"@
}

/// Law: when the last message is a user's, no memories were retrieved for
/// it yet, and its lower-case text contains one of the memory phrases (such
/// as "remember"), begins with "do i" or "did i", or contains "what"
/// together with "like" or "prefer", the memory step retrieves memories
/// with that message's text as the query.
pub proof fn lemma_memory_questions_retrieve(c: WorkflowContext, d: WorkflowDecision, p: Seq<char>)
    requires
        memory_decision(c, d),
        c.messages@.len() > 0,
        c.messages@.last().role == Role::User,
        !(c.metadata@.contains_key("memories_retrieved"@) && c.metadata@["memories_retrieved"@]@ == "true"@),
        ({
            let lower = lowercased(c.messages@.last().content@);
            ||| (memory_phrase(p) && contains_seq(lower, p))
            ||| starts_with_seq(lower, "do i"@)
            ||| starts_with_seq(lower, "did i"@)
            ||| (contains_seq(lower, "what"@) && (contains_seq(lower, "like"@) || contains_seq(lower, "prefer"@)))
        }),
    ensures
        d matches WorkflowDecision::RetrieveMemories(q) && q@ == c.messages@.last().content@,
{
}

/// Law: the memory step goes on without memories when the last message is
/// not a user's, when memories were already retrieved for it, or when its
/// lower-case text uses none of the memory phrases and neither begins with
/// "do i" or "did i" nor contains "what" with "like" or "prefer".
pub proof fn lemma_other_messages_continue(c: WorkflowContext, d: WorkflowDecision)
    requires
        memory_decision(c, d),
        ({
            let lower = lowercased(c.messages@.last().content@);
            ||| c.messages@.len() == 0
            ||| c.messages@.last().role != Role::User
            ||| (c.metadata@.contains_key("memories_retrieved"@) && c.metadata@["memories_retrieved"@]@ == "true"@)
            ||| ((forall|p: Seq<char>| memory_phrase(p) ==> !contains_seq(lower, p))
                && !starts_with_seq(lower, "do i"@) && !starts_with_seq(lower, "did i"@)
                && !(contains_seq(lower, "what"@) && (contains_seq(lower, "like"@) || contains_seq(lower, "prefer"@))))
        }),
    ensures
        d is Continue,
{
    let lower = lowercased(c.messages@.last().content@);
    if c.messages@.len() > 0 && c.messages@.last().role == Role::User
        && !(c.metadata@.contains_key("memories_retrieved"@) && c.metadata@["memories_retrieved"@]@ == "true"@) {
        assert(memory_phrase("earlier"@));
        assert(memory_phrase("before"@));
        assert(memory_phrase("previous"@));
        assert(memory_phrase("remember"@));
        assert(memory_phrase("talked about"@));
        assert(memory_phrase("discussed"@));
        assert(memory_phrase("said"@));
        assert(memory_phrase("conversation"@));
        assert(memory_phrase("what do i"@));
        assert(memory_phrase("what did i"@));
        assert(memory_phrase("do i like"@));
        assert(memory_phrase("did i tell"@));
        assert(memory_phrase("did i mention"@));
    }
}

fn last_user_content(messages: &Vec<Message>) -> (r: Option<&String>)
    ensures
        r matches Some(s) ==> last_is_user(messages@) && s@ == messages@.last().content@,
        r is None ==> !last_is_user(messages@),
{
    let n = messages.len();
    if n == 0 {
        return None;
    }
    let last = &messages[n - 1];
    match last.role {
        Role::User => Some(&last.content),
        _ => None,
    }
}

/// Asks for memories when the user refers to earlier conversations.
pub struct MemoryRetrievalStep;

impl MemoryRetrievalStep {
    pub fn name(&self) -> (r: &'static str)
        ensures
            r@ == "memory_retrieval"@,
    {
        "memory_retrieval"
    }

    pub fn execute(&self, context: &WorkflowContext) -> (d: WorkflowDecision)
        ensures
            memory_decision(*context, d),
    {
        let already = meta_equals(&context.metadata, "memories_retrieved", "true");
        match last_user_content(&context.messages) {
            Some(content) => {
                if !already {
                    let lower = to_lowercase(content.as_str());
                    if memory_query(lower.as_str()) {
                        return WorkflowDecision::RetrieveMemories(content.clone());
                    }
                }
                WorkflowDecision::Continue
            },
            None => WorkflowDecision::Continue,
        }
    }
}

/// Whether `tools` lists `name`.
pub open spec fn lists(tools: Seq<String>, name: Seq<char>) -> bool {
    exists|i: int| 0 <= i < tools.len() && tools[i]@ == name
}

fn lists_tool(tools: &Vec<String>, name: &str) -> (r: bool)
    ensures
        r == lists(tools@, name@),
{
    let mut i: usize = 0;
    while i < tools.len()
        invariant
            i <= tools@.len(),
            forall|j: int| 0 <= j < i ==> tools@[j]@ != name@,
        decreases tools@.len() - i,
    {
        if str_eq(tools[i].as_str(), name) {
            return true;
        }
        i = i + 1;
    }
    false
}

/// Whether the tool step calls `system_info`: no tool has run yet, the last
/// message is a user's that mentions both "system" and "info", and the tool
/// is available.
pub open spec fn wants_system_info(c: WorkflowContext) -> bool {
    let lower = lowercased(c.messages@.last().content@);
    &&& c.tool_results@.dom().len() == 0
    &&& last_is_user(c.messages@)
    &&& contains_seq(lower, "system"@)
    &&& contains_seq(lower, "info"@)
    &&& lists(c.available_tools@, "system_info"@)
}

/// Calls the `system_info` tool when the user asks for system information.
pub struct ToolAnalysisStep;

impl ToolAnalysisStep {
    pub fn name(&self) -> (r: &'static str)
        ensures
            r@ == "tool_analysis"@,
    {
        "tool_analysis"
    }

    pub fn execute(&self, context: &WorkflowContext) -> (d: WorkflowDecision)
        ensures
            wants_system_info(*context) ==> (d matches WorkflowDecision::ExecuteTools(calls)
                && calls@.len() == 1 && calls@[0].name@ == "system_info"@ && is_uuid_v4_text(calls@[0].id@)),
            !wants_system_info(*context) ==> d is Continue,
    {
        if context.tool_results.len() != 0 {
            return WorkflowDecision::Continue;
        }
        match last_user_content(&context.messages) {
            Some(content) => {
                let lower = to_lowercase(content.as_str());
                if str_contains(lower.as_str(), "system") && str_contains(lower.as_str(), "info")
                    && lists_tool(&context.available_tools, "system_info") {
                    let call = ToolCall {
                        id: new_uuid_string(),
                        name: String::from_str("system_info"),
                        arguments: empty_json_object(),
                    };
                    let mut calls: Vec<ToolCall> = Vec::new();
                    calls.push(call);
                    return WorkflowDecision::ExecuteTools(calls);
                }
                WorkflowDecision::Continue
            },
            None => WorkflowDecision::Continue,
        }
    }
}

/// The texts among a tool result's contents, in order.
pub open spec fn content_texts(contents: Seq<ToolContent>) -> Seq<Seq<char>>
    decreases contents.len(),
{
    if contents.len() == 0 {
        Seq::empty()
    } else {
        let rest = content_texts(contents.drop_last());
        match contents.last() {
            ToolContent::Text { text } => rest.push(text@),
            _ => rest,
        }
    }
}

/// The texts of all tool results, result after result.
pub open spec fn result_texts(results: Seq<ToolResult>) -> Seq<Seq<char>>
    decreases results.len(),
{
    if results.len() == 0 {
        Seq::empty()
    } else {
        result_texts(results.drop_last()) + content_texts(results.last().content@)
    }
}

/// The line that lists memory number `i` (counting from zero).
pub open spec fn memory_line(i: nat, m: MemoryRecall) -> Seq<char> {
    decimal(i + 1) + ". "@ + m.content@
}

/// The lines for the first `n` memories.
pub open spec fn memory_lines(mems: Seq<MemoryRecall>, n: nat) -> Seq<Seq<char>>
    decreases n,
{
    if n == 0 {
        Seq::empty()
    } else {
        memory_lines(mems, (n - 1) as nat).push(memory_line((n - 1) as nat, mems[n - 1]))
    }
}

/// The parts of the generated response: the tool texts under a heading,
/// then up to three memories under a heading that gives their number.
pub open spec fn response_parts(c: WorkflowContext) -> Seq<Seq<char>> {
    let tools = if c.tool_results.value_seq().len() > 0 {
        seq!["Based on the tools I called:"@] + result_texts(c.tool_results.value_seq())
    } else {
        Seq::empty()
    };
    let n = c.memories@.len();
    let mems = if n > 0 {
        seq!["Based on our previous conversations, I found "@ + decimal(n) + " relevant memories:"@]
            + memory_lines(c.memories@, if n < 3 { n } else { 3 })
    } else {
        Seq::empty()
    };
    tools + mems
}

fn push_content_texts(parts: &mut Vec<String>, contents: &Vec<ToolContent>)
    ensures
        views(final(parts)@) == views(old(parts)@) + content_texts(contents@),
{
    let mut i: usize = 0;
    while i < contents.len()
        invariant
            i <= contents@.len(),
            views(parts@) == views(old(parts)@) + content_texts(contents@.take(i as int)),
        decreases contents@.len() - i,
    {
        let ghost before = parts@;
        proof {
            assert(contents@.take(i + 1).drop_last() =~= contents@.take(i as int));
        }
        match &contents[i] {
            ToolContent::Text { text } => {
                parts.push(text.clone());
                proof {
                    assert(views(parts@) =~= views(before).push(text@));
                }
            },
            _ => {},
        }
        i = i + 1;
    }
    assert(contents@.take(contents@.len() as int) =~= contents@);
}

fn push_result_texts(parts: &mut Vec<String>, results: &StrMap<ToolResult>)
    ensures
        views(final(parts)@) == views(old(parts)@) + result_texts(results.value_seq()),
{
    let n = results.len();
    let mut i: usize = 0;
    while i < n
        invariant
            n == results.value_seq().len(),
            i <= n,
            views(parts@) == views(old(parts)@) + result_texts(results.value_seq().take(i as int)),
        decreases n - i,
    {
        let (_, r) = results.entry_at(i);
        let ghost before = views(parts@);
        push_content_texts(parts, &r.content);
        proof {
            let t = results.value_seq().take(i + 1);
            assert(t.drop_last() =~= results.value_seq().take(i as int));
            assert(t.last() == *r);
            assert(views(parts@) =~= views(old(parts)@) + result_texts(t));
        }
        i = i + 1;
    }
    assert(results.value_seq().take(n as int) =~= results.value_seq());
}

/// Whether a response is left to the language model: the context holds
/// neither tool results nor memories.
pub open spec fn needs_model(c: WorkflowContext) -> bool {
    c.tool_results.value_seq().len() == 0 && c.memories@.len() == 0
}

/// The response that the response step gives where it has neither tool
/// results nor memories to draw on.
pub open spec fn general_response() -> Seq<char> {
    "I have no tool results or past conversations to draw on for this request, so the answer comes from the language model."@
}

/// The generated response: the response parts joined by blank lines, or the
/// general response where there are none.
pub open spec fn generated_response(c: WorkflowContext) -> Seq<char> {
    if needs_model(c) {
        general_response()
    } else {
        join_seqs(response_parts(c), "\n\n"@)
    }
}

/// The general response, which leaves the answer to the language model.
pub fn general_response_text() -> (r: &'static str)
    ensures
        r@ == general_response(),
{
    "I have no tool results or past conversations to draw on for this request, so the answer comes from the language model."
}

/// Whether the language model is to write the final response.
pub fn needs_model_response(context: &WorkflowContext) -> (r: bool)
    ensures
        r == needs_model(*context),
{
    context.tool_results.len() == 0 && context.memories.len() == 0
}

/// Writes the final response from tool results and memories.
pub struct ResponseGenerationStep;

impl ResponseGenerationStep {
    pub fn name(&self) -> (r: &'static str)
        ensures
            r@ == "response_generation"@,
    {
        "response_generation"
    }

    pub fn execute(&self, context: &WorkflowContext) -> (d: WorkflowDecision)
        ensures
            d matches WorkflowDecision::Complete(text) && text@ == generated_response(*context),
    {
        if needs_model_response(context) {
            return WorkflowDecision::Complete(String::from_str(general_response_text()));
        }
        let mut parts: Vec<String> = Vec::new();
        if context.tool_results.len() > 0 {
            parts.push(String::from_str("Based on the tools I called:"));
            push_result_texts(&mut parts, &context.tool_results);
        }
        let ghost tool_part = views(parts@);
        let n = context.memories.len();
        if n > 0 {
            let mut heading = String::from_str("Based on our previous conversations, I found ");
            push_str(&mut heading, u64_to_string(n as u64).as_str());
            push_str(&mut heading, " relevant memories:");
            parts.push(heading);
            let top = if n < 3 { n } else { 3 };
            let ghost head_part = views(parts@);
            let mut i: usize = 0;
            while i < top
                invariant
                    top <= n,
                    n == context.memories@.len(),
                    i <= top,
                    views(parts@) == head_part + memory_lines(context.memories@, i as nat),
                decreases top - i,
            {
                let mut line = u64_to_string((i + 1) as u64);
                push_str(&mut line, ". ");
                push_str(&mut line, context.memories[i].content.as_str());
                let ghost before = views(parts@);
                parts.push(line);
                proof {
                    assert(views(parts@) =~= before.push(line@));
                }
                i = i + 1;
            }
            proof {
                assert(views(parts@) =~= tool_part + (seq![heading@] + memory_lines(context.memories@, top as nat)));
            }
        }
        proof {
            assert(views(parts@) =~= response_parts(*context));
        }
        WorkflowDecision::Complete(join_strings(parts.as_slice(), "\n\n"))
    }
}

/// Asks for memories like the memory step, but suspends first while the
/// external memory service is marked unavailable.
pub struct EnhancedMemoryRetrievalStep;

impl EnhancedMemoryRetrievalStep {
    pub fn name(&self) -> (r: &'static str)
        ensures
            r@ == "enhanced_memory_retrieval"@,
    {
        "enhanced_memory_retrieval"
    }

    pub fn execute(&self, context: &WorkflowContext) -> (d: WorkflowDecision)
        ensures
            context.metadata@.contains_key("external_memory_unavailable"@) ==> (d matches
                WorkflowDecision::Suspend(SuspendReason::WaitingForResource(m))
                && m@ == "External memory service unavailable"@),
            !context.metadata@.contains_key("external_memory_unavailable"@) ==> memory_decision(*context, d),
    {
        if context.metadata.contains_key("external_memory_unavailable") {
            return WorkflowDecision::Suspend(SuspendReason::WaitingForResource(
                String::from_str("External memory service unavailable"),
            ));
        }
        MemoryRetrievalStep.execute(context)
    }

    /// The conditions under which this step suspends.
    pub fn suspend_points(&self) -> (r: Vec<String>)
        ensures
            views(r@) == seq!["external_memory_unavailable"@, "rate_limit_exceeded"@],
    {
        let mut r: Vec<String> = Vec::new();
        r.push(String::from_str("external_memory_unavailable"));
        r.push(String::from_str("rate_limit_exceeded"));
        assert(views(r@) =~= seq!["external_memory_unavailable"@, "rate_limit_exceeded"@]);
        r
    }
}

/// Waits for a person to approve before the workflow goes on.
pub struct HumanApprovalStep {
    pub approval_message: String,
}

impl HumanApprovalStep {
    pub fn new(message: String) -> (s: Self)
        ensures
            s.approval_message == message,
    {
        HumanApprovalStep { approval_message: message }
    }

    pub fn name(&self) -> (r: &'static str)
        ensures
            r@ == "human_approval"@,
    {
        "human_approval"
    }

    /// Continues once approval is granted, completes when it is denied, and
    /// otherwise suspends to wait for the answer.
    pub fn execute(&self, context: &WorkflowContext) -> (d: WorkflowDecision)
        ensures
            meta_is(context.metadata@, "human_approval"@, "granted"@) ==> d is Continue,
            meta_is(context.metadata@, "human_approval"@, "denied"@) ==> (d matches
                WorkflowDecision::Complete(t) && t@ == "Workflow stopped by user denial."@),
            !meta_is(context.metadata@, "human_approval"@, "granted"@)
                && !meta_is(context.metadata@, "human_approval"@, "denied"@) ==> (d matches
                WorkflowDecision::Suspend(SuspendReason::WaitingForInput(m)) && m@ == self.approval_message@),
    {
        proof {
            reveal_strlit("granted");
            reveal_strlit("denied");
            assert("granted"@.len() != "denied"@.len());
        }
        if meta_equals(&context.metadata, "human_approval", "granted") {
            WorkflowDecision::Continue
        } else if meta_equals(&context.metadata, "human_approval", "denied") {
            WorkflowDecision::Complete(String::from_str("Workflow stopped by user denial."))
        } else {
            WorkflowDecision::Suspend(SuspendReason::WaitingForInput(self.approval_message.clone()))
        }
    }

    pub fn suspend_points(&self) -> (r: Vec<String>)
        ensures
            views(r@) == seq!["waiting_for_approval"@],
    {
        let mut r: Vec<String> = Vec::new();
        r.push(String::from_str("waiting_for_approval"));
        assert(views(r@) =~= seq!["waiting_for_approval"@]);
        r
    }
}

/// Calls an API no more often than a number of times a minute.
pub struct RateLimitedApiStep {
    pub api_name: String,
    pub calls_per_minute: u32,
}

/// The metadata key under which the last call to `api` is recorded.
pub open spec fn last_call_key(api: Seq<char>) -> Seq<char> {
    api + "_last_call"@
}

/// The least time between two calls, in nanoseconds: a minute divided by the
/// allowed calls, in whole seconds.
pub open spec fn min_interval_nanos(calls_per_minute: u32) -> int {
    (60int / (calls_per_minute as int)) * 1_000_000_000int
}

/// Whether a call at `now` comes too early after the recorded last call.
pub open spec fn too_early(meta: Map<Seq<char>, String>, api: Seq<char>, calls_per_minute: u32, now: int) -> bool {
    &&& meta.contains_key(last_call_key(api))
    &&& rfc3339_instant(meta[last_call_key(api)]@) matches Some((s, n))
    &&& now - instant_nanos(s, n) < min_interval_nanos(calls_per_minute)
}

impl RateLimitedApiStep {
    pub fn new(api_name: String, calls_per_minute: u32) -> (s: Self)
        ensures
            s.api_name == api_name,
            s.calls_per_minute == calls_per_minute,
    {
        RateLimitedApiStep { api_name, calls_per_minute }
    }

    pub fn name(&self) -> (r: &'static str)
        ensures
            r@ == "rate_limited_api"@,
    {
        "rate_limited_api"
    }

    /// Reads the clock and decides as `execute_at` does for that reading.
    pub fn execute(&self, context: &mut WorkflowContext) -> (d: WorkflowDecision)
        requires
            self.calls_per_minute > 0,
        ensures
            d is Continue || d matches WorkflowDecision::Suspend(SuspendReason::RateLimit),
            d is Continue ==> final(context).metadata@.dom()
                == old(context).metadata@.dom().insert(last_call_key(self.api_name@)),
            !(d is Continue) ==> final(context).metadata@ == old(context).metadata@,
            final(context).messages@ == old(context).messages@,
            final(context).tool_results@ == old(context).tool_results@,
            final(context).step_count == old(context).step_count,
    {
        let now = clock_now();
        self.execute_at(context, now.unix_seconds, now.subsec_nanos, now.rfc3339)
    }

    /// Suspends for the rate limit when the last recorded call lies less
    /// than the least interval before the instant `now_secs` seconds and
    /// `now_nanos` nanoseconds after the epoch; otherwise records `now_text`
    /// as the last call and continues.
    pub fn execute_at(&self, context: &mut WorkflowContext, now_secs: i64, now_nanos: u32, now_text: String) -> (d: WorkflowDecision)
        requires
            self.calls_per_minute > 0,
        ensures
            too_early(old(context).metadata@, self.api_name@, self.calls_per_minute, instant_nanos(now_secs, now_nanos)) ==> (
                d matches WorkflowDecision::Suspend(SuspendReason::RateLimit)
                && final(context).metadata@ == old(context).metadata@),
            !too_early(old(context).metadata@, self.api_name@, self.calls_per_minute, instant_nanos(now_secs, now_nanos)) ==> (
                d is Continue
                && final(context).metadata@ == old(context).metadata@.insert(
                    last_call_key(self.api_name@), final(context).metadata@[last_call_key(self.api_name@)])
                && final(context).metadata@[last_call_key(self.api_name@)]@ == now_text@),
            final(context).messages@ == old(context).messages@,
            final(context).memories@ == old(context).memories@,
            final(context).available_tools@ == old(context).available_tools@,
            final(context).tool_results@ == old(context).tool_results@,
            final(context).step_count == old(context).step_count,
            final(context).max_steps == old(context).max_steps,
    {
        let key = concat2(self.api_name.as_str(), "_last_call");
        let early = match context.metadata.get(key.as_str()) {
            Some(last_text) => match parse_rfc3339_instant(last_text.as_str()) {
                Some((ls, ln)) => {
                    let interval: i128 = ((60u32 / self.calls_per_minute) as i128) * 1_000_000_000i128;
                    instant_nanos_exec(now_secs, now_nanos) - instant_nanos_exec(ls, ln) < interval
                },
                None => false,
            },
            None => false,
        };
        if early {
            return WorkflowDecision::Suspend(SuspendReason::RateLimit);
        }
        context.metadata.insert(key, now_text);
        WorkflowDecision::Continue
    }

    pub fn suspend_points(&self) -> (r: Vec<String>)
        ensures
            views(r@) == seq!["rate_limit_exceeded"@],
    {
        let mut r: Vec<String> = Vec::new();
        r.push(String::from_str("rate_limit_exceeded"));
        assert(views(r@) =~= seq!["rate_limit_exceeded"@]);
        r
    }
}

/// Pauses the workflow for a number of milliseconds.
pub struct SleepStep {
    pub duration_ms: u64,
}

impl SleepStep {
    pub fn new(duration_ms: u64) -> (s: Self)
        ensures
            s.duration_ms == duration_ms,
    {
        SleepStep { duration_ms }
    }

    pub fn name(&self) -> (r: &'static str)
        ensures
            r@ == "sleep"@,
    {
        "sleep"
    }

    pub fn execute(&self, context: &WorkflowContext) -> (d: WorkflowDecision)
        ensures
            d == WorkflowDecision::Sleep(self.duration_ms),
    {
        WorkflowDecision::Sleep(self.duration_ms)
    }
}

/// Pauses the workflow until an instant, in nanoseconds since the epoch.
pub struct SleepUntilStep {
    pub timestamp: i64,
}

impl SleepUntilStep {
    pub fn new(timestamp: i64) -> (s: Self)
        ensures
            s.timestamp == timestamp,
    {
        SleepUntilStep { timestamp }
    }

    pub fn name(&self) -> (r: &'static str)
        ensures
            r@ == "sleep_until"@,
    {
        "sleep_until"
    }

    pub fn execute(&self, context: &WorkflowContext) -> (d: WorkflowDecision)
        ensures
            d == WorkflowDecision::SleepUntil(self.timestamp),
    {
        WorkflowDecision::SleepUntil(self.timestamp)
    }
}

/// Pauses the workflow until an event arrives.
pub struct WaitForEventStep {
    pub event_id: String,
    pub timeout_ms: Option<u64>,
}

impl WaitForEventStep {
    pub fn new(event_id: String, timeout_ms: Option<u64>) -> (s: Self)
        ensures
            s.event_id == event_id,
            s.timeout_ms == timeout_ms,
    {
        WaitForEventStep { event_id, timeout_ms }
    }

    pub fn name(&self) -> (r: &'static str)
        ensures
            r@ == "wait_for_event"@,
    {
        "wait_for_event"
    }

    pub fn execute(&self, context: &WorkflowContext) -> (d: WorkflowDecision)
        ensures
            d matches WorkflowDecision::WaitForEvent { event_id, timeout_ms }
                && event_id@ == self.event_id@ && timeout_ms == self.timeout_ms,
    {
        WorkflowDecision::WaitForEvent { event_id: self.event_id.clone(), timeout_ms: self.timeout_ms }
    }

    pub fn suspend_points(&self) -> (r: Vec<String>)
        ensures
            views(r@) == seq!["waiting_for_event_"@ + self.event_id@],
    {
        let mut r: Vec<String> = Vec::new();
        r.push(concat2("waiting_for_event_", self.event_id.as_str()));
        assert(views(r@) =~= seq!["waiting_for_event_"@ + self.event_id@]);
        r
    }
}

/// Pauses the workflow when a metadata flag is set to "true".
pub struct ConditionalPauseStep {
    pub condition_key: String,
    pub pause_type: PauseType,
}

/// The decision that pausing as `p` takes.
pub open spec fn pause_decision(p: PauseType, d: WorkflowDecision) -> bool {
    match p {
        PauseType::Sleep(ms) => d == WorkflowDecision::Sleep(ms),
        PauseType::SleepUntil(t) => d == WorkflowDecision::SleepUntil(t),
        PauseType::WaitForEvent { event_id, timeout_ms } => d matches WorkflowDecision::WaitForEvent { event_id: e, timeout_ms: t }
            && e@ == event_id@ && t == timeout_ms,
    }
}

impl ConditionalPauseStep {
    pub fn new(condition_key: String, pause_type: PauseType) -> (s: Self)
        ensures
            s.condition_key == condition_key,
            s.pause_type == pause_type,
    {
        ConditionalPauseStep { condition_key, pause_type }
    }

    pub fn name(&self) -> (r: &'static str)
        ensures
            r@ == "conditional_pause"@,
    {
        "conditional_pause"
    }

    pub fn execute(&self, context: &WorkflowContext) -> (d: WorkflowDecision)
        ensures
            meta_is(context.metadata@, self.condition_key@, "true"@) ==> pause_decision(self.pause_type, d),
            !meta_is(context.metadata@, self.condition_key@, "true"@) ==> d is Continue,
    {
        if meta_equals(&context.metadata, self.condition_key.as_str(), "true") {
            match &self.pause_type {
                PauseType::Sleep(ms) => WorkflowDecision::Sleep(*ms),
                PauseType::SleepUntil(t) => WorkflowDecision::SleepUntil(*t),
                PauseType::WaitForEvent { event_id, timeout_ms } => WorkflowDecision::WaitForEvent {
                    event_id: event_id.clone(),
                    timeout_ms: *timeout_ms,
                },
            }
        } else {
            WorkflowDecision::Continue
        }
    }
}

} // verus!
