//! What the agent decides about its conversation: how much history it
//! keeps, and what it tells the model about tools and memories.

use vstd::prelude::*;
use crate::llm::{assistant_message, Message, Role};
use crate::mcp::{McpStats, ToolContent, ToolResult};
use crate::memory::MemoryStats;
use crate::strmap::StrMap;
use crate::text::{push_str, views};
use crate::workflow::MemoryRecall;

verus! {

/// What the agent reports of itself.
#[derive(Debug, Clone)]
pub struct AgentStats {
    pub conversation_length: usize,
    pub memory_stats: MemoryStats,
    pub mcp_stats: McpStats,
    pub builtin_tools_count: usize,
}

/// The conversation cut down to at most `max` messages: a leading system
/// message stays, followed by the latest messages that fit.
pub open spec fn limited_history(c: Seq<Message>, max: nat) -> Seq<Message> {
    if c.len() <= max {
        c
    } else if max > 0 && c[0].role == Role::System {
        seq![c[0]] + c.skip(c.len() - (max - 1))
    } else {
        c.skip(c.len() - max)
    }
}

/// Cuts the conversation down to at most `max` messages, keeping the
/// leading system message and the latest ones.
pub fn limit_history(conversation: Vec<Message>, max: usize) -> (r: Vec<Message>)
    ensures
        r@ == limited_history(conversation@, max as nat),
{
    let n = conversation.len();
    if n <= max {
        return conversation;
    }
    let system = max > 0 && conversation[0].role == Role::System;
    let keep_from = if system { n - (max - 1) } else { n - max };
    let mut r: Vec<Message> = Vec::new();
    if system {
        r.push(conversation[0].clone());
    }
    let ghost head = r@;
    let mut i = keep_from;
    while i < n
        invariant
            keep_from <= i <= n,
            n == conversation@.len(),
            r@ == head + conversation@.subrange(keep_from as int, i as int),
        decreases n - i,
    {
        r.push(conversation[i].clone());
        proof {
            assert(r@ =~= head + conversation@.subrange(keep_from as int, i + 1));
        }
        i = i + 1;
    }
    proof {
        assert(conversation@.subrange(keep_from as int, n as int) =~= conversation@.skip(keep_from as int));
        if system {
            assert(head =~= seq![conversation@[0]]);
        } else {
            assert(head =~= Seq::<Message>::empty());
            assert(r@ =~= conversation@.skip(keep_from as int));
        }
    }
    r
}

/// Law: a cut-down conversation holds at most the limit of messages, keeps
/// a leading system message where the limit leaves room for one, and ends
/// with the latest messages.
pub proof fn lemma_limited_history(c: Seq<Message>, max: nat)
    ensures
        limited_history(c, max).len() <= max,
        limited_history(c, max).len() <= c.len(),
        c.len() > 0 && c[0].role == Role::System && max > 0 ==> limited_history(c, max)[0] == c[0],
        forall|k: int| 0 <= k < max - 1 && k < c.len() ==>
            #[trigger] limited_history(c, max)[limited_history(c, max).len() - 1 - k] == c[c.len() - 1 - k],
{
    if c.len() > max {
        if max > 0 && c[0].role == Role::System {
            assert forall|k: int| 0 <= k < max - 1 && k < c.len() implies
                #[trigger] limited_history(c, max)[limited_history(c, max).len() - 1 - k] == c[c.len() - 1 - k] by {
                assert((seq![c[0]] + c.skip(c.len() - (max - 1))).len() == max);
            }
        }
    }
}

/// The conversation after it is cleared: only a leading system message
/// stays.
pub fn cleared_history(conversation: &Vec<Message>) -> (r: Vec<Message>)
    ensures
        conversation@.len() > 0 && conversation@[0].role == Role::System ==> r@ == seq![conversation@[0]],
        !(conversation@.len() > 0 && conversation@[0].role == Role::System) ==> r@.len() == 0,
{
    let mut r: Vec<Message> = Vec::new();
    if conversation.len() > 0 && conversation[0].role == Role::System {
        r.push(conversation[0].clone());
        assert(r@ =~= seq![conversation@[0]]);
    }
    r
}

/// The lines that tell the model what the tools gave: one per text, in the
/// order of the results.
pub open spec fn tool_lines(results: Seq<ToolResult>) -> Seq<char>
    decreases results.len(),
{
    if results.len() == 0 {
        Seq::empty()
    } else {
        tool_lines(results.drop_last()) + text_lines(results.last().content@)
    }
}

/// One line, behind a dash, per text among the contents.
pub open spec fn text_lines(contents: Seq<ToolContent>) -> Seq<char>
    decreases contents.len(),
{
    if contents.len() == 0 {
        Seq::empty()
    } else {
        let rest = text_lines(contents.drop_last());
        match contents.last() {
            ToolContent::Text { text } => rest + "- "@ + text@ + "\n"@,
            _ => rest,
        }
    }
}

/// One line, behind a dash, per memory.
pub open spec fn memory_lines(mems: Seq<MemoryRecall>) -> Seq<char>
    decreases mems.len(),
{
    if mems.len() == 0 {
        Seq::empty()
    } else {
        memory_lines(mems.drop_last()) + "- "@ + mems.last().content@ + "\n"@
    }
}

/// What the model is told of the tool results.
pub fn tool_summary(results: &StrMap<ToolResult>) -> (r: String)
    ensures
        r@ == "Tool results:\n"@ + tool_lines(results.value_seq()),
{
    let mut r = String::from_str("Tool results:\n");
    let n = results.len();
    let mut i: usize = 0;
    while i < n
        invariant
            n == results.value_seq().len(),
            i <= n,
            r@ == "Tool results:\n"@ + tool_lines(results.value_seq().take(i as int)),
        decreases n - i,
    {
        proof {
            assert(results.value_seq().take(i + 1).drop_last() =~= results.value_seq().take(i as int));
        }
        let (_, res) = results.entry_at(i);
        let ghost base = r@;
        let mut j: usize = 0;
        while j < res.content.len()
            invariant
                j <= res.content@.len(),
                r@ == base + text_lines(res.content@.take(j as int)),
            decreases res.content@.len() - j,
        {
            proof {
                assert(res.content@.take(j + 1).drop_last() =~= res.content@.take(j as int));
            }
            match &res.content[j] {
                ToolContent::Text { text } => {
                    push_str(&mut r, "- ");
                    push_str(&mut r, text.as_str());
                    push_str(&mut r, "\n");
                },
                _ => {},
            }
            j = j + 1;
        }
        proof {
            assert(res.content@.take(res.content@.len() as int) =~= res.content@);
            assert(results.value_seq().take(i + 1).last() == *res);
        }
        i = i + 1;
    }
    proof {
        assert(results.value_seq().take(n as int) =~= results.value_seq());
    }
    r
}

/// What the model is told of the retrieved memories.
pub fn memory_summary(memories: &Vec<MemoryRecall>) -> (r: String)
    ensures
        r@ == "Relevant memories:\n"@ + memory_lines(memories@),
{
    let mut r = String::from_str("Relevant memories:\n");
    let mut i: usize = 0;
    while i < memories.len()
        invariant
            i <= memories@.len(),
            r@ == "Relevant memories:\n"@ + memory_lines(memories@.take(i as int)),
        decreases memories@.len() - i,
    {
        proof {
            assert(memories@.take(i + 1).drop_last() =~= memories@.take(i as int));
        }
        push_str(&mut r, "- ");
        push_str(&mut r, memories[i].content.as_str());
        push_str(&mut r, "\n");
        i = i + 1;
    }
    assert(memories@.take(memories@.len() as int) =~= memories@);
    r
}

/// The messages the model answers: the conversation, then a summary of the
/// tool results where there are any, then a summary of the memories where
/// there are any and memory is in use.
pub fn final_messages(messages: &Vec<Message>, results: &StrMap<ToolResult>, memories: &Vec<MemoryRecall>, use_memory: bool) -> (r: Vec<Message>)
    ensures
        r@.take(messages@.len() as int) == messages@,
        r@.len() == messages@.len() + (if results.value_seq().len() > 0 { 1int } else { 0 })
            + (if memories@.len() > 0 && use_memory { 1int } else { 0 }),
        results.value_seq().len() > 0 ==> r@[messages@.len() as int].role == Role::Assistant
            && r@[messages@.len() as int].content@ == "Tool results:\n"@ + tool_lines(results.value_seq()),
        memories@.len() > 0 && use_memory ==> r@.last().role == Role::Assistant
            && r@.last().content@ == "Relevant memories:\n"@ + memory_lines(memories@),
{
    let mut r: Vec<Message> = Vec::new();
    let mut i: usize = 0;
    while i < messages.len()
        invariant
            i <= messages@.len(),
            r@ == messages@.take(i as int),
        decreases messages@.len() - i,
    {
        r.push(messages[i].clone());
        proof {
            assert(r@ =~= messages@.take(i + 1));
        }
        i = i + 1;
    }
    if results.len() > 0 {
        let s = tool_summary(results);
        r.push(assistant_message(s.as_str()));
    }
    if memories.len() > 0 && use_memory {
        let s = memory_summary(memories);
        r.push(assistant_message(s.as_str()));
    }
    proof {
        assert(r@.take(messages@.len() as int) =~= messages@);
    }
    r
}

/// The text under which an exchange is remembered.
pub fn conversation_memory_text(user_input: &str, response: &str) -> (r: String)
    ensures
        r@ == "User: "@ + user_input@ + "\nAssistant: "@ + response@,
{
    let mut r = String::from_str("User: ");
    push_str(&mut r, user_input);
    push_str(&mut r, "\nAssistant: ");
    push_str(&mut r, response);
    r
}

} // verus!
