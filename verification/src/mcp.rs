//! Tools offered by MCP servers, tool calls and their results.

use vstd::prelude::*;
use crate::strmap::StrMap;
use crate::text::{concat2, str_eq, views};

verus! {

/// A tool that an MCP server offers.
#[derive(Debug)]
pub struct McpTool {
    pub name: String,
    pub description: String,
    pub input_schema: serde_json::Value,
}

/// A request to call a tool.
#[derive(Debug)]
pub struct ToolCall {
    pub id: String,
    pub name: String,
    pub arguments: serde_json::Value,
}

/// A piece of a tool's result.
#[derive(Debug, Clone)]
pub enum ToolContent {
    Text { text: String },
    Image { data: String, mime_type: String },
    Resource { uri: String, text: Option<String> },
}

/// The result of a tool call.
#[derive(Debug, Clone)]
pub struct ToolResult {
    pub id: String,
    pub content: Vec<ToolContent>,
    pub is_error: bool,
}

/// How an MCP server is reached.
#[derive(Debug, Clone)]
pub enum McpTransport {
    Http { url: String, auth_token: Option<String> },
    WebSocket { url: String, auth_token: Option<String> },
    Stdio { command: Vec<String>, env: StrMap<String> },
}

/// Statistics of the connected servers.
#[derive(Debug, Clone)]
pub struct McpStats {
    pub connected_servers: usize,
    pub total_tools: usize,
    pub servers: StrMap<usize>,
}

/// The error result reported for a tool call that failed with `reason`.
pub fn failed_tool_result(id: String, reason: &str) -> (r: ToolResult)
    ensures
        r.id == id,
        r.is_error,
        r.content@.len() == 1,
        r.content@[0] matches ToolContent::Text { text } && text@ == "Tool call failed: "@ + reason@,
{
    let mut content: Vec<ToolContent> = Vec::new();
    content.push(ToolContent::Text { text: concat2("Tool call failed: ", reason) });
    ToolResult { id, content, is_error: true }
}

/// A content item of a tool's reply as it was read: the tool content it
/// parses as, if it does, and its `text` field, if it has a string one.
#[derive(Debug)]
pub struct ReplyItem {
    pub parsed: Option<ToolContent>,
    pub text: Option<String>,
}

/// What a reply item contributes: the content it parses as; else a text
/// from its `text` field; else nothing.
pub open spec fn item_content(item: ReplyItem) -> Option<ToolContent> {
    match item.parsed {
        Some(c) => Some(c),
        None => match item.text {
            Some(t) => Some(ToolContent::Text { text: t }),
            None => None,
        },
    }
}

/// The contents that the reply items contribute, in their order.
pub open spec fn reply_contents(items: Seq<ReplyItem>) -> Seq<ToolContent>
    decreases items.len(),
{
    if items.len() == 0 {
        Seq::empty()
    } else {
        let rest = reply_contents(items.drop_last());
        match item_content(items.last()) {
            Some(c) => rest.push(c),
            None => rest,
        }
    }
}

/// The result of tool call `id` from the server's reply: the contents of
/// the reply's `content` items where it has that array, else the whole
/// reply text as one text; an error exactly where the reply's `isError` is
/// true.
pub fn tool_result_from_reply(id: String, items: Option<Vec<ReplyItem>>, reply_text: String, is_error: Option<bool>) -> (r: ToolResult)
    ensures
        r.id == id,
        r.is_error == (is_error == Some(true)),
        items matches Some(v) ==> r.content@ == reply_contents(v@),
        items is None ==> r.content@ == seq![ToolContent::Text { text: reply_text }],
{
    let is_error = match is_error {
        Some(b) => b,
        None => false,
    };
    match items {
        Some(v) => {
            let ghost orig = v@;
            let mut rest = v;
            let mut content: Vec<ToolContent> = Vec::new();
            proof {
                assert(orig.take(0) =~= Seq::<ReplyItem>::empty());
            }
            while rest.len() > 0
                invariant
                    rest@ == orig.skip(orig.len() - rest@.len()),
                    content@ == reply_contents(orig.take(orig.len() - rest@.len())),
                    rest@.len() <= orig.len(),
                decreases rest@.len(),
            {
                let ghost c = orig.len() - rest@.len();
                let ghost before = rest@;
                let item = rest.remove(0);
                proof {
                    assert(before[0] == orig[c]);
                    assert(orig.take(c + 1).drop_last() =~= orig.take(c));
                    assert(rest@ =~= orig.skip(c + 1));
                }
                match item.parsed {
                    Some(p) => content.push(p),
                    None => match item.text {
                        Some(t) => content.push(ToolContent::Text { text: t }),
                        None => {},
                    },
                }
            }
            proof {
                assert(orig.take(orig.len() as int) =~= orig);
            }
            ToolResult { id, content, is_error }
        },
        None => {
            let mut content: Vec<ToolContent> = Vec::new();
            content.push(ToolContent::Text { text: reply_text });
            proof {
                assert(content@ =~= seq![ToolContent::Text { text: reply_text }]);
            }
            ToolResult { id, content, is_error }
        },
    }
}

/// The tools each connected server offers, by server name.
#[derive(Debug)]
pub struct ToolCatalog {
    pub servers: StrMap<Vec<McpTool>>,
}

/// Whether a list of tools holds one named `name`.
pub open spec fn offers(tools: Seq<McpTool>, name: Seq<char>) -> bool {
    exists|j: int| 0 <= j < tools.len() && tools[j].name@ == name
}

impl ToolCatalog {
    /// Whether some server of the catalog offers a tool named `name`.
    pub open spec fn serves(&self, name: Seq<char>) -> bool {
        exists|k: int| 0 <= k < self.servers.key_seq().len() && offers(#[trigger] self.servers.value_seq()[k]@, name)
    }

    /// An empty catalog.
    pub fn new() -> (c: Self)
        ensures
            c.servers@ == Map::<Seq<char>, Vec<McpTool>>::empty(),
    {
        ToolCatalog { servers: StrMap::new() }
    }

    /// The first server, in catalog order, that offers a tool named `name`,
    /// with the first such tool of its list.
    pub fn find_tool_server(&self, name: &str) -> (r: Option<(&String, &McpTool)>)
        ensures
            match r {
                Some((server, tool)) => self.servers@.contains_key(server@)
                    && tool.name@ == name@
                    && (exists|j: int| 0 <= j < self.servers@[server@]@.len() && #[trigger] self.servers@[server@]@[j] == *tool
                        && forall|m: int| 0 <= m < j ==> self.servers@[server@]@[m].name@ != name@)
                    && exists|i: int| 0 <= i < self.servers.key_seq().len() && self.servers.key_seq()[i] == server@
                        && (forall|k: int| 0 <= k < i ==> !offers(self.servers.value_seq()[k]@, name@)),
                None => forall|k: int| 0 <= k < self.servers.key_seq().len() ==> !offers(self.servers.value_seq()[k]@, name@),
            },
            r.is_some() == self.serves(name@),
    {
        let n = self.servers.len();
        let mut i: usize = 0;
        while i < n
            invariant
                n == self.servers.key_seq().len(),
                i <= n,
                forall|k: int| 0 <= k < i ==> !offers(self.servers.value_seq()[k]@, name@),
            decreases n - i,
        {
            let (server, tools) = self.servers.entry_at(i);
            let mut j: usize = 0;
            while j < tools.len()
                invariant
                    i < n,
                    n == self.servers.key_seq().len(),
                    server@ == self.servers.key_seq()[i as int],
                    *tools == self.servers.value_seq()[i as int],
                    self.servers@.contains_key(server@),
                    self.servers@[server@] == *tools,
                    forall|k: int| 0 <= k < i ==> !offers(self.servers.value_seq()[k]@, name@),
                    j <= tools@.len(),
                    forall|m: int| 0 <= m < j ==> tools@[m].name@ != name@,
                decreases tools@.len() - j,
            {
                if str_eq(tools[j].name.as_str(), name) {
                    proof {
                        assert(offers(self.servers.value_seq()[i as int]@, name@));
                    }
                    return Some((server, &tools[j]));
                }
                j = j + 1;
            }
            assert(!offers(self.servers.value_seq()[i as int]@, name@));
            i = i + 1;
        }
        None
    }
}

/// The number of tools of all servers.
pub open spec fn total_tools(lists: Seq<Vec<McpTool>>) -> nat
    decreases lists.len(),
{
    if lists.len() == 0 { 0 } else { total_tools(lists.drop_last()) + lists.last()@.len() }
}

/// The names of all tools, server after server.
pub open spec fn all_tool_names(lists: Seq<Vec<McpTool>>) -> Seq<Seq<char>>
    decreases lists.len(),
{
    if lists.len() == 0 {
        Seq::empty()
    } else {
        all_tool_names(lists.drop_last()) + lists.last()@.map_values(|t: McpTool| t.name@)
    }
}

impl ToolCatalog {
    /// Records the tools that server `name` offers.
    pub fn set_tools(&mut self, name: String, tools: Vec<McpTool>)
        ensures
            final(self).servers@ == old(self).servers@.insert(name@, tools),
    {
        self.servers.insert(name, tools);
    }

    /// Forgets the tools of server `name`.
    pub fn remove_server(&mut self, name: &str)
        ensures
            final(self).servers@ == old(self).servers@.remove(name@),
    {
        self.servers.remove(name);
    }

    /// The names of all tools, server after server.
    pub fn tool_names(&self) -> (r: Vec<String>)
        ensures
            views(r@) == all_tool_names(self.servers.value_seq()),
    {
        let n = self.servers.len();
        let mut r: Vec<String> = Vec::new();
        let mut i: usize = 0;
        while i < n
            invariant
                n == self.servers.value_seq().len(),
                i <= n,
                views(r@) == all_tool_names(self.servers.value_seq().take(i as int)),
            decreases n - i,
        {
            proof {
                assert(self.servers.value_seq().take(i + 1).drop_last() =~= self.servers.value_seq().take(i as int));
            }
            let (_, tools) = self.servers.entry_at(i);
            let ghost base = views(r@);
            let mut j: usize = 0;
            while j < tools.len()
                invariant
                    j <= tools@.len(),
                    views(r@) == base + tools@.take(j as int).map_values(|t: McpTool| t.name@),
                decreases tools@.len() - j,
            {
                let ghost before = views(r@);
                r.push(tools[j].name.clone());
                proof {
                    assert(views(r@) =~= before.push(tools@[j as int].name@));
                    assert(tools@.take(j + 1).map_values(|t: McpTool| t.name@)
                        =~= tools@.take(j as int).map_values(|t: McpTool| t.name@).push(tools@[j as int].name@));
                }
                j = j + 1;
            }
            proof {
                assert(tools@.take(tools@.len() as int) =~= tools@);
                assert(self.servers.value_seq().take(i + 1).last() == *tools);
            }
            i = i + 1;
        }
        proof {
            assert(self.servers.value_seq().take(n as int) =~= self.servers.value_seq());
        }
        r
    }

    /// The statistics of the catalog, with `connected_servers` servers
    /// connected.
    pub fn stats(&self, connected_servers: usize) -> (s: McpStats)
        requires
            total_tools(self.servers.value_seq()) <= usize::MAX,
        ensures
            s.connected_servers == connected_servers,
            s.total_tools == total_tools(self.servers.value_seq()),
            s.servers@.dom() == self.servers@.dom(),
            forall|k: Seq<char>| #[trigger] self.servers@.contains_key(k) ==> s.servers@[k] == self.servers@[k]@.len(),
    {
        let n = self.servers.len();
        let mut per: StrMap<usize> = StrMap::new();
        let mut total: usize = 0;
        let mut i: usize = 0;
        self.servers.entry_facts();
        proof {
            assert forall|j: int| 0 <= j < n implies #[trigger] self.servers@.contains_key(self.servers.key_seq()[j])
                && self.servers@[self.servers.key_seq()[j]] == self.servers.value_seq()[j] by {
                assert(self.servers@.contains_key(self.servers.key_seq()[j]));
            }
            assert(per@.dom() =~= self.servers.key_seq().take(0).to_set());
        }
        while i < n
            invariant
                n == self.servers.value_seq().len(),
                n == self.servers.key_seq().len(),
                i <= n,
                total_tools(self.servers.value_seq()) <= usize::MAX,
                total == total_tools(self.servers.value_seq().take(i as int)),
                self.servers.key_seq().no_duplicates(),
                forall|j: int| 0 <= j < n ==> #[trigger] self.servers@.contains_key(self.servers.key_seq()[j])
                    && self.servers@[self.servers.key_seq()[j]] == self.servers.value_seq()[j],
                forall|k: Seq<char>| #[trigger] self.servers@.contains_key(k) ==> self.servers.key_seq().contains(k),
                per@.dom() == self.servers.key_seq().take(i as int).to_set(),
                forall|j: int| 0 <= j < i ==> #[trigger] per@[self.servers.key_seq()[j]] == self.servers.value_seq()[j]@.len(),
            decreases n - i,
        {
            proof {
                assert(self.servers.value_seq().take(i + 1).drop_last() =~= self.servers.value_seq().take(i as int));
                lemma_total_prefix(self.servers.value_seq(), i + 1);
            }
            let (name, tools) = self.servers.entry_at(i);
            total = total + tools.len();
            per.insert(name.clone(), tools.len());
            proof {
                assert(self.servers.key_seq().take(i + 1) =~= self.servers.key_seq().take(i as int).push(name@));
                self.servers.key_seq().take(i as int).lemma_push_to_set_commute(name@);
                assert forall|j: int| 0 <= j < i + 1 implies #[trigger] per@[self.servers.key_seq()[j]] == self.servers.value_seq()[j]@.len() by {
                    if j < i {
                        assert(self.servers.key_seq()[j] != self.servers.key_seq()[i as int]);
                    }
                }
            }
            i = i + 1;
        }
        proof {
            assert(self.servers.value_seq().take(n as int) =~= self.servers.value_seq());
            assert(self.servers.key_seq().take(n as int) =~= self.servers.key_seq());
            assert(per@.dom() =~= self.servers@.dom()) by {
                assert forall|k: Seq<char>| per@.dom().contains(k) <==> self.servers@.dom().contains(k) by {
                    if per@.dom().contains(k) {
                        let j = choose|j: int| 0 <= j < n && self.servers.key_seq()[j] == k;
                        assert(self.servers@.contains_key(self.servers.key_seq()[j]));
                    }
                    if self.servers@.contains_key(k) {
                        assert(self.servers.key_seq().contains(k));
                    }
                }
            }
            assert forall|k: Seq<char>| #[trigger] self.servers@.contains_key(k) implies per@[k] == self.servers@[k]@.len() by {
                let j = choose|j: int| 0 <= j < n && self.servers.key_seq()[j] == k;
                assert(per@[self.servers.key_seq()[j]] == self.servers.value_seq()[j]@.len());
            }
        }
        McpStats { connected_servers, total_tools: total, servers: per }
    }
}

proof fn lemma_total_prefix(lists: Seq<Vec<McpTool>>, i: int)
    requires
        0 <= i <= lists.len(),
    ensures
        total_tools(lists.take(i)) <= total_tools(lists),
    decreases lists.len(),
{
    if i < lists.len() {
        assert(lists.drop_last().take(i) =~= lists.take(i));
        lemma_total_prefix(lists.drop_last(), i);
    } else {
        assert(lists.take(i) =~= lists);
    }
}

} // verus!
