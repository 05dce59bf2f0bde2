//! Fetching web content through MCP tools, and turning HTML into text.

use vstd::prelude::*;
use crate::mcp::{ToolCatalog, ToolContent};
use crate::ids::clock_now;
use crate::json::{empty_json_object, json_parses, json_str_field, json_text_field, json_text_str_field, parses_as_json};
use crate::text::{byte_cut, chars_of, cut_inside_char, join_seqs, join_strings, push_str, string_of_range, truncate_bytes, views};

verus! {

/// How web content is fetched.
#[derive(Debug, Clone)]
pub struct FetcherConfig {
    pub max_content_size: usize,
    pub user_agent: String,
    pub timeout: u64,
    pub extract_main_content: bool,
    pub follow_redirects: bool,
}

impl Default for FetcherConfig {
    /// At most a mebibyte, within 30 seconds, main content only, following
    /// redirects.
    fn default() -> (c: Self)
        ensures
            c.max_content_size == 1024 * 1024,
            c.user_agent@ == "the-agency/0.1.0"@,
            c.timeout == 30,
            c.extract_main_content,
            c.follow_redirects,
    {
        FetcherConfig {
            max_content_size: 1048576,
            user_agent: String::from_str("the-agency/0.1.0"),
            timeout: 30,
            extract_main_content: true,
            follow_redirects: true,
        }
    }
}

/// Content fetched from the web.
#[derive(Debug)]
pub struct FetchedContent {
    pub url: String,
    pub content: String,
    pub title: Option<String>,
    pub metadata: serde_json::Value,
    pub content_type: String,
    pub fetched_at: String,
}

/// Fetches web content through the tools of MCP servers.
#[derive(Debug, Clone)]
pub struct WebFetcher {
    config: FetcherConfig,
}

/// The browser tools that are tried first, in order.
pub open spec fn browser_tools() -> Seq<Seq<char>> {
    seq!["browser_navigate"@, "puppeteer_fetch"@, "playwright_fetch"@]
}

/// The plain HTTP tools that are tried next, in order.
pub open spec fn http_tools() -> Seq<Seq<char>> {
    seq!["fetch"@, "http_get"@, "curl"@]
}

impl WebFetcher {
    /// A fetcher with the given settings.
    pub fn new(config: FetcherConfig) -> (f: Self)
        ensures
            f.config() == config,
    {
        WebFetcher { config }
    }

    /// The settings of this fetcher.
    pub closed spec fn config(&self) -> FetcherConfig {
        self.config
    }

    /// The settings of this fetcher.
    pub fn settings(&self) -> (c: &FetcherConfig)
        ensures
            *c == self.config(),
    {
        &self.config
    }

    /// The fetch tools to try, in order: the browser tools, then the plain
    /// HTTP tools, each where some server offers it; `true` marks a browser
    /// tool.
    pub fn tools_to_try(&self, catalog: &ToolCatalog) -> (r: Vec<(String, bool)>)
        ensures
            named_tools(r@) == offered_tools(*catalog, browser_tools(), true) + offered_tools(*catalog, http_tools(), false),
    {
        let mut r: Vec<(String, bool)> = Vec::new();
        let browser: [&str; 3] = ["browser_navigate", "puppeteer_fetch", "playwright_fetch"];
        let http: [&str; 3] = ["fetch", "http_get", "curl"];
        proof {
            assert(browser_tools()[0] == browser[0]@);
            assert(browser_tools()[1] == browser[1]@);
            assert(browser_tools()[2] == browser[2]@);
            assert(http_tools()[0] == http[0]@);
            assert(http_tools()[1] == http[1]@);
            assert(http_tools()[2] == http[2]@);
            assert(browser_tools().take(0) =~= Seq::<Seq<char>>::empty());
            assert(named_tools(r@) =~= Seq::<(Seq<char>, bool)>::empty());
        }
        let mut i: usize = 0;
        while i < 3
            invariant
                i <= 3,
                forall|j: int| 0 <= j < 3 ==> browser_tools()[j] == browser[j]@,
                named_tools(r@) == offered_tools(*catalog, browser_tools().take(i as int), true),
            decreases 3 - i,
        {
            proof {
                assert(browser_tools().take(i + 1).drop_last() =~= browser_tools().take(i as int));
            }
            let ghost before = r@;
            if catalog.find_tool_server(browser[i]).is_some() {
                let name = String::from_str(browser[i]);
                r.push((name, true));
                proof {
                    assert(named_tools(r@) =~= named_tools(before).push((browser[i as int]@, true)));
                }
            }
            i = i + 1;
        }
        let ghost first = named_tools(r@);
        proof {
            assert(browser_tools().take(3) =~= browser_tools());
            assert(http_tools().take(0) =~= Seq::<Seq<char>>::empty());
            assert(first + offered_tools(*catalog, http_tools().take(0), false) =~= first);
        }
        let mut i: usize = 0;
        while i < 3
            invariant
                i <= 3,
                forall|j: int| 0 <= j < 3 ==> http_tools()[j] == http[j]@,
                first == offered_tools(*catalog, browser_tools(), true),
                named_tools(r@) == first + offered_tools(*catalog, http_tools().take(i as int), false),
            decreases 3 - i,
        {
            proof {
                assert(http_tools().take(i + 1).drop_last() =~= http_tools().take(i as int));
            }
            let ghost before = r@;
            if catalog.find_tool_server(http[i]).is_some() {
                let name = String::from_str(http[i]);
                r.push((name, false));
                proof {
                    assert(named_tools(r@) =~= named_tools(before).push((http[i as int]@, false)));
                    assert(first + offered_tools(*catalog, http_tools().take(i + 1), false)
                        =~= (first + offered_tools(*catalog, http_tools().take(i as int), false)).push((http[i as int]@, false)));
                }
            } else {
                proof {
                    assert(first + offered_tools(*catalog, http_tools().take(i + 1), false)
                        =~= first + offered_tools(*catalog, http_tools().take(i as int), false));
                }
            }
            i = i + 1;
        }
        proof {
            assert(http_tools().take(3) =~= http_tools());
        }
        r
    }
}

/// The text that a browser tool returned: a JSON text replaces it with its
/// `content` string where it has one, a plain text replaces it, and the text
/// of a resource is appended.
pub open spec fn browser_text(items: Seq<ToolContent>) -> Seq<char>
    decreases items.len(),
{
    if items.len() == 0 {
        Seq::empty()
    } else {
        let rest = browser_text(items.drop_last());
        match items.last() {
            ToolContent::Text { text } => if json_parses(text@) {
                match json_str_field(text@, "content"@) {
                    Some(c) => c,
                    None => rest,
                }
            } else {
                text@
            },
            ToolContent::Resource { text: Some(t), .. } => rest + t@,
            _ => rest,
        }
    }
}

/// The title that a browser tool returned: the last `title` string of its
/// JSON texts.
pub open spec fn browser_title(items: Seq<ToolContent>) -> Option<Seq<char>>
    decreases items.len(),
{
    if items.len() == 0 {
        None
    } else {
        let rest = browser_title(items.drop_last());
        match items.last() {
            ToolContent::Text { text } => if json_parses(text@) {
                match json_str_field(text@, "title"@) {
                    Some(t) => Some(t),
                    None => rest,
                }
            } else {
                rest
            },
            _ => rest,
        }
    }
}

/// The view of an optional string.
pub open spec fn opt_view(o: Option<String>) -> Option<Seq<char>> {
    match o {
        Some(s) => Some(s@),
        None => None,
    }
}

impl WebFetcher {
    /// What a browser tool returned, as HTML content of `url` cut to the
    /// size limit; `None` where the limit falls inside a character. The
    /// metadata is the last `metadata` field of its JSON texts, or an empty
    /// object, and the time is the clock's.
    pub fn parse_browser_result(&self, url: &str, content: Vec<ToolContent>) -> (r: Option<FetchedContent>)
        ensures
            match r {
                Some(f) => f.url@ == url@
                    && byte_cut(browser_text(content@), self.config().max_content_size as nat, f.content@)
                    && opt_view(f.title) == browser_title(content@)
                    && f.content_type@ == "html"@,
                None => cut_inside_char(browser_text(content@), self.config().max_content_size as nat),
            },
    {
        let mut text_content = String::new();
        let mut title: Option<String> = None;
        let mut metadata = empty_json_object();
        let mut i: usize = 0;
        while i < content.len()
            invariant
                i <= content@.len(),
                text_content@ == browser_text(content@.take(i as int)),
                opt_view(title) == browser_title(content@.take(i as int)),
            decreases content@.len() - i,
        {
            proof {
                assert(content@.take(i + 1).drop_last() =~= content@.take(i as int));
            }
            match &content[i] {
                ToolContent::Text { text } => {
                    if parses_as_json(text.as_str()) {
                        match json_text_str_field(text.as_str(), "content") {
                            Some(c) => {
                                text_content = c;
                            },
                            None => {},
                        }
                        match json_text_str_field(text.as_str(), "title") {
                            Some(t) => {
                                title = Some(t);
                            },
                            None => {},
                        }
                        match json_text_field(text.as_str(), "metadata") {
                            Some(m) => {
                                metadata = m;
                            },
                            None => {},
                        }
                    } else {
                        text_content = text.clone();
                    }
                },
                ToolContent::Resource { text: Some(t), .. } => push_str(&mut text_content, t.as_str()),
                _ => {},
            }
            i = i + 1;
        }
        proof {
            assert(content@.take(content@.len() as int) =~= content@);
        }
        match truncate_bytes(text_content, self.config.max_content_size) {
            Some(cut) => Some(FetchedContent {
                url: String::from_str(url),
                content: cut,
                title,
                metadata,
                content_type: String::from_str("html"),
                fetched_at: clock_now().rfc3339,
            }),
            None => None,
        }
    }

    /// What a plain HTTP tool returned, as text content of `url` cut to the
    /// size limit; `None` where the limit falls inside a character. It has
    /// no title, empty metadata, and the clock's time.
    pub fn parse_http_result(&self, url: &str, content: Vec<ToolContent>) -> (r: Option<FetchedContent>)
        ensures
            match r {
                Some(f) => f.url@ == url@
                    && byte_cut(fetched_text(content@), self.config().max_content_size as nat, f.content@)
                    && f.title.is_none()
                    && f.content_type@ == "text"@,
                None => cut_inside_char(fetched_text(content@), self.config().max_content_size as nat),
            },
    {
        let text_content = http_content_text(&content);
        match truncate_bytes(text_content, self.config.max_content_size) {
            Some(cut) => Some(FetchedContent {
                url: String::from_str(url),
                content: cut,
                title: None,
                metadata: empty_json_object(),
                content_type: String::from_str("text"),
                fetched_at: clock_now().rfc3339,
            }),
            None => None,
        }
    }
}

/// The tool names and flags of `r`.
pub open spec fn named_tools(r: Seq<(String, bool)>) -> Seq<(Seq<char>, bool)> {
    r.map_values(|p: (String, bool)| (p.0@, p.1))
}

/// The tools of `tools` that some server of `catalog` offers, in order,
/// each with the flag `browser`.
pub open spec fn offered_tools(catalog: ToolCatalog, tools: Seq<Seq<char>>, browser: bool) -> Seq<(Seq<char>, bool)>
    decreases tools.len(),
{
    if tools.len() == 0 {
        Seq::empty()
    } else {
        let rest = offered_tools(catalog, tools.drop_last(), browser);
        if catalog.serves(tools.last()) { rest.push((tools.last(), browser)) } else { rest }
    }
}

/// The texts that a plain HTTP fetch tool returned: its texts and the texts
/// of its resources, in order.
pub open spec fn fetched_text(contents: Seq<ToolContent>) -> Seq<char>
    decreases contents.len(),
{
    if contents.len() == 0 {
        Seq::empty()
    } else {
        let rest = fetched_text(contents.drop_last());
        match contents.last() {
            ToolContent::Text { text } => rest + text@,
            ToolContent::Resource { text: Some(t), .. } => rest + t@,
            _ => rest,
        }
    }
}

/// The texts that a plain HTTP fetch tool returned, joined.
pub fn http_content_text(contents: &Vec<ToolContent>) -> (r: String)
    ensures
        r@ == fetched_text(contents@),
{
    let mut r = String::new();
    let mut i: usize = 0;
    while i < contents.len()
        invariant
            i <= contents@.len(),
            r@ == fetched_text(contents@.take(i as int)),
        decreases contents@.len() - i,
    {
        proof {
            assert(contents@.take(i + 1).drop_last() =~= contents@.take(i as int));
        }
        match &contents[i] {
            ToolContent::Text { text } => push_str(&mut r, text.as_str()),
            ToolContent::Resource { text: Some(t), .. } => push_str(&mut r, t.as_str()),
            _ => {},
        }
        i = i + 1;
    }
    assert(contents@.take(contents@.len() as int) =~= contents@);
    r
}

/// The position of the first `>` in `s`, or its length where there is none.
pub open spec fn first_close(s: Seq<char>) -> nat
    decreases s.len(),
{
    if s.len() == 0 {
        0
    } else if s[0] == '>' {
        0
    } else {
        1 + first_close(s.skip(1))
    }
}

/// `s` with each HTML tag, from a `<` to the first `>` after it, replaced
/// by a space; a `<` with no `>` after it stays.
pub open spec fn strip_tags(s: Seq<char>) -> Seq<char>
    decreases s.len(),
{
    if s.len() == 0 {
        s
    } else if s[0] == '<' && first_close(s) < s.len() {
        seq![' '] + strip_tags(s.skip(first_close(s) + 1int))
    } else {
        seq![s[0]] + strip_tags(s.skip(1))
    }
}

/// Calls `regex::Regex::new(r"<[^>]*>")` and `replace_all` with a space:
/// each leftmost match, from a `<` through the first `>` after it, becomes a
/// space. The pattern is a valid literal, so building it does not fail.
#[verifier::external_body]
fn replace_html_tags(html: &str) -> (r: String)
    ensures
        r@ == strip_tags(html@),
{
    regex::Regex::new(r"<[^>]*>").unwrap().replace_all(html, " ").to_string()
}

/// Whether `c` is white space, as `char::is_whitespace` says.
pub open spec fn is_white(c: char) -> bool {
    ||| ('\t' <= c && c <= '\r')
    ||| c == ' '
    ||| c == '\u{85}'
    ||| c == '\u{A0}'
    ||| c == '\u{1680}'
    ||| ('\u{2000}' <= c && c <= '\u{200A}')
    ||| c == '\u{2028}'
    ||| c == '\u{2029}'
    ||| c == '\u{202F}'
    ||| c == '\u{205F}'
    ||| c == '\u{3000}'
}

pub(crate) fn is_white_exec(c: char) -> (r: bool)
    ensures
        r == is_white(c),
{
    ('\t' <= c && c <= '\r') || c == ' ' || c == '\u{85}' || c == '\u{A0}' || c == '\u{1680}'
        || ('\u{2000}' <= c && c <= '\u{200A}') || c == '\u{2028}' || c == '\u{2029}' || c == '\u{202F}'
        || c == '\u{205F}' || c == '\u{3000}'
}

/// `s` without white space at its start.
pub open spec fn trim_start_white(s: Seq<char>) -> Seq<char>
    decreases s.len(),
{
    if s.len() > 0 && is_white(s[0]) { trim_start_white(s.skip(1)) } else { s }
}

/// `s` without white space at its end.
pub open spec fn trim_end_white(s: Seq<char>) -> Seq<char>
    decreases s.len(),
{
    if s.len() > 0 && is_white(s.last()) { trim_end_white(s.drop_last()) } else { s }
}

/// `s` without white space at either end, as `str::trim` gives it.
pub open spec fn trim_white(s: Seq<char>) -> Seq<char> {
    trim_end_white(trim_start_white(s))
}

/// The lines of `s`, split at each newline.
pub open spec fn split_lines(s: Seq<char>) -> Seq<Seq<char>>
    decreases s.len(),
{
    if s.len() == 0 {
        seq![Seq::empty()]
    } else {
        let rest = split_lines(s.drop_last());
        if s.last() == '\n' {
            rest.push(Seq::empty())
        } else {
            rest.update(rest.len() - 1, rest.last().push(s.last()))
        }
    }
}

/// The lines, trimmed, leaving out those that are empty then.
pub open spec fn clean_lines(lines: Seq<Seq<char>>) -> Seq<Seq<char>>
    decreases lines.len(),
{
    if lines.len() == 0 {
        Seq::empty()
    } else {
        let rest = clean_lines(lines.drop_last());
        let t = trim_white(lines.last());
        if t.len() == 0 { rest } else { rest.push(t) }
    }
}

/// The text of an HTML document: tags become spaces, lines are trimmed,
/// blank lines dropped, and the rest joined by newlines.
pub open spec fn html_text(html: Seq<char>) -> Seq<char> {
    join_seqs(clean_lines(split_lines(strip_tags(html))), "\n"@)
}

pub(crate) proof fn lemma_split_lines_nonempty(s: Seq<char>)
    ensures
        split_lines(s).len() >= 1,
    decreases s.len(),
{
    if s.len() > 0 {
        lemma_split_lines_nonempty(s.drop_last());
    }
}

/// The trimmed part of `v[lo..hi]`, as a range.
pub(crate) fn trim_range(v: &Vec<char>, lo: usize, hi: usize) -> (r: (usize, usize))
    requires
        lo <= hi <= v@.len(),
    ensures
        lo <= r.0 <= r.1 <= hi,
        v@.subrange(r.0 as int, r.1 as int) == trim_white(v@.subrange(lo as int, hi as int)),
{
    let ghost s = v@.subrange(lo as int, hi as int);
    let mut a = lo;
    while a < hi && is_white_exec(v[a])
        invariant
            lo <= a <= hi <= v@.len(),
            trim_start_white(s) == trim_start_white(v@.subrange(a as int, hi as int)),
        decreases hi - a,
    {
        proof {
            assert(v@.subrange(a as int, hi as int).skip(1) =~= v@.subrange(a + 1, hi as int));
        }
        a = a + 1;
    }
    proof {
        assert(trim_start_white(s) == v@.subrange(a as int, hi as int));
    }
    let mut b = hi;
    while b > a && is_white_exec(v[b - 1])
        invariant
            lo <= a <= b <= hi <= v@.len(),
            trim_white(s) == trim_end_white(v@.subrange(a as int, b as int)),
        decreases b,
    {
        proof {
            assert(v@.subrange(a as int, b as int).drop_last() =~= v@.subrange(a as int, b - 1));
        }
        b = b - 1;
    }
    (a, b)
}

/// The text of an HTML document: tags become spaces, lines are trimmed,
/// blank lines dropped, and the rest joined by newlines.
pub fn extract_text_from_html(html: &str) -> (r: String)
    ensures
        r@ == html_text(html@),
{
    let stripped = replace_html_tags(html);
    let v = chars_of(stripped.as_str());
    let ghost s = v@;
    let mut out: Vec<String> = Vec::new();
    let mut start: usize = 0;
    let mut i: usize = 0;
    proof {
        assert(s.take(0) =~= Seq::<char>::empty());
        assert(split_lines(Seq::<char>::empty()) =~= seq![Seq::<char>::empty()]);
        assert(v@.subrange(0, 0) =~= Seq::<char>::empty());
    }
    while i < v.len()
        invariant
            s == v@,
            start <= i <= v@.len(),
            split_lines(s.take(i as int)).len() >= 1,
            views(out@) == clean_lines(split_lines(s.take(i as int)).drop_last()),
            split_lines(s.take(i as int)).last() == s.subrange(start as int, i as int),
        decreases v@.len() - i,
    {
        proof {
            assert(s.take(i + 1).drop_last() =~= s.take(i as int));
            lemma_split_lines_nonempty(s.take(i as int));
        }
        if v[i] == '\n' {
            let (a, b) = trim_range(&v, start, i);
            proof {
                let ls = split_lines(s.take(i as int));
                assert(split_lines(s.take(i + 1)) == ls.push(Seq::<char>::empty()));
                assert(split_lines(s.take(i + 1)).drop_last() =~= ls);
                assert(ls.drop_last().push(ls.last()) =~= ls);
            }
            if a < b {
                let ghost before = views(out@);
                out.push(string_of_range(v.as_slice(), a, b));
                proof {
                    assert(views(out@) =~= before.push(v@.subrange(a as int, b as int)));
                }
            }
            start = i + 1;
            proof {
                assert(s.subrange(start as int, start as int) =~= Seq::<char>::empty());
            }
        } else {
            proof {
                let ls = split_lines(s.take(i as int));
                assert(split_lines(s.take(i + 1)) == ls.update(ls.len() - 1, ls.last().push(s[i as int])));
                assert(split_lines(s.take(i + 1)).drop_last() =~= ls.drop_last());
                assert(s.subrange(start as int, i + 1) =~= ls.last().push(s[i as int]));
            }
        }
        i = i + 1;
    }
    let (a, b) = trim_range(&v, start, i);
    proof {
        assert(s.take(i as int) =~= s);
        lemma_split_lines_nonempty(s);
        let ls = split_lines(s);
        assert(ls.drop_last().push(ls.last()) =~= ls);
    }
    if a < b {
        let ghost before = views(out@);
        out.push(string_of_range(v.as_slice(), a, b));
        proof {
            assert(views(out@) =~= before.push(v@.subrange(a as int, b as int)));
        }
    }
    join_strings(out.as_slice(), "\n")
}

} // verus!
