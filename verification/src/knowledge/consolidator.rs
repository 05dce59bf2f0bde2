//! Consolidating knowledge chunks into one summary: the key point of each
//! chunk, the sources they came from, and the summary text.

use vstd::prelude::*;
use crate::text::{
    chars_of, join_seqs, join_strings, lemma_seq_lt_total, lemma_seq_lt_trans, push_str, seq_lt, str_eq, str_lt,
    string_of_range, u64_to_string, decimal, views,
};
use super::chunker::strip_cr;
use super::fetcher::{trim_range, trim_white};

verus! {

/// A knowledge chunk as consolidation reads it: its text and its source.
#[derive(Debug, Clone)]
pub struct ChunkText {
    pub content: String,
    pub source: String,
}

/// What consolidation makes of chunks, besides its confidence score.
#[derive(Debug, Clone)]
pub struct Synthesis {
    pub summary: String,
    pub key_points: Vec<String>,
    pub sources: Vec<String>,
}

/// The position of the first newline of `s`, or its length.
pub open spec fn line_end(s: Seq<char>) -> nat
    decreases s.len(),
{
    if s.len() == 0 {
        0
    } else if s[0] == '\n' {
        0
    } else {
        1 + line_end(s.drop_first())
    }
}

/// The first line of `s`, as `str::lines` gives it: up to the first
/// newline, without a carriage return before that newline; none for an
/// empty text.
pub open spec fn first_line(s: Seq<char>) -> Option<Seq<char>> {
    if s.len() == 0 {
        None
    } else if line_end(s) < s.len() {
        Some(strip_cr(s.take(line_end(s) as int)))
    } else {
        Some(s)
    }
}

/// The key point of a chunk: its first line, unless that is blank.
pub open spec fn key_point(content: Seq<char>) -> Option<Seq<char>> {
    match first_line(content) {
        Some(l) => if trim_white(l).len() > 0 { Some(l) } else { None },
        None => None,
    }
}

/// The key points of the chunks, in order.
pub open spec fn all_key_points(cs: Seq<ChunkText>) -> Seq<Seq<char>>
    decreases cs.len(),
{
    if cs.len() == 0 {
        Seq::empty()
    } else {
        let rest = all_key_points(cs.drop_last());
        match key_point(cs.last().content@) {
            Some(k) => rest.push(k),
            None => rest,
        }
    }
}

/// At most the first ten of `s`.
pub open spec fn first_ten(s: Seq<Seq<char>>) -> Seq<Seq<char>> {
    if s.len() > 10 { s.take(10) } else { s }
}

/// The texts of the chunks.
pub open spec fn chunk_contents(cs: Seq<ChunkText>) -> Seq<Seq<char>> {
    cs.map_values(|c: ChunkText| c.content@)
}

/// Whether some chunk of `cs` came from `source`.
pub open spec fn has_source(cs: Seq<ChunkText>, source: Seq<char>) -> bool {
    exists|k: int| 0 <= k < cs.len() && #[trigger] cs[k].source@ == source
}

/// Whether each text of `s` comes before the next, so none repeats.
pub open spec fn strictly_sorted(s: Seq<Seq<char>>) -> bool {
    forall|i: int, j: int| 0 <= i < j < s.len() ==> seq_lt(s[i], s[j])
}

/// The summary of many chunks: how many sources, and their key points.
pub open spec fn broad_summary(n_sources: nat, key_points: Seq<Seq<char>>) -> Seq<char> {
    "Knowledge consolidated from "@ + decimal(n_sources) + " sources covering: "@ + join_seqs(key_points, "; "@)
}

/// The first line of `s`.
fn first_line_of(s: &str) -> (r: Option<String>)
    ensures
        match r {
            Some(l) => first_line(s@) == Some(l@),
            None => first_line(s@).is_none(),
        },
{
    let v = chars_of(s);
    if v.len() == 0 {
        return None;
    }
    let mut i: usize = 0;
    proof {
        assert(v@.skip(0) =~= v@);
    }
    while i < v.len() && v[i] != '\n'
        invariant
            v@ == s@,
            i <= v@.len(),
            line_end(s@) == i + line_end(v@.skip(i as int)),
        decreases v@.len() - i,
    {
        proof {
            assert(v@.skip(i as int).drop_first() =~= v@.skip(i + 1));
        }
        i = i + 1;
    }
    proof {
        if i == v@.len() {
            assert(v@.skip(i as int).len() == 0);
        }
        assert(line_end(s@) == i);
    }
    if i == v.len() {
        proof {
            assert(v@.take(i as int) =~= v@);
        }
        return Some(string_of_range(v.as_slice(), 0, i));
    }
    let end: usize = if i > 0 && v[i - 1] == '\r' { i - 1 } else { i };
    proof {
        assert(v@.subrange(0, end as int) =~= strip_cr(s@.take(i as int)));
    }
    Some(string_of_range(v.as_slice(), 0, end))
}

/// The key point of a chunk.
fn key_point_of(content: &str) -> (r: Option<String>)
    ensures
        match r {
            Some(k) => key_point(content@) == Some(k@),
            None => key_point(content@).is_none(),
        },
{
    match first_line_of(content) {
        Some(l) => {
            let lv = chars_of(l.as_str());
            let (a, b) = trim_range(&lv, 0, lv.len());
            proof {
                assert(lv@.subrange(0, lv@.len() as int) =~= l@);
            }
            if a < b { Some(l) } else { None }
        },
        None => None,
    }
}

/// `sources` with `source` put in its place, unless it is there.
fn insert_source(sources: &mut Vec<String>, source: &String)
    requires
        strictly_sorted(views(old(sources)@)),
    ensures
        strictly_sorted(views(final(sources)@)),
        forall|x: Seq<char>| views(final(sources)@).contains(x) <==> (views(old(sources)@).contains(x) || x == source@),
{
    let ghost s0 = views(sources@);
    let mut p: usize = 0;
    while p < sources.len() && str_lt(sources[p].as_str(), source.as_str())
        invariant
            p <= sources@.len(),
            s0 == views(sources@),
            forall|k: int| 0 <= k < p ==> seq_lt(s0[k], source@),
        decreases sources@.len() - p,
    {
        p = p + 1;
    }
    if p < sources.len() && str_eq(sources[p].as_str(), source.as_str()) {
        proof {
            assert(s0[p as int] == source@);
        }
        return;
    }
    proof {
        if p < s0.len() {
            lemma_seq_lt_total(s0[p as int], source@);
            assert(seq_lt(source@, s0[p as int]));
            assert forall|j: int| p <= j < s0.len() implies seq_lt(source@, #[trigger] s0[j]) by {
                if j > p {
                    lemma_seq_lt_trans(source@, s0[p as int], s0[j]);
                }
            }
        }
    }
    sources.insert(p, source.clone());
    proof {
        let s1 = views(sources@);
        assert(s1 =~= s0.insert(p as int, source@));
        assert forall|i: int, j: int| 0 <= i < j < s1.len() implies seq_lt(s1[i], s1[j]) by {
            if j < p {
            } else if j == p {
            } else if i < p {
                lemma_seq_lt_trans(s1[i], source@, s1[j]);
            } else if i == p {
            } else {
            }
        }
        assert forall|x: Seq<char>| s1.contains(x) <==> (s0.contains(x) || x == source@) by {
            if s1.contains(x) {
                let k = choose|k: int| 0 <= k < s1.len() && s1[k] == x;
                if k < p {
                    assert(s0[k] == x);
                } else if k > p {
                    assert(s0[k - 1] == x);
                }
            }
            if s0.contains(x) {
                let k = choose|k: int| 0 <= k < s0.len() && s0[k] == x;
                if k < p {
                    assert(s1[k] == x);
                } else {
                    assert(s1[k + 1] == x);
                }
            }
            if x == source@ {
                assert(s1[p as int] == x);
            }
        }
    }
}

/// What consolidating `chunks` gives besides a confidence score: the key
/// points (at most ten), the sources once each in order, and a summary that
/// joins the texts of up to three chunks or counts the sources and lists
/// the key points of more. No chunks give no knowledge.
pub fn synthesize_text(chunks: &[ChunkText]) -> (r: Synthesis)
    ensures
        chunks@.len() == 0 ==> r.summary@ == "No knowledge available"@ && r.key_points@.len() == 0
            && r.sources@.len() == 0,
        chunks@.len() > 0 ==> views(r.key_points@) == first_ten(all_key_points(chunks@)),
        chunks@.len() > 0 ==> strictly_sorted(views(r.sources@)),
        chunks@.len() > 0 ==> forall|x: Seq<char>| views(r.sources@).contains(x) <==> has_source(chunks@, x),
        0 < chunks@.len() <= 3 ==> r.summary@ == join_seqs(chunk_contents(chunks@), "\n\n"@),
        chunks@.len() > 3 ==> r.summary@ == broad_summary(r.sources@.len(), views(r.key_points@)),
{
    if chunks.len() == 0 {
        return Synthesis {
            summary: String::from_str("No knowledge available"),
            key_points: Vec::new(),
            sources: Vec::new(),
        };
    }
    let mut sources: Vec<String> = Vec::new();
    let mut key_points: Vec<String> = Vec::new();
    let mut contents: Vec<String> = Vec::new();
    let mut i: usize = 0;
    proof {
        assert(chunks@.take(0) =~= Seq::<ChunkText>::empty());
        assert(views(key_points@) =~= Seq::<Seq<char>>::empty());
        assert(views(contents@) =~= Seq::<Seq<char>>::empty());
        assert(chunk_contents(Seq::<ChunkText>::empty()) =~= Seq::<Seq<char>>::empty());
    }
    while i < chunks.len()
        invariant
            i <= chunks@.len(),
            strictly_sorted(views(sources@)),
            forall|x: Seq<char>| views(sources@).contains(x) <==> has_source(chunks@.take(i as int), x),
            views(key_points@) == first_ten(all_key_points(chunks@.take(i as int))),
            views(contents@) == chunk_contents(chunks@.take(i as int)),
        decreases chunks@.len() - i,
    {
        let c = &chunks[i];
        let ghost pre = chunks@.take(i as int);
        let ghost post = chunks@.take(i + 1);
        proof {
            assert(post.drop_last() =~= pre);
            assert(post.last() == *c);
        }
        insert_source(&mut sources, &c.source);
        proof {
            assert forall|x: Seq<char>| views(sources@).contains(x) <==> has_source(post, x) by {
                if has_source(post, x) {
                    let k = choose|k: int| 0 <= k < post.len() && #[trigger] post[k].source@ == x;
                    if k < i {
                        assert(pre[k].source@ == x);
                    }
                }
                if has_source(pre, x) {
                    let k = choose|k: int| 0 <= k < pre.len() && #[trigger] pre[k].source@ == x;
                    assert(post[k].source@ == x);
                }
                if x == c.source@ {
                    assert(post[i as int].source@ == x);
                }
            }
        }
        let ghost kp_before = views(key_points@);
        match key_point_of(c.content.as_str()) {
            Some(k) => {
                if key_points.len() < 10 {
                    key_points.push(k);
                    proof {
                        assert(views(key_points@) =~= kp_before.push(key_point(c.content@).unwrap()));
                    }
                }
                proof {
                    let all = all_key_points(pre);
                    assert(all_key_points(post) == all.push(key_point(c.content@).unwrap()));
                    if all.len() >= 10 {
                        assert(first_ten(all.push(key_point(c.content@).unwrap())) =~= first_ten(all));
                    } else {
                        assert(first_ten(all.push(key_point(c.content@).unwrap())) =~= all.push(key_point(c.content@).unwrap()));
                    }
                }
            },
            None => {
                proof {
                    assert(all_key_points(post) == all_key_points(pre));
                }
            },
        }
        let ghost ct_before = views(contents@);
        contents.push(c.content.clone());
        proof {
            assert(views(contents@) =~= ct_before.push(c.content@));
            assert(chunk_contents(post) =~= chunk_contents(pre).push(c.content@));
        }
        i = i + 1;
    }
    proof {
        assert(chunks@.take(i as int) =~= chunks@);
    }
    let summary = if chunks.len() <= 3 {
        join_strings(contents.as_slice(), "\n\n")
    } else {
        let mut s = String::from_str("Knowledge consolidated from ");
        let n = u64_to_string(sources.len() as u64);
        push_str(&mut s, n.as_str());
        push_str(&mut s, " sources covering: ");
        let kp = join_strings(key_points.as_slice(), "; ");
        push_str(&mut s, kp.as_str());
        s
    };
    Synthesis { summary, key_points, sources }
}

} // verus!
