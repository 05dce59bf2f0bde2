//! Looking up what the organization remembers of earlier tasks.

use vstd::prelude::*;
use crate::knowledge::fetcher::{is_white, is_white_exec};
use crate::text::{chars_of, contains_seq, lowercased, str_contains, str_eq, string_of_range, to_lowercase, views};

verus! {

/// A remembered task as the search reads it: its text, and the task type
/// recorded with it, if any.
#[derive(Debug, Clone)]
pub struct TaskMemory {
    pub content: String,
    pub task_type: Option<String>,
}

/// The words of `s` read so far, and the word being read.
pub open spec fn words_acc(s: Seq<char>) -> (Seq<Seq<char>>, Seq<char>)
    decreases s.len(),
{
    if s.len() == 0 {
        (Seq::empty(), Seq::empty())
    } else {
        let (done, cur) = words_acc(s.drop_last());
        if is_white(s.last()) {
            if cur.len() > 0 { (done.push(cur), Seq::empty()) } else { (done, Seq::empty()) }
        } else {
            (done, cur.push(s.last()))
        }
    }
}

/// The words of `s`, as `str::split_whitespace` gives them.
pub open spec fn words(s: Seq<char>) -> Seq<Seq<char>> {
    let (done, cur) = words_acc(s);
    if cur.len() > 0 { done.push(cur) } else { done }
}

/// The words of `s`.
pub fn split_words(s: &str) -> (r: Vec<String>)
    ensures
        views(r@) == words(s@),
{
    let v = chars_of(s);
    let mut r: Vec<String> = Vec::new();
    let mut start: usize = 0;
    let mut i: usize = 0;
    proof {
        assert(v@.take(0) =~= Seq::<char>::empty());
        assert(views(r@) =~= Seq::<Seq<char>>::empty());
    }
    while i < v.len()
        invariant
            v@ == s@,
            start <= i <= v@.len(),
            views(r@) == words_acc(v@.take(i as int)).0,
            v@.subrange(start as int, i as int) == words_acc(v@.take(i as int)).1,
        decreases v@.len() - i,
    {
        proof {
            assert(v@.take(i + 1).drop_last() =~= v@.take(i as int));
        }
        if is_white_exec(v[i]) {
            if start < i {
                let ghost before = views(r@);
                r.push(string_of_range(v.as_slice(), start, i));
                proof {
                    assert(views(r@) =~= before.push(v@.subrange(start as int, i as int)));
                }
            }
            start = i + 1;
            proof {
                assert(v@.subrange(start as int, i + 1) =~= Seq::<char>::empty());
            }
        } else {
            proof {
                assert(v@.subrange(start as int, i + 1) =~= v@.subrange(start as int, i as int).push(v@[i as int]));
            }
        }
        i = i + 1;
    }
    proof {
        assert(v@.take(i as int) =~= v@);
    }
    if start < v.len() {
        let ghost before = views(r@);
        r.push(string_of_range(v.as_slice(), start, v.len()));
        proof {
            assert(views(r@) =~= before.push(v@.subrange(start as int, v@.len() as int)));
        }
    }
    r
}

/// How many of `keywords` occur in `text`, each counted once per place in
/// the list.
pub open spec fn keyword_hits(text: Seq<char>, keywords: Seq<Seq<char>>) -> nat
    decreases keywords.len(),
{
    if keywords.len() == 0 {
        0
    } else {
        keyword_hits(text, keywords.drop_last()) + if contains_seq(text, keywords.last()) { 1nat } else { 0nat }
    }
}

/// The keywords of a task description: the words of its lower-case form.
pub open spec fn task_keywords(description: Seq<char>) -> Seq<Seq<char>> {
    words(lowercased(description))
}

/// How many keywords a memory's lower-case text holds.
pub open spec fn memory_score(m: TaskMemory, keywords: Seq<Seq<char>>) -> nat {
    keyword_hits(lowercased(m.content@), keywords)
}

/// Whether a memory is a candidate: recorded with the task type asked for
/// or with the type `general`, and holding more than a tenth of the
/// keywords (more than ten in a hundred).
pub open spec fn similar_candidate(m: TaskMemory, keywords: Seq<Seq<char>>, task_type: Seq<char>) -> bool {
    &&& m.task_type matches Some(t) && (t@ == task_type || t@ == "general"@)
    &&& 10 * memory_score(m, keywords) > keywords.len()
}

/// Whether memory `i` ranks before memory `j`: more keywords, or as many
/// and earlier.
pub open spec fn ranks_before(ms: Seq<TaskMemory>, keywords: Seq<Seq<char>>, i: int, j: int) -> bool {
    ||| memory_score(ms[i], keywords) > memory_score(ms[j], keywords)
    ||| (memory_score(ms[i], keywords) == memory_score(ms[j], keywords) && i < j)
}

/// `r` lists the best candidates of `ms`, best first, as many as `limit`
/// allows: each a candidate, in rank order, every candidate left out ranks
/// after all those listed, and none is left out while fewer than `limit`
/// are listed.
pub open spec fn best_candidates(ms: Seq<TaskMemory>, keywords: Seq<Seq<char>>, task_type: Seq<char>, limit: nat, r: Seq<usize>) -> bool {
    &&& r.len() <= limit
    &&& forall|k: int| 0 <= k < r.len() ==> r[k] < ms.len() && similar_candidate(ms[r[k] as int], keywords, task_type)
    &&& forall|a: int, b: int| 0 <= a < b < r.len() ==> ranks_before(ms, keywords, r[a] as int, r[b] as int)
    &&& forall|j: int| 0 <= j < ms.len() && similar_candidate(ms[j], keywords, task_type) && !r.contains(j as usize) ==>
        r.len() == limit && forall|k: int| 0 <= k < r.len() ==> ranks_before(ms, keywords, r[k] as int, j)
}

/// How many of `keywords` occur in `text`.
fn count_hits(text: &str, keywords: &Vec<String>) -> (n: usize)
    ensures
        n == keyword_hits(text@, views(keywords@)),
{
    let mut n: usize = 0;
    let mut i: usize = 0;
    while i < keywords.len()
        invariant
            i <= keywords@.len(),
            n <= i,
            n == keyword_hits(text@, views(keywords@).take(i as int)),
        decreases keywords@.len() - i,
    {
        proof {
            assert(views(keywords@).take(i + 1).drop_last() =~= views(keywords@).take(i as int));
        }
        if str_contains(text, keywords[i].as_str()) {
            n = n + 1;
        }
        i = i + 1;
    }
    proof {
        assert(views(keywords@).take(i as int) =~= views(keywords@));
    }
    n
}

/// The positions of the remembered tasks most like a task, best first and
/// at most `limit` of them: candidates of the task type (or `general`) that
/// hold more than a tenth of the words of the description, ranked by how
/// many of those words they hold, earlier first among equals.
pub fn find_similar_tasks(all_memories: &[TaskMemory], task_description: &str, task_type: &str, limit: usize) -> (r: Vec<usize>)
    ensures
        best_candidates(all_memories@, task_keywords(task_description@), task_type@, limit as nat, r@),
{
    let lower = to_lowercase(task_description);
    let keywords = split_words(lower.as_str());
    let ghost kws = views(keywords@);
    let ghost ms = all_memories@;
    let n = all_memories.len();
    // The score and candidacy of each memory.
    let mut scores: Vec<usize> = Vec::new();
    let mut cand: Vec<bool> = Vec::new();
    let mut i: usize = 0;
    while i < n
        invariant
            n == ms.len(),
            ms == all_memories@,
            kws == views(keywords@),
            kws == task_keywords(task_description@),
            i <= n,
            scores@.len() == i,
            cand@.len() == i,
            forall|k: int| 0 <= k < i ==> scores@[k] == memory_score(ms[k], kws),
            forall|k: int| 0 <= k < i ==> cand@[k] == similar_candidate(ms[k], kws, task_type@),
        decreases n - i,
    {
        let m = &all_memories[i];
        let content = to_lowercase(m.content.as_str());
        let hits = count_hits(content.as_str(), &keywords);
        let of_type = match &m.task_type {
            Some(t) => str_eq(t.as_str(), task_type) || str_eq(t.as_str(), "general"),
            None => false,
        };
        let big = hits > keywords.len() / 10;
        scores.push(hits);
        cand.push(of_type && big);
        i = i + 1;
    }
    // Pick the best remaining candidate, `limit` times at most.
    let mut taken: Vec<bool> = Vec::new();
    let mut j: usize = 0;
    while j < n
        invariant
            j <= n,
            taken@.len() == j,
            forall|k: int| 0 <= k < j ==> !taken@[k],
        decreases n - j,
    {
        taken.push(false);
        j = j + 1;
    }
    let mut r: Vec<usize> = Vec::new();
    let mut done = false;
    while r.len() < limit && !done
        invariant
            n == ms.len(),
            ms == all_memories@,
            kws == task_keywords(task_description@),
            scores@.len() == n,
            cand@.len() == n,
            taken@.len() == n,
            forall|k: int| 0 <= k < n ==> scores@[k] == memory_score(ms[k], kws),
            forall|k: int| 0 <= k < n ==> cand@[k] == similar_candidate(ms[k], kws, task_type@),
            r@.len() <= limit,
            forall|k: int| 0 <= k < n ==> (taken@[k] <==> r@.contains(k as usize)),
            forall|k: int| 0 <= k < r@.len() ==> r@[k] < n && cand@[r@[k] as int],
            forall|a: int, b: int| 0 <= a < b < r@.len() ==> ranks_before(ms, kws, r@[a] as int, r@[b] as int),
            forall|k: int, q: int| 0 <= k < r@.len() && 0 <= q < n && cand@[q] && !taken@[q] ==> ranks_before(ms, kws, r@[k] as int, q),
            done ==> forall|q: int| 0 <= q < n && cand@[q] ==> taken@[q],
        decreases limit - r@.len(), (if done { 0int } else { 1int }),
    {
        // The best candidate not yet taken.
        let mut best: Option<usize> = None;
        let mut q: usize = 0;
        while q < n
            invariant
                n == ms.len(),
                scores@.len() == n,
                cand@.len() == n,
                taken@.len() == n,
                forall|k: int| 0 <= k < n ==> scores@[k] == memory_score(ms[k], kws),
                q <= n,
                match best {
                    Some(b) => b < q && cand@[b as int] && !taken@[b as int]
                        && forall|p: int| 0 <= p < q && p != b && cand@[p] && !taken@[p] ==> ranks_before(ms, kws, b as int, p),
                    None => forall|p: int| 0 <= p < q ==> !(cand@[p] && !taken@[p]),
                },
            decreases n - q,
        {
            if cand[q] && !taken[q] {
                match best {
                    Some(b) => {
                        if scores[q] > scores[b] {
                            best = Some(q);
                        }
                    },
                    None => {
                        best = Some(q);
                    },
                }
            }
            q = q + 1;
        }
        match best {
            Some(b) => {
                let ghost before = r@;
                let ghost taken_before = taken@;
                r.push(b);
                taken.set(b, true);
                proof {
                    assert forall|k: int| 0 <= k < n implies (taken@[k] <==> r@.contains(k as usize)) by {
                        if k == b as int {
                            assert(r@[r@.len() - 1] == b);
                        } else {
                            if r@.contains(k as usize) {
                                let x = choose|x: int| 0 <= x < r@.len() && r@[x] == k as usize;
                                assert(x < before.len());
                                assert(before.contains(k as usize));
                            }
                            if before.contains(k as usize) {
                                let x = choose|x: int| 0 <= x < before.len() && before[x] == k as usize;
                                assert(r@[x] == k as usize);
                            }
                        }
                    }
                    assert forall|a: int, c: int| 0 <= a < c < r@.len() implies ranks_before(ms, kws, r@[a] as int, r@[c] as int) by {
                        if c == r@.len() - 1 {
                            assert(!taken_before[b as int]);
                        }
                    }
                }
            },
            None => {
                done = true;
            },
        }
    }
    proof {
        assert forall|j: int| 0 <= j < ms.len() && similar_candidate(ms[j], kws, task_type@) && !r@.contains(j as usize) implies
            r@.len() == limit && forall|k: int| 0 <= k < r@.len() ==> ranks_before(ms, kws, r@[k] as int, j) by {
            assert(cand@[j]);
            assert(!taken@[j]);
        }
    }
    r
}

} // verus!
