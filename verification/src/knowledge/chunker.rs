//! Splitting text into overlapping chunks that end, where they can, at the
//! end of a sentence.

use vstd::prelude::*;
use crate::text::{chars_of, lemma_utf8_len_concat, push_char, string_of_range, utf8_len, utf8_width, utf8_width_exec, views};
use super::fetcher::{is_white, is_white_exec, lemma_split_lines_nonempty, split_lines, trim_range, trim_white};

verus! {

/// The UTF-8 code units of `c`: the character at the first unit it takes,
/// `None` at each unit that continues it.
pub open spec fn char_units(c: char) -> Seq<Option<char>> {
    seq![Some(c)] + Seq::new((utf8_width(c) - 1) as nat, |i: int| None::<char>)
}

/// The UTF-8 code units of `t`, each character standing at its first unit.
/// A byte offset into `t` is a position in this sequence.
pub open spec fn units(t: Seq<char>) -> Seq<Option<char>>
    decreases t.len(),
{
    if t.len() == 0 {
        Seq::empty()
    } else {
        units(t.drop_last()) + char_units(t.last())
    }
}

/// Whether byte offset `b` of `u` lies between two characters, where a
/// `str` may be sliced.
pub open spec fn boundary(u: Seq<Option<char>>, b: int) -> bool {
    b == u.len() || (0 <= b < u.len() && u[b] is Some)
}

/// The characters that the units `u` encode.
pub open spec fn decode(u: Seq<Option<char>>) -> Seq<char>
    decreases u.len(),
{
    if u.len() == 0 {
        Seq::empty()
    } else {
        match u.last() {
            Some(c) => decode(u.drop_last()).push(c),
            None => decode(u.drop_last()),
        }
    }
}

/// Whether `c` ends a sentence.
pub open spec fn is_sentence_end(c: char) -> bool {
    c == '.' || c == '!' || c == '?'
}

/// The last offset in `lo..hi` of `u` where a sentence-ending character starts.
pub open spec fn last_sentence_end(u: Seq<Option<char>>, lo: int, hi: int) -> Option<int>
    decreases hi - lo,
{
    if hi <= lo {
        None
    } else if u[hi - 1] is Some && is_sentence_end(u[hi - 1]->0) {
        Some(hi - 1)
    } else {
        last_sentence_end(u, lo, hi - 1)
    }
}

/// The last offset in `lo..hi` of `u` where a white-space character starts.
pub open spec fn last_white(u: Seq<Option<char>>, lo: int, hi: int) -> Option<int>
    decreases hi - lo,
{
    if hi <= lo {
        None
    } else if u[hi - 1] is Some && is_white(u[hi - 1]->0) {
        Some(hi - 1)
    } else {
        last_white(u, lo, hi - 1)
    }
}

/// Where the piece `u[lo..hi]` is cut, as the offset that its kept part ends
/// at: after the last sentence end among its last hundred bytes; else before
/// its last white space; else at its end. `None` where those last hundred
/// bytes begin inside a character, where slicing the piece panics.
pub open spec fn cut_at(u: Seq<Option<char>>, lo: int, hi: int) -> Option<int> {
    let from = if hi - lo >= 100 { hi - 100 } else { lo };
    if !boundary(u, from) {
        None
    } else {
        match last_sentence_end(u, from, hi) {
            Some(j) => Some(j + 1),
            None => match last_white(u, lo, hi) {
                Some(j) => Some(j),
                None => Some(hi),
            },
        }
    }
}

/// Whether every character in `u[lo..hi]` is white space.
pub open spec fn all_white(u: Seq<Option<char>>, lo: int, hi: int) -> bool {
    forall|j: int| #![trigger u[j]] lo <= j < hi && u[j] is Some ==> is_white(u[j]->0)
}

/// How far the next piece starts after a piece of `n` bytes: its length
/// less the overlap, and at least one.
pub open spec fn advance(n: int, overlap: nat) -> int {
    if n > overlap { n - overlap } else { 1 }
}

/// `chunks` before what `rest` holds; `None` where `rest` is `None`.
pub open spec fn prepend(chunks: Seq<Seq<char>>, rest: Option<Seq<Seq<char>>>) -> Option<Seq<Seq<char>>> {
    match rest {
        Some(r) => Some(chunks + r),
        None => None,
    }
}

/// The chunks that the pieces of `u` from byte `start` on give, `count`
/// chunks having been kept before: each piece of at most `size` bytes is cut
/// as `cut_at` says, a piece of white space alone is left out, the next piece
/// starts `advance` bytes later, and the run stops at the end of the text or
/// once `max_chunks` are kept. `None` where a slice would begin or end inside
/// a character, on which `str` slicing panics.
pub open spec fn pieces_from(
    u: Seq<Option<char>>,
    start: int,
    size: nat,
    overlap: nat,
    max_chunks: Option<usize>,
    count: nat,
) -> Option<Seq<Seq<char>>>
    decreases u.len() - start,
{
    if start < 0 || start >= u.len() {
        Some(Seq::empty())
    } else {
        let end = if start + size < u.len() { start + size } else { u.len() as int };
        let cut = if end < u.len() { cut_at(u, start, end) } else { Some(end) };
        if !boundary(u, start) || !boundary(u, end) || cut is None {
            None
        } else {
            let e = cut->0;
            let head = if all_white(u, start, e) { Seq::empty() } else { seq![decode(u.subrange(start, e))] };
            let kept = count + head.len();
            let next = start + advance(e - start, overlap);
            if next >= u.len() || (max_chunks matches Some(m) && kept >= m) {
                Some(head)
            } else {
                prepend(head, pieces_from(u, next, size, overlap, max_chunks, kept))
            }
        }
    }
}

/// The chunks of `t`, sizes counted in bytes: the whole text when it fits in
/// one chunk, else the pieces from its start, at most `max_chunks` of them.
/// `None` where a cut falls inside a character.
pub open spec fn chunk_text_spec(t: Seq<char>, size: nat, overlap: nat, max_chunks: Option<usize>) -> Option<Seq<Seq<char>>> {
    let u = units(t);
    if u.len() <= size {
        Some(seq![t])
    } else {
        match pieces_from(u, 0, size, overlap, max_chunks, 0) {
            Some(all) => Some(
                match max_chunks {
                    Some(m) => if all.len() > m { all.take(m as int) } else { all },
                    None => all,
                },
            ),
            None => None,
        }
    }
}

/// Law: a piece that is cut ends right after the last '.', '!' or '?' that
/// starts within its last hundred bytes (the piece itself where it is
/// shorter), where those bytes begin at a character.
pub proof fn lemma_cut_after_sentence_end(u: Seq<Option<char>>, lo: int, hi: int, j: int)
    requires
        0 <= lo <= j < hi <= u.len(),
        hi - 100 <= j,
        boundary(u, if hi - lo >= 100 { hi - 100 } else { lo }),
        u[j] == Some('.') || u[j] == Some('!') || u[j] == Some('?'),
        forall|k: int| j < k < hi ==> u[k] != Some('.') && u[k] != Some('!') && u[k] != Some('?'),
    ensures
        cut_at(u, lo, hi) == Some(j + 1),
{
    let from = if hi - lo >= 100 { hi - 100 } else { lo };
    lemma_last_sentence_end_at(u, from, hi, j);
}

proof fn lemma_last_sentence_end_at(u: Seq<Option<char>>, lo: int, hi: int, j: int)
    requires
        lo <= j < hi,
        u[j] == Some('.') || u[j] == Some('!') || u[j] == Some('?'),
        forall|k: int| j < k < hi ==> u[k] != Some('.') && u[k] != Some('!') && u[k] != Some('?'),
    ensures
        last_sentence_end(u, lo, hi) == Some(j),
    decreases hi - lo,
{
    if hi - 1 != j {
        let k = hi - 1;
        assert(u[k] != Some('.') && u[k] != Some('!') && u[k] != Some('?'));
        lemma_last_sentence_end_at(u, lo, hi - 1, j);
    }
}

proof fn lemma_units_start(t: Seq<char>)
    requires
        t.len() > 0,
    ensures
        units(t).len() > 0,
        units(t)[0] is Some,
    decreases t.len(),
{
    if t.len() > 1 {
        lemma_units_start(t.drop_last());
    } else {
        assert(t.drop_last().len() == 0);
        assert(units(t.drop_last()) =~= Seq::<Option<char>>::empty());
    }
}

/// Law: when text longer than one chunk is split, its first chunk ends
/// right after the last '.', '!' or '?' that starts within the last hundred
/// bytes of the first `size` bytes, where those bytes begin at a character.
pub proof fn lemma_first_chunk_ends_at_sentence(t: Seq<char>, size: nat, overlap: nat, max_chunks: Option<usize>, j: int)
    requires
        units(t).len() > size,
        boundary(units(t), size as int),
        0 <= j < size,
        size - 100 <= j,
        boundary(units(t), if size >= 100 { size - 100 } else { 0 }),
        units(t)[j] == Some('.') || units(t)[j] == Some('!') || units(t)[j] == Some('?'),
        forall|k: int| j < k < size ==> units(t)[k] != Some('.') && units(t)[k] != Some('!') && units(t)[k] != Some('?'),
        max_chunks != Some(0usize),
    ensures
        chunk_text_spec(t, size, overlap, max_chunks) matches Some(cs) ==> cs.len() > 0 && cs[0] == decode(units(t).subrange(0, j + 1)),
{
    let u = units(t);
    lemma_units_len(t);
    if t.len() == 0 {
        assert(u =~= Seq::<Option<char>>::empty());
    }
    lemma_units_start(t);
    lemma_cut_after_sentence_end(u, 0, size as int, j);
    assert(!all_white(u, 0, j + 1)) by {
        assert(u[j] is Some);
        assert(!is_white(u[j]->0));
    }
    let head = seq![decode(u.subrange(0, j + 1))];
    let p = pieces_from(u, 0, size, overlap, max_chunks, 0);
    assert(p matches Some(all) ==> all.len() > 0 && all[0] == decode(u.subrange(0, j + 1))) by {
        match p {
            Some(all) => {
                let next = advance(j + 1, overlap);
                if !(next >= u.len() || (max_chunks matches Some(m) && 1 >= m)) {
                    let rest = pieces_from(u, next, size, overlap, max_chunks, 1);
                    assert(rest is Some);
                    assert(all == head + rest->0);
                    assert(all[0] == head[0]);
                }
            },
            None => {},
        }
    }
}

/// A text takes as many code units as its UTF-8 length.
pub proof fn lemma_units_len(t: Seq<char>)
    ensures
        units(t).len() == utf8_len(t),
    decreases t.len(),
{
    if t.len() > 0 {
        lemma_units_len(t.drop_last());
    }
}

/// Law: text that fits in one chunk comes back whole, as the only chunk.
pub proof fn lemma_short_text_whole(t: Seq<char>, size: nat, overlap: nat, max_chunks: Option<usize>)
    requires
        utf8_len(t) <= size,
    ensures
        chunk_text_spec(t, size, overlap, max_chunks) == Some(seq![t]),
{
    lemma_units_len(t);
}

/// Law: text longer than one chunk comes back as at most `max_chunks`
/// chunks.
pub proof fn lemma_chunks_respect_max(t: Seq<char>, size: nat, overlap: nat, max_chunks: usize)
    requires
        utf8_len(t) > size,
    ensures
        chunk_text_spec(t, size, overlap, Some(max_chunks)) matches Some(cs) ==> cs.len() <= max_chunks,
{
    lemma_units_len(t);
}

/// The UTF-8 code units of the characters `v`.
fn units_of(v: &Vec<char>) -> (u: Vec<Option<char>>)
    ensures
        u@ == units(v@),
{
    let mut u: Vec<Option<char>> = Vec::new();
    let mut i: usize = 0;
    while i < v.len()
        invariant
            i <= v@.len(),
            u@ == units(v@.take(i as int)),
        decreases v@.len() - i,
    {
        let c = v[i];
        let w = utf8_width_exec(c);
        let ghost before = u@;
        u.push(Some(c));
        let mut k: usize = 1;
        while k < w
            invariant
                1 <= k <= w,
                w == utf8_width(c),
                u@ == before + seq![Some(c)] + Seq::new((k - 1) as nat, |j: int| None::<char>),
            decreases w - k,
        {
            u.push(None);
            k = k + 1;
            proof {
                assert(u@ =~= before + seq![Some(c)] + Seq::new((k - 1) as nat, |j: int| None::<char>));
            }
        }
        proof {
            let t1 = v@.take(i + 1);
            assert(t1.drop_last() =~= v@.take(i as int));
            assert(t1.last() == c);
            assert(u@ =~= units(v@.take(i as int)) + char_units(c));
        }
        i = i + 1;
    }
    proof {
        assert(v@.take(v@.len() as int) =~= v@);
    }
    u
}

/// Whether byte offset `b` of `u` lies between two characters.
fn is_boundary(u: &Vec<Option<char>>, b: usize) -> (r: bool)
    requires
        b <= u@.len(),
    ensures
        r == boundary(u@, b as int),
{
    if b == u.len() {
        true
    } else {
        match u[b] {
            Some(_) => true,
            None => false,
        }
    }
}

/// The characters that `u[lo..hi]` encode.
fn decode_range(u: &Vec<Option<char>>, lo: usize, hi: usize) -> (s: String)
    requires
        lo <= hi <= u@.len(),
    ensures
        s@ == decode(u@.subrange(lo as int, hi as int)),
{
    let mut s = String::new();
    let mut i = lo;
    proof {
        assert(u@.subrange(lo as int, lo as int).len() == 0);
    }
    while i < hi
        invariant
            lo <= i <= hi <= u@.len(),
            s@ == decode(u@.subrange(lo as int, i as int)),
        decreases hi - i,
    {
        proof {
            assert(u@.subrange(lo as int, i + 1).drop_last() =~= u@.subrange(lo as int, i as int));
        }
        match u[i] {
            Some(c) => push_char(&mut s, c),
            None => {},
        }
        i = i + 1;
    }
    s
}

fn is_sentence_end_exec(c: char) -> (r: bool)
    ensures
        r == is_sentence_end(c),
{
    c == '.' || c == '!' || c == '?'
}

/// Whether every character in `u[lo..hi]` is white space.
fn all_white_exec(u: &Vec<Option<char>>, lo: usize, hi: usize) -> (r: bool)
    requires
        lo <= hi <= u@.len(),
    ensures
        r == all_white(u@, lo as int, hi as int),
{
    let mut i = lo;
    while i < hi
        invariant
            lo <= i <= hi <= u@.len(),
            all_white(u@, lo as int, i as int),
        decreases hi - i,
    {
        match u[i] {
            Some(c) => {
                if !is_white_exec(c) {
                    return false;
                }
            },
            None => {},
        }
        i = i + 1;
    }
    true
}

/// Where the piece `u[lo..hi]` is cut, as `cut_at` says.
fn cut_exec(u: &Vec<Option<char>>, lo: usize, hi: usize) -> (r: Option<usize>)
    requires
        lo <= hi <= u@.len(),
    ensures
        match r {
            Some(e) => cut_at(u@, lo as int, hi as int) == Some(e as int) && lo <= e <= hi,
            None => cut_at(u@, lo as int, hi as int) is None,
        },
{
    let from: usize = if hi - lo >= 100 { hi - 100 } else { lo };
    if !is_boundary(u, from) {
        return None;
    }
    let mut k = hi;
    while k > from
        invariant
            lo <= from <= k <= hi <= u@.len(),
            from == (if hi - lo >= 100 { hi - 100 } else { lo as int }),
            boundary(u@, from as int),
            last_sentence_end(u@, from as int, hi as int) == last_sentence_end(u@, from as int, k as int),
        decreases k,
    {
        match u[k - 1] {
            Some(c) => {
                if is_sentence_end_exec(c) {
                    proof {
                        assert(last_sentence_end(u@, from as int, k as int) == Some(k - 1));
                    }
                    return Some(k);
                }
            },
            None => {},
        }
        k = k - 1;
    }
    let mut j = hi;
    while j > lo
        invariant
            lo <= from <= hi,
            lo <= j <= hi <= u@.len(),
            from == (if hi - lo >= 100 { hi - 100 } else { lo as int }),
            boundary(u@, from as int),
            last_sentence_end(u@, from as int, hi as int) is None,
            last_white(u@, lo as int, hi as int) == last_white(u@, lo as int, j as int),
        decreases j,
    {
        match u[j - 1] {
            Some(c) => {
                if is_white_exec(c) {
                    proof {
                        assert(last_white(u@, lo as int, j as int) == Some(j - 1));
                    }
                    return Some(j - 1);
                }
            },
            None => {},
        }
        j = j - 1;
    }
    Some(hi)
}

/// Splits text into chunks of at most `chunk_size` bytes that overlap by
/// `chunk_overlap` bytes, each ending at a sentence end or white space where
/// one is near; chunks of white space alone are left out, and at most
/// `max_chunks` are kept. `None` where a cut falls inside a character, on
/// which slicing the text panics.
pub fn chunk_text(text: &str, chunk_size: usize, chunk_overlap: usize, max_chunks: Option<usize>) -> (r: Option<Vec<String>>)
    ensures
        match r {
            Some(cs) => chunk_text_spec(text@, chunk_size as nat, chunk_overlap as nat, max_chunks) == Some(views(cs@)),
            None => chunk_text_spec(text@, chunk_size as nat, chunk_overlap as nat, max_chunks) is None,
        },
{
    let v = chars_of(text);
    let u = units_of(&v);
    let n = u.len();
    if n <= chunk_size {
        let mut r: Vec<String> = Vec::new();
        r.push(string_of_range(v.as_slice(), 0, v.len()));
        proof {
            assert(v@.subrange(0, v@.len() as int) =~= text@);
            assert(views(r@) =~= seq![text@]);
        }
        return Some(r);
    }
    let ghost uu = u@;
    let ghost size = chunk_size as nat;
    let ghost ov = chunk_overlap as nat;
    let mut chunks: Vec<String> = Vec::new();
    let mut start: usize = 0;
    proof {
        assert(views(chunks@) =~= Seq::<Seq<char>>::empty());
        assert(prepend(views(chunks@), pieces_from(uu, 0, size, ov, max_chunks, 0)) =~= pieces_from(uu, 0, size, ov, max_chunks, 0));
    }
    loop
        invariant
            uu == u@,
            uu == units(text@),
            n == uu.len(),
            n > chunk_size,
            size == chunk_size as nat,
            ov == chunk_overlap as nat,
            start < n,
            pieces_from(uu, 0, size, ov, max_chunks, 0)
                == prepend(views(chunks@), pieces_from(uu, start as int, size, ov, max_chunks, chunks@.len())),
        decreases n - start,
    {
        let end: usize = if n - start <= chunk_size { n } else { start + chunk_size };
        if !is_boundary(&u, start) || !is_boundary(&u, end) {
            return None;
        }
        let cut: Option<usize> = if end < n { cut_exec(&u, start, end) } else { Some(end) };
        let e = match cut {
            Some(e) => e,
            None => {
                return None;
            },
        };
        let ghost before = views(chunks@);
        let ghost count = chunks@.len();
        if !all_white_exec(&u, start, e) {
            chunks.push(decode_range(&u, start, e));
        }
        let ghost head = if all_white(uu, start as int, e as int) {
            Seq::<Seq<char>>::empty()
        } else {
            seq![decode(uu.subrange(start as int, e as int))]
        };
        proof {
            assert(views(chunks@) =~= before + head);
        }
        let len = e - start;
        let adv: usize = if len > chunk_overlap { len - chunk_overlap } else { 1 };
        let next = start + adv;
        let stop = next >= n || match max_chunks {
            Some(m) => chunks.len() >= m,
            None => false,
        };
        proof {
            assert(adv == advance(e - start, ov));
            assert(count + head.len() == chunks@.len());
        }
        if stop {
            proof {
                assert(pieces_from(uu, start as int, size, ov, max_chunks, count) == Some(head));
            }
            let ghost all = views(chunks@);
            match max_chunks {
                Some(m) => {
                    if chunks.len() > m {
                        chunks.truncate(m);
                    }
                    proof {
                        assert(views(chunks@) =~= (if all.len() > m { all.take(m as int) } else { all }));
                    }
                },
                None => {},
            }
            return Some(chunks);
        }
        proof {
            let rest = pieces_from(uu, next as int, size, ov, max_chunks, chunks@.len());
            assert(pieces_from(uu, start as int, size, ov, max_chunks, count) == prepend(head, rest));
            if rest is Some {
                assert(before + (head + rest->0) =~= (before + head) + rest->0);
            }
        }
        start = next;
    }
}

/// The UTF-8 length of `v[lo..hi]`.
fn utf8_len_range(v: &Vec<char>, lo: usize, hi: usize) -> (n: usize)
    requires
        lo <= hi <= v@.len(),
        utf8_len(v@.subrange(lo as int, hi as int)) <= usize::MAX,
    ensures
        n == utf8_len(v@.subrange(lo as int, hi as int)),
{
    let mut n: usize = 0;
    let mut i: usize = lo;
    while i < hi
        invariant
            lo <= i <= hi <= v@.len(),
            utf8_len(v@.subrange(lo as int, hi as int)) <= usize::MAX,
            n == utf8_len(v@.subrange(lo as int, i as int)),
        decreases hi - i,
    {
        proof {
            assert(v@.subrange(lo as int, i + 1).drop_last() =~= v@.subrange(lo as int, i as int));
            lemma_utf8_len_concat(v@.subrange(lo as int, i + 1), v@.subrange(i + 1, hi as int));
            assert(v@.subrange(lo as int, i + 1) + v@.subrange(i + 1, hi as int) =~= v@.subrange(lo as int, hi as int));
        }
        n = n + utf8_width_exec(v[i]);
        i = i + 1;
    }
    n
}

/// A line without the carriage return that ends it, if one does.
pub open spec fn strip_cr(l: Seq<char>) -> Seq<char> {
    if l.len() > 0 && l.last() == '\r' { l.drop_last() } else { l }
}

/// The lines of `s`, as `str::lines` gives them: split at each newline, a
/// carriage return before the newline dropped, and no empty line after a
/// final newline.
pub open spec fn text_lines(s: Seq<char>) -> Seq<Seq<char>> {
    let p = split_lines(s);
    let body = p.drop_last().map_values(|l: Seq<char>| strip_cr(l));
    if p.last().len() > 0 { body.push(p.last()) } else { body }
}

/// Markdown chunks in the making: those done, the text of the current one
/// and its size.
pub struct MdState {
    pub chunks: Seq<Seq<char>>,
    pub cur: Seq<char>,
    pub size: int,
}

/// `st` after the line `line`: a heading closes a current chunk larger than
/// half the size, the line joins the current chunk, and a chunk that
/// reaches the size is closed.
pub open spec fn md_line(st: MdState, line: Seq<char>, size: nat) -> MdState {
    let st1 = if line.len() > 0 && line[0] == '#' && st.size > size / 2 {
        MdState {
            chunks: if trim_white(st.cur).len() > 0 { st.chunks.push(trim_white(st.cur)) } else { st.chunks },
            cur: Seq::empty(),
            size: 0,
        }
    } else {
        st
    };
    let cur2 = st1.cur + line + seq!['\n'];
    let size2 = st1.size + utf8_len(line) + 1;
    if size2 >= size {
        MdState { chunks: st1.chunks.push(trim_white(cur2)), cur: Seq::empty(), size: 0 }
    } else {
        MdState { chunks: st1.chunks, cur: cur2, size: size2 }
    }
}

/// The state after the lines `lines`.
pub open spec fn md_fold(lines: Seq<Seq<char>>, size: nat) -> MdState
    decreases lines.len(),
{
    if lines.len() == 0 {
        MdState { chunks: Seq::empty(), cur: Seq::empty(), size: 0 }
    } else {
        md_line(md_fold(lines.drop_last(), size), lines.last(), size)
    }
}

/// The chunks of a markdown text: line by line, each chunk trimmed, and
/// the rest once all lines are read unless it is blank.
pub open spec fn chunk_markdown_spec(md: Seq<char>, size: nat) -> Seq<Seq<char>> {
    let st = md_fold(text_lines(md), size);
    if trim_white(st.cur).len() > 0 { st.chunks.push(trim_white(st.cur)) } else { st.chunks }
}

fn md_add_line(chunks: &mut Vec<String>, cur: &mut String, cur_size: &mut usize, v: &Vec<char>, lo: usize, hi: usize, size: usize)
    requires
        lo <= hi <= v@.len(),
        *old(cur_size) + utf8_len(v@.subrange(lo as int, hi as int)) + 1 <= usize::MAX,
    ensures
        ({
            let st = md_line(MdState { chunks: views(old(chunks)@), cur: old(cur)@, size: *old(cur_size) as int },
                v@.subrange(lo as int, hi as int), size as nat);
            &&& views(final(chunks)@) == st.chunks
            &&& final(cur)@ == st.cur
            &&& *final(cur_size) as int == st.size
        }),
        *final(cur_size) <= *old(cur_size) + utf8_len(v@.subrange(lo as int, hi as int)) + 1,
{
    let ghost line = v@.subrange(lo as int, hi as int);
    let ghost st0 = MdState { chunks: views(chunks@), cur: cur@, size: *cur_size as int };
    let ghost st = md_line(st0, line, size as nat);
    let heading = lo < hi && v[lo] == '#' && *cur_size > size / 2;
    proof {
        if lo < hi {
            assert(line[0] == v@[lo as int]);
        }
        assert(heading == (line.len() > 0 && line[0] == '#' && st0.size > size as nat / 2));
    }
    if heading {
        let cv = chars_of(cur.as_str());
        let (a, b) = trim_range(&cv, 0, cv.len());
        proof {
            assert(cv@.subrange(0, cv@.len() as int) =~= cur@);
        }
        if a < b {
            let ghost before = views(chunks@);
            chunks.push(string_of_range(cv.as_slice(), a, b));
            proof {
                assert(views(chunks@) =~= before.push(trim_white(cur@)));
            }
        }
        *cur = String::new();
        *cur_size = 0;
    }
    let ghost st1 = MdState { chunks: views(chunks@), cur: cur@, size: *cur_size as int };
    proof {
        assert(st1 == (if heading {
            MdState {
                chunks: if trim_white(st0.cur).len() > 0 { st0.chunks.push(trim_white(st0.cur)) } else { st0.chunks },
                cur: Seq::empty(),
                size: 0,
            }
        } else {
            st0
        }));
    }
    let s = string_of_range(v.as_slice(), lo, hi);
    crate::text::push_str(cur, s.as_str());
    crate::text::push_str(cur, "\n");
    let width = utf8_len_range(v, lo, hi);
    *cur_size = *cur_size + width + 1;
    proof {
        reveal_strlit("\n");
        assert(cur@ =~= st1.cur + line + seq!['\n']);
        assert(*cur_size as int == st1.size + utf8_len(line) + 1);
    }
    if *cur_size >= size {
        let cv = chars_of(cur.as_str());
        let (a, b) = trim_range(&cv, 0, cv.len());
        proof {
            assert(cv@.subrange(0, cv@.len() as int) =~= cur@);
        }
        let ghost before = views(chunks@);
        chunks.push(string_of_range(cv.as_slice(), a, b));
        proof {
            assert(views(chunks@) =~= before.push(trim_white(cur@)));
        }
        *cur = String::new();
        *cur_size = 0;
        proof {
            assert(cur@ =~= Seq::<char>::empty());
        }
    }
    proof {
        assert(views(chunks@) == st.chunks);
        assert(cur@ == st.cur);
    }
}

/// Splits markdown into chunks of about `chunk_size` bytes, starting a new
/// chunk at a heading once the current one is past half the size.
pub fn chunk_markdown(markdown: &str, chunk_size: usize) -> (r: Vec<String>)
    requires
        utf8_len(markdown@) < usize::MAX,
    ensures
        views(r@) == chunk_markdown_spec(markdown@, chunk_size as nat),
{
    let v = chars_of(markdown);
    let ghost s = v@;
    let mut chunks: Vec<String> = Vec::new();
    let mut cur = String::new();
    let mut cur_size: usize = 0;
    let mut start: usize = 0;
    let mut i: usize = 0;
    proof {
        assert(s.take(0) =~= Seq::<char>::empty());
        assert(split_lines(Seq::<char>::empty()) =~= seq![Seq::<char>::empty()]);
        assert(md_fold(Seq::<Seq<char>>::empty(), chunk_size as nat) == (MdState { chunks: Seq::empty(), cur: Seq::empty(), size: 0 }));
        assert(views(chunks@) =~= Seq::<Seq<char>>::empty());
        assert(Seq::<Seq<char>>::empty().map_values(|l: Seq<char>| strip_cr(l)) =~= Seq::<Seq<char>>::empty());
    }
    while i < v.len()
        invariant
            s == v@,
            utf8_len(s) < usize::MAX,
            start <= i <= v@.len(),
            split_lines(s.take(i as int)).len() >= 1,
            split_lines(s.take(i as int)).last() == s.subrange(start as int, i as int),
            ({
                let st = md_fold(split_lines(s.take(i as int)).drop_last().map_values(|l: Seq<char>| strip_cr(l)), chunk_size as nat);
                &&& views(chunks@) == st.chunks
                &&& cur@ == st.cur
                &&& cur_size as int == st.size
            }),
            cur_size <= utf8_len(s.take(start as int)),
        decreases v@.len() - i,
    {
        proof {
            assert(s.take(i + 1).drop_last() =~= s.take(i as int));
            lemma_split_lines_nonempty(s.take(i as int));
        }
        if v[i] == '\n' {
            let end: usize = if i > start && v[i - 1] == '\r' { i - 1 } else { i };
            proof {
                let ls = split_lines(s.take(i as int));
                assert(split_lines(s.take(i + 1)) == ls.push(Seq::<char>::empty()));
                assert(split_lines(s.take(i + 1)).drop_last() =~= ls);
                let f = |l: Seq<char>| strip_cr(l);
                assert(ls.map_values(f) =~= ls.drop_last().map_values(f).push(strip_cr(ls.last())));
                assert(ls.drop_last().push(ls.last()) =~= ls);
                assert(v@.subrange(start as int, end as int) == strip_cr(ls.last()));
                let prev = ls.drop_last().map_values(f);
                let next = prev.push(strip_cr(ls.last()));
                assert(next.drop_last() =~= prev);
                assert(md_fold(next, chunk_size as nat) == md_line(md_fold(prev, chunk_size as nat), strip_cr(ls.last()), chunk_size as nat));
                assert(split_lines(s.take(i + 1)).drop_last().map_values(f) =~= next);
            }
            proof {
                let a = s.take(start as int);
                let l = s.subrange(start as int, end as int);
                let nl = s.subrange(end as int, i + 1);
                lemma_utf8_len_concat(a, l);
                lemma_utf8_len_concat(a + l, nl);
                assert(a + l + nl =~= s.take(i + 1));
                assert(nl.drop_last().len() + 1 == nl.len());
                lemma_utf8_len_concat(s.take(i + 1), s.subrange(i + 1, s.len() as int));
                assert(s.take(i + 1) + s.subrange(i + 1, s.len() as int) =~= s);
            }
            md_add_line(&mut chunks, &mut cur, &mut cur_size, &v, start, end, chunk_size);
            start = i + 1;
            proof {
                assert(s.subrange(start as int, start as int) =~= Seq::<char>::empty());
            }
        } else {
            proof {
                let ls = split_lines(s.take(i as int));
                assert(split_lines(s.take(i + 1)) == ls.update(ls.len() - 1, ls.last().push(s[i as int])));
                assert(split_lines(s.take(i + 1)).drop_last() =~= ls.drop_last());
                assert(s.subrange(start as int, i + 1) =~= ls.last().push(s[i as int]));
            }
        }
        i = i + 1;
    }
    proof {
        assert(s.take(i as int) =~= s);
        lemma_split_lines_nonempty(s);
    }
    if start < v.len() {
        proof {
            let p = split_lines(s);
            let f = |l: Seq<char>| strip_cr(l);
            assert(p.last().len() > 0);
            let prev = p.drop_last().map_values(f);
            assert(text_lines(s) =~= prev.push(p.last()));
            assert(prev.push(p.last()).drop_last() =~= prev);
            assert(md_fold(prev.push(p.last()), chunk_size as nat) == md_line(md_fold(prev, chunk_size as nat), p.last(), chunk_size as nat));
            assert(p.last() =~= v@.subrange(start as int, v@.len() as int));
        }
        proof {
            lemma_utf8_len_concat(s.take(start as int), s.subrange(start as int, s.len() as int));
            assert(s.take(start as int) + s.subrange(start as int, s.len() as int) =~= s);
        }
        md_add_line(&mut chunks, &mut cur, &mut cur_size, &v, start, v.len(), chunk_size);
    } else {
        proof {
            let p = split_lines(s);
            assert(p.last().len() == 0);
            assert(text_lines(s) =~= p.drop_last().map_values(|l: Seq<char>| strip_cr(l)));
        }
    }
    let cv = chars_of(cur.as_str());
    let (a, b) = trim_range(&cv, 0, cv.len());
    proof {
        assert(cv@.subrange(0, cv@.len() as int) =~= cur@);
    }
    if a < b {
        let ghost before = views(chunks@);
        chunks.push(string_of_range(cv.as_slice(), a, b));
        proof {
            assert(views(chunks@) =~= before.push(trim_white(cur@)));
        }
    }
    chunks
}

} // verus!
