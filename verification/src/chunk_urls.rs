//! Extraction of the chunk URLs of an HLS playlist: every maximal run of
//! characters that starts with `https:` and holds no whitespace and no `"`,
//! found from left to right without overlap. These are exactly the matches
//! of the pattern `https:?:[^\s"]+` found one after the other from the left
//! (with `\s` the Unicode `White_Space` class, and greedy repetition):
//! whichever way the optional colon is taken, a match at a position runs
//! from `https:` to the end of the run of URL characters after it.
use vstd::prelude::*;

verus! {

/// The Unicode `White_Space` characters.
pub open spec fn is_white_space(c: char) -> bool {
    let u = c as u32;
    ||| 0x09 <= u <= 0x0d
    ||| u == 0x20
    ||| u == 0x85
    ||| u == 0xa0
    ||| u == 0x1680
    ||| 0x2000 <= u <= 0x200a
    ||| u == 0x2028
    ||| u == 0x2029
    ||| u == 0x202f
    ||| u == 0x205f
    ||| u == 0x3000
}

/// A character that may stand in a chunk URL: neither whitespace nor `"`.
pub open spec fn is_url_char(c: char) -> bool {
    !is_white_space(c) && c != '"'
}

/// The end of the run of URL characters of `t` that starts at `j`.
pub open spec fn run_end(t: Seq<char>, j: int) -> int
    decreases t.len() - j,
{
    if 0 <= j < t.len() && is_url_char(t[j]) {
        run_end(t, j + 1)
    } else {
        j
    }
}

/// A chunk URL starts at `i`: `https:` followed by at least one URL character.
pub open spec fn starts_url(t: Seq<char>, i: int) -> bool {
    &&& 0 <= i
    &&& i + 7 <= t.len()
    &&& t[i] == 'h'
    &&& t[i + 1] == 't'
    &&& t[i + 2] == 't'
    &&& t[i + 3] == 'p'
    &&& t[i + 4] == 's'
    &&& t[i + 5] == ':'
    &&& is_url_char(t[i + 6])
}

pub proof fn lemma_run_end_bounds(t: Seq<char>, j: int)
    requires
        0 <= j <= t.len(),
    ensures
        j <= run_end(t, j) <= t.len(),
        forall|k: int| j <= k < run_end(t, j) ==> is_url_char(#[trigger] t[k]),
        run_end(t, j) < t.len() ==> !is_url_char(t[run_end(t, j)]),
    decreases t.len() - j,
{
    if j < t.len() && is_url_char(t[j]) {
        lemma_run_end_bounds(t, j + 1);
    }
}

/// The chunk URLs of `t` from position `i` on, left to right: at each
/// position where a URL starts, the maximal run from there; the search goes
/// on after its end.
pub open spec fn chunk_urls_from(t: Seq<char>, i: int) -> Seq<Seq<char>>
    decreases t.len() - i,
{
    if i < 0 || i >= t.len() {
        Seq::empty()
    } else if starts_url(t, i) {
        let e = run_end(t, i + 6);
        proof {
            lemma_run_end_bounds(t, i + 6);
        }
        seq![t.subrange(i, e)] + chunk_urls_from(t, e)
    } else {
        chunk_urls_from(t, i + 1)
    }
}

/// The chunk URLs of a playlist text.
pub open spec fn chunk_urls(t: Seq<char>) -> Seq<Seq<char>> {
    chunk_urls_from(t, 0)
}

fn white_space(c: char) -> (b: bool)
    ensures
        b == is_white_space(c),
{
    let u = c as u32;
    (0x09 <= u && u <= 0x0d) || u == 0x20 || u == 0x85 || u == 0xa0 || u == 0x1680 || (0x2000
        <= u && u <= 0x200a) || u == 0x2028 || u == 0x2029 || u == 0x202f || u == 0x205f || u
        == 0x3000
}

fn url_char(c: char) -> (b: bool)
    ensures
        b == is_url_char(c),
{
    !white_space(c) && c != '"'
}

fn starts_url_at(t: &Vec<char>, i: usize) -> (b: bool)
    ensures
        b == starts_url(t@, i as int),
{
    if t.len() < 7 || i > t.len() - 7 {
        return false;
    }
    t[i] == 'h' && t[i + 1] == 't' && t[i + 2] == 't' && t[i + 3] == 'p' && t[i + 4] == 's' && t[i
        + 5] == ':' && url_char(t[i + 6])
}

fn find_run_end(t: &Vec<char>, j: usize) -> (e: usize)
    requires
        j <= t@.len(),
    ensures
        e as int == run_end(t@, j as int),
{
    let mut e = j;
    while e < t.len() && url_char(t[e])
        invariant
            j <= e <= t@.len(),
            run_end(t@, e as int) == run_end(t@, j as int),
        decreases t@.len() - e,
    {
        e = e + 1;
    }
    e
}

fn text_chars(text: &str) -> (chars: Vec<char>)
    ensures
        chars@ == text@,
{
    let mut chars: Vec<char> = Vec::new();
    proof {
        broadcast use vstd::string::axiom_spec_iter;
    }
    for c in it: text.chars()
        invariant
            it.seq() == text@,
            chars@ == it.seq().take(it.index() as int),
    {
        chars.push(c);
    }
    assert(text@.take(text@.len() as int) =~= text@);
    chars
}

/// The chunk URLs of an HLS playlist text, in the order in which they occur.
pub fn extract_chunk_urls(text: &str) -> (urls: Vec<String>)
    ensures
        urls@.map_values(|s: String| s@) == chunk_urls(text@),
{
    let chars = text_chars(text);
    let ghost t = text@;
    let n = chars.len();
    let mut urls: Vec<String> = Vec::new();
    let mut i: usize = 0;
    while i < n
        invariant
            chars@ == t,
            t == text@,
            n == t.len(),
            i <= n,
            urls@.map_values(|s: String| s@) + chunk_urls_from(t, i as int) == chunk_urls(t),
        decreases n - i,
    {
        if starts_url_at(&chars, i) {
            let e = find_run_end(&chars, i + 6);
            proof {
                lemma_run_end_bounds(t, i + 6);
            }
            let url = String::from_str(text.substring_char(i, e));
            let ghost before = urls@;
            urls.push(url);
            proof {
                assert(urls@.map_values(|s: String| s@) =~= before.map_values(|s: String| s@).push(
                    t.subrange(i as int, e as int),
                ));
                assert(urls@.map_values(|s: String| s@) + chunk_urls_from(t, e as int)
                    =~= before.map_values(|s: String| s@) + chunk_urls_from(t, i as int));
            }
            i = e;
        } else {
            i = i + 1;
        }
    }
    assert(urls@.map_values(|s: String| s@) =~= chunk_urls(t));
    urls
}

/// A chunk URL: `https:` followed by URL characters only (at least one).
pub open spec fn is_chunk_url(u: Seq<char>) -> bool {
    &&& starts_url(u, 0)
    &&& forall|k: int| 0 <= k < u.len() ==> is_url_char(#[trigger] u[k])
}

/// Every URL found is a chunk URL, and it is a stretch of the text that
/// starts at or after the position where the search began.
pub proof fn lemma_found_urls_are_chunk_urls(t: Seq<char>, i: int)
    ensures
        forall|k: int| 0 <= k < chunk_urls_from(t, i).len() ==> is_chunk_url(#[trigger] chunk_urls_from(t, i)[k]),
    decreases t.len() - i,
{
    if i < 0 || i >= t.len() {
    } else if starts_url(t, i) {
        let e = run_end(t, i + 6);
        lemma_run_end_bounds(t, i + 6);
        lemma_run_end_bounds(t, i + 7);
        assert(e == run_end(t, i + 7));
        lemma_found_urls_are_chunk_urls(t, e);
        let u = t.subrange(i, e);
        assert(starts_url(u, 0));
        assert forall|k: int| 0 <= k < u.len() implies is_url_char(#[trigger] u[k]) by {
            assert(u[k] == t[i + k]);
            if k >= 6 {
            } else {
                assert('h' as u32 == 104);
                assert('t' as u32 == 116);
                assert('p' as u32 == 112);
                assert('s' as u32 == 115);
                assert(':' as u32 == 58);
            }
        }
        assert(is_chunk_url(u));
        let all = chunk_urls_from(t, i);
        assert(all == seq![u] + chunk_urls_from(t, e));
        assert forall|k: int| 0 <= k < all.len() implies is_chunk_url(#[trigger] all[k]) by {
            if k == 0 {
                assert(all[0] == u);
            } else {
                assert(all[k] == chunk_urls_from(t, e)[k - 1]);
            }
        }
    } else {
        lemma_found_urls_are_chunk_urls(t, i + 1);
        assert(chunk_urls_from(t, i) == chunk_urls_from(t, i + 1));
    }
}

/// A text in which no chunk URL starts holds no chunk URLs.
pub proof fn lemma_no_start_no_urls(t: Seq<char>, i: int)
    requires
        forall|j: int| i <= j < t.len() ==> !starts_url(t, j),
    ensures
        chunk_urls_from(t, i) == Seq::<Seq<char>>::empty(),
    decreases t.len() - i,
{
    if i >= 0 && i < t.len() {
        lemma_no_start_no_urls(t, i + 1);
    }
}

/// The characters that may stand in a chunk URL, by code point: everything
/// but the Unicode `White_Space` characters and `"`. In particular every
/// printable ASCII character other than `"` (such as `_`, `~`, `%`, `:`)
/// and every control character that is not whitespace.
pub proof fn lemma_url_chars(c: char)
    ensures
        (0x21 <= c as u32 <= 0x7e && c != '"') ==> is_url_char(c),
        (c as u32 <= 0x08 || 0x0e <= c as u32 <= 0x1f || 0x7f <= c as u32 <= 0x84
            || 0x86 <= c as u32 <= 0x9f || 0xa1 <= c as u32 <= 0x167f || 0x1681 <= c as u32 <= 0x1fff
            || 0x200b <= c as u32 <= 0x2027 || 0x202a <= c as u32 <= 0x202e
            || 0x2030 <= c as u32 <= 0x205e || 0x2060 <= c as u32 <= 0x2fff || 0x3001 <= c as u32)
            ==> is_url_char(c),
        (c == ' ' || c == '\t' || c == '\n' || c == '\r' || c == '"' || c as u32 == 0x0b
            || c as u32 == 0x0c || c as u32 == 0x85 || c as u32 == 0xa0 || c as u32 == 0x1680
            || (0x2000 <= c as u32 <= 0x200a) || c as u32 == 0x2028 || c as u32 == 0x2029
            || c as u32 == 0x202f || c as u32 == 0x205f || c as u32 == 0x3000) ==> !is_url_char(c),
{
}

proof fn lemma_printable_run(t: Seq<char>, j: int)
    requires
        6 <= j <= t.len(),
        forall|k: int| 6 <= k < t.len() ==> 0x21 <= #[trigger] t[k] as u32 <= 0x7e && t[k] != '"',
    ensures
        run_end(t, j) == t.len(),
    decreases t.len() - j,
{
    if j < t.len() {
        lemma_url_chars(t[j]);
        lemma_printable_run(t, j + 1);
    }
}

/// A text that is `https:` followed by printable ASCII other than `"` (at
/// least one character) is one chunk URL, taken whole.
pub proof fn lemma_whole_url(t: Seq<char>)
    requires
        t.len() >= 7,
        t[0] == 'h' && t[1] == 't' && t[2] == 't' && t[3] == 'p' && t[4] == 's' && t[5] == ':',
        forall|k: int| 6 <= k < t.len() ==> 0x21 <= #[trigger] t[k] as u32 <= 0x7e && t[k] != '"',
    ensures
        chunk_urls(t) == seq![t],
{
    lemma_url_chars(t[6]);
    lemma_printable_run(t, 6);
    assert(starts_url(t, 0));
    assert(t.subrange(0, t.len() as int) =~= t);
    assert(chunk_urls_from(t, t.len() as int) == Seq::<Seq<char>>::empty());
    assert(chunk_urls(t) =~= seq![t]);
}

proof fn lemma_run_end_shift(p: Seq<char>, t: Seq<char>, j: int)
    requires
        0 <= j <= t.len(),
    ensures
        run_end(p + t, p.len() + j) == p.len() + run_end(t, j),
    decreases t.len() - j,
{
    if j < t.len() {
        assert((p + t)[p.len() + j] == t[j]);
        lemma_run_end_shift(p, t, j + 1);
    }
}

/// The URLs found from a position on depend only on the text from there on.
pub proof fn lemma_urls_ignore_what_precedes(p: Seq<char>, t: Seq<char>, i: int)
    requires
        0 <= i,
    ensures
        chunk_urls_from(p + t, p.len() + i) == chunk_urls_from(t, i),
    decreases t.len() - i,
{
    let s = p + t;
    let k = p.len() + i;
    if i < t.len() {
        if i + 7 <= t.len() {
            assert(s[k] == t[i] && s[k + 1] == t[i + 1] && s[k + 2] == t[i + 2] && s[k + 3] == t[i + 3]
                && s[k + 4] == t[i + 4] && s[k + 5] == t[i + 5] && s[k + 6] == t[i + 6]);
        }
        assert(starts_url(s, k) == starts_url(t, i));
        if starts_url(t, i) {
            lemma_run_end_bounds(t, i + 6);
            lemma_run_end_shift(p, t, i + 6);
            let e = run_end(t, i + 6);
            lemma_urls_ignore_what_precedes(p, t, e);
            assert(s.subrange(k, p.len() + e) =~= t.subrange(i, e));
        } else {
            lemma_urls_ignore_what_precedes(p, t, i + 1);
        }
    }
}

/// A text that starts with a whitespace character or `"` holds the same
/// chunk URLs as the text after it.
pub proof fn lemma_leading_separator_ignored(c: char, t: Seq<char>)
    requires
        c == ' ' || c == '\t' || c == '\n' || c == '\r' || c == '"',
    ensures
        chunk_urls(seq![c] + t) == chunk_urls(t),
{
    let s = seq![c] + t;
    assert(!starts_url(s, 0));
    lemma_urls_ignore_what_precedes(seq![c], t, 0);
}

/// A chunk URL followed by a whitespace character or `"` and more text: the
/// URL, taken whole, comes first, then the URLs of the rest.
pub proof fn lemma_url_then_separator(u: Seq<char>, c: char, t: Seq<char>)
    requires
        u.len() >= 7,
        u[0] == 'h' && u[1] == 't' && u[2] == 't' && u[3] == 'p' && u[4] == 's' && u[5] == ':',
        forall|k: int| 6 <= k < u.len() ==> 0x21 <= #[trigger] u[k] as u32 <= 0x7e && u[k] != '"',
        c == ' ' || c == '\t' || c == '\n' || c == '\r' || c == '"',
    ensures
        chunk_urls(u + (seq![c] + t)) == seq![u] + chunk_urls(t),
{
    let s = u + (seq![c] + t);
    lemma_url_chars(u[6]);
    assert(s[6] == u[6]);
    assert(starts_url(s, 0));
    lemma_printable_run(u, 6);
    lemma_run_end_shift(u, seq![c] + t, 0);
    assert(run_end(seq![c] + t, 0) == 0) by {
        lemma_url_chars(c);
    }
    assert forall|k: int| 6 <= k < u.len() implies is_url_char(#[trigger] s[k]) by {
        assert(s[k] == u[k]);
        lemma_url_chars(u[k]);
    }
    assert(run_end(s, 6) == run_end(s, u.len() as int)) by {
        lemma_run_end_same(s, 6, u.len() as int);
    }
    assert(run_end(s, u.len() as int) == u.len());
    assert(s.subrange(0, u.len() as int) =~= u);
    lemma_urls_ignore_what_precedes(u, seq![c] + t, 0);
    lemma_leading_separator_ignored(c, t);
}

proof fn lemma_run_end_same(s: Seq<char>, j: int, e: int)
    requires
        0 <= j <= e <= s.len(),
        forall|k: int| j <= k < e ==> is_url_char(#[trigger] s[k]),
    ensures
        run_end(s, j) == run_end(s, e),
    decreases e - j,
{
    if j < e {
        lemma_run_end_same(s, j + 1, e);
    }
}

} // verus!
