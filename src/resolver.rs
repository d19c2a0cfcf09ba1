//! Extraction of a video identifier from a URL.
use vstd::prelude::*;
use vstd::string::*;
use crate::error::TranscribeError;

verus! {

/// The query form's key: `v=`.
pub open spec fn query_key() -> Seq<char> {
    seq!['v', '=']
}

/// The short-link form's prefix: `youtu.be/`.
pub open spec fn short_key() -> Seq<char> {
    seq!['y', 'o', 'u', 't', 'u', '.', 'b', 'e', '/']
}

/// `p` occurs in `s` starting at index `i`.
pub open spec fn occurs_at(s: Seq<char>, p: Seq<char>, i: int) -> bool {
    0 <= i && i + p.len() <= s.len() && s.subrange(i, i + p.len()) == p
}

/// The first index at or after `i` where `p` occurs in `s`, or `s.len()` if none.
pub open spec fn find_from(s: Seq<char>, p: Seq<char>, i: int) -> int
    decreases s.len() - i,
{
    if i < 0 || i >= s.len() || i + p.len() > s.len() {
        s.len() as int
    } else if occurs_at(s, p, i) {
        i
    } else {
        find_from(s, p, i + 1)
    }
}

/// The identifier that follows the first `key` in `url`, up to `stop` or the end,
/// or `None` when `key` does not occur.
pub open spec fn id_after(url: Seq<char>, key: Seq<char>, stop: char) -> Option<Seq<char>> {
    let k = find_from(url, key, 0);
    if k < url.len() {
        let start = k + key.len();
        let end = find_from(url, seq![stop], start);
        Some(url.subrange(start, end))
    } else {
        None
    }
}

/// The identifier of a video URL: the query form is tried first, then the
/// short-link form; an empty identifier counts as none.
pub open spec fn video_id_of(url: Seq<char>) -> Option<Seq<char>> {
    let found = match id_after(url, query_key(), '&') {
        Some(id) => Some(id),
        None => id_after(url, short_key(), '?'),
    };
    match found {
        Some(id) => if id.len() > 0 { Some(id) } else { None },
        None => None,
    }
}

proof fn lemma_find_from_bounds(s: Seq<char>, p: Seq<char>, i: int)
    requires
        0 <= i,
        p.len() > 0,
    ensures
        i <= find_from(s, p, i) <= s.len() || find_from(s, p, i) == s.len(),
        find_from(s, p, i) < s.len() ==> occurs_at(s, p, find_from(s, p, i)),
        find_from(s, p, i) <= s.len(),
    decreases s.len() - i,
{
    if i + p.len() > s.len() {
    } else if occurs_at(s, p, i) {
    } else {
        lemma_find_from_bounds(s, p, i + 1);
    }
}

/// `find_from` lands on `k` when `p` occurs nowhere in `[i, k)` and occurs at `k`
/// (or `k` is the end).
proof fn lemma_find_from_is(s: Seq<char>, p: Seq<char>, i: int, k: int)
    requires
        0 <= i <= k <= s.len(),
        p.len() > 0,
        k < s.len() ==> occurs_at(s, p, k),
        forall|j: int| i <= j < k ==> !occurs_at(s, p, j),
    ensures
        find_from(s, p, i) == k,
    decreases k - i,
{
    if i < k {
        assert(!occurs_at(s, p, i));
        if i + p.len() > s.len() {
            assert(k < s.len() ==> k + p.len() <= s.len());
        } else {
            lemma_find_from_is(s, p, i + 1, k);
        }
    } else if k < s.len() {
    } else {
    }
}

/// An identifier ended by `stop` or by the end of `s` is found up to there.
proof fn lemma_id_span(s: Seq<char>, key: Seq<char>, stop: char, pre: Seq<char>, id: Seq<char>, rest: Seq<char>)
    requires
        s == pre + key + id + rest,
        key.len() > 0,
        forall|j: int| 0 <= j < pre.len() ==> !occurs_at(s, key, j),
        forall|t: int| 0 <= t < id.len() ==> id[t] != stop,
        rest.len() == 0 || rest[0] == stop,
    ensures
        id_after(s, key, stop) == Some(id),
{
    let start: int = (pre.len() + key.len()) as int;
    let end: int = start + id.len();
    assert(s.subrange(pre.len() as int, start as int) =~= key);
    lemma_find_from_is(s, key, 0, pre.len() as int);
    assert forall|j: int| start <= j < end implies !occurs_at(s, seq![stop], j) by {
        if occurs_at(s, seq![stop], j) {
            assert(s.subrange(j, j + 1)[0] == s[j]);
            assert(s[j] == id[j - start]);
        }
    }
    if end < s.len() {
        assert(s[end] == rest[0]);
        assert(s.subrange(end, end + 1) =~= seq![stop]);
    }
    lemma_find_from_is(s, seq![stop], start, end);
    assert(s.subrange(start, end) =~= id);
}

/// A URL of the form `pre v=<id> rest`, whose first `v=` is the one shown, whose
/// non-empty identifier holds no `&` and whose rest is empty or starts with `&`,
/// resolves to exactly that identifier.
pub proof fn law_query_form_resolves(pre: Seq<char>, id: Seq<char>, rest: Seq<char>)
    requires
        id.len() > 0,
        forall|t: int| 0 <= t < id.len() ==> id[t] != '&',
        rest.len() == 0 || rest[0] == '&',
        forall|j: int| 0 <= j < pre.len() ==> !occurs_at(pre + query_key() + id + rest, query_key(), j),
    ensures
        video_id_of(pre + query_key() + id + rest) == Some(id),
{
    lemma_id_span(pre + query_key() + id + rest, query_key(), '&', pre, id, rest);
}

/// A URL without `v=` of the form `pre youtu.be/<id> rest`, whose first
/// `youtu.be/` is the one shown, whose non-empty identifier holds no `?` and whose
/// rest is empty or starts with `?`, resolves to exactly that identifier.
pub proof fn law_short_form_resolves(pre: Seq<char>, id: Seq<char>, rest: Seq<char>)
    requires
        id.len() > 0,
        forall|t: int| 0 <= t < id.len() ==> id[t] != '?',
        rest.len() == 0 || rest[0] == '?',
        forall|j: int| 0 <= j < pre.len() ==> !occurs_at(pre + short_key() + id + rest, short_key(), j),
        forall|j: int| !occurs_at(pre + short_key() + id + rest, query_key(), j),
    ensures
        video_id_of(pre + short_key() + id + rest) == Some(id),
{
    let s = pre + short_key() + id + rest;
    lemma_find_from_is(s, query_key(), 0, s.len() as int);
    lemma_id_span(s, short_key(), '?', pre, id, rest);
}

/// A URL in which neither `v=` nor `youtu.be/` occurs has no identifier.
pub proof fn law_no_pattern_no_identifier(url: Seq<char>)
    requires
        forall|j: int| !occurs_at(url, query_key(), j),
        forall|j: int| !occurs_at(url, short_key(), j),
    ensures
        video_id_of(url).is_none(),
{
    lemma_find_from_is(url, query_key(), 0, url.len() as int);
    lemma_find_from_is(url, short_key(), 0, url.len() as int);
}

/// The characters of `s`, in order.
fn chars_of(s: &str) -> (r: Vec<char>)
    ensures
        r@ == s@,
{
    let n = s.unicode_len();
    let mut r: Vec<char> = Vec::new();
    let mut i: usize = 0;
    while i < n
        invariant
            n == s@.len(),
            i <= n,
            r@ == s@.subrange(0, i as int),
        decreases n - i,
    {
        r.push(s.get_char(i));
        i = i + 1;
    }
    assert(r@ =~= s@);
    r
}

/// Whether `p` occurs in `s` at index `i`.
fn occurs_at_exec(s: &Vec<char>, p: &Vec<char>, i: usize) -> (r: bool)
    requires
        i + p@.len() <= s@.len(),
        i < s@.len(),
    ensures
        r == occurs_at(s@, p@, i as int),
{
    let n = s.len();
    let mut j: usize = 0;
    while j < p.len()
        invariant
            n == s@.len(),
            i + p@.len() <= s@.len(),
            j <= p@.len(),
            forall|t: int| 0 <= t < j ==> s@[i + t] == p@[t],
        decreases p@.len() - j,
    {
        if s[i + j] != p[j] {
            assert(s@.subrange(i as int, i + p@.len())[j as int] != p@[j as int]);
            return false;
        }
        j = j + 1;
    }
    assert(s@.subrange(i as int, i + p@.len()) =~= p@);
    true
}

/// The first index at or after `i` where `p` occurs in `s`, or `s.len()` if none.
fn find_from_exec(s: &Vec<char>, p: &Vec<char>, i: usize) -> (r: usize)
    requires
        i <= s@.len(),
        p@.len() > 0,
    ensures
        r == find_from(s@, p@, i as int),
{
    let mut k: usize = i;
    while k < s.len()
        invariant
            i <= k <= s@.len(),
            p@.len() > 0,
            find_from(s@, p@, k as int) == find_from(s@, p@, i as int),
        decreases s@.len() - k,
    {
        if p.len() > s.len() - k {
            return s.len();
        }
        if occurs_at_exec(s, p, k) {
            return k;
        }
        k = k + 1;
    }
    s.len()
}

/// The identifier that follows the first `key` in `url`, up to `stop` or the end.
fn id_after_exec(url: &str, chars: &Vec<char>, key: &Vec<char>, stop: char) -> (r: Option<String>)
    requires
        chars@ == url@,
        key@.len() > 0,
    ensures
        match r {
            Some(id) => id_after(url@, key@, stop) == Some(id@),
            None => id_after(url@, key@, stop).is_none(),
        },
{
    let k = find_from_exec(chars, key, 0);
    proof {
        lemma_find_from_bounds(url@, key@, 0);
    }
    if k < chars.len() {
        let start = k + key.len();
        let stop_seq: Vec<char> = vec![stop];
        assert(stop_seq@ =~= seq![stop]);
        let end = find_from_exec(chars, &stop_seq, start);
        proof {
            lemma_find_from_bounds(url@, seq![stop], start as int);
        }
        let id = url.substring_char(start, end);
        Some(String::from_str(id))
    } else {
        None
    }
}

/// Extracts the video identifier from `url`.
///
/// `v=<id>` (ended by `&` or the end) is tried first, then `youtu.be/<id>`
/// (ended by `?` or the end). Fails with `NoIdentifierFound` when neither
/// gives a non-empty identifier.
pub fn extract_video_id(url: &str) -> (r: Result<String, TranscribeError>)
    ensures
        match r {
            Ok(id) => video_id_of(url@) == Some(id@),
            Err(e) => video_id_of(url@).is_none()
                && e == (TranscribeError::NoIdentifierFound { url: e->url })
                && e->url@ == url@,
        },
{
    let chars = chars_of(url);
    let query: Vec<char> = vec!['v', '='];
    let short: Vec<char> = vec!['y', 'o', 'u', 't', 'u', '.', 'b', 'e', '/'];
    assert(query@ =~= query_key());
    assert(short@ =~= short_key());
    let found = match id_after_exec(url, &chars, &query, '&') {
        Some(id) => Some(id),
        None => id_after_exec(url, &chars, &short, '?'),
    };
    match found {
        Some(id) => {
            if id.unicode_len() > 0 {
                Ok(id)
            } else {
                Err(TranscribeError::NoIdentifierFound { url: String::from_str(url) })
            }
        },
        None => Err(TranscribeError::NoIdentifierFound { url: String::from_str(url) }),
    }
}

} // verus!
