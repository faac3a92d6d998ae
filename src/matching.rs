//! Best-match lookup of a user's query among the names the library returns.
//! Names and query are compared after white space is dropped and letters
//! are lowercased.

use vstd::prelude::*;
use crate::text::{chars_of, is_white_space, same_chars, string_of};
use crate::track::Item;

verus! {

/// What `char::to_lowercase` yields for `c`.
pub uninterp spec fn lowercase_of(c: char) -> Seq<char>;

/// Relies on `char::to_lowercase`: the lowercase mapping of one character,
/// which depends on that character alone.
#[verifier::external_body]
fn lowercase(c: char) -> (r: String)
    ensures
        r@ == lowercase_of(c),
{
    c.to_lowercase().collect()
}

/// The characters that lowercasing `c` gives.
pub fn lowercase_chars_of(c: char) -> (r: Vec<char>)
    ensures
        r@ == lowercase_of(c),
{
    let low = lowercase(c);
    chars_of(low.as_str())
}

/// `s` with white space dropped and every other character lowercased.
pub open spec fn normalized(s: Seq<char>) -> Seq<char>
    decreases s.len(),
{
    if s.len() == 0 {
        Seq::empty()
    } else if is_white_space(s.last()) {
        normalized(s.drop_last())
    } else {
        normalized(s.drop_last()) + lowercase_of(s.last())
    }
}

/// Whether `needle` occurs in `hay` as a contiguous run.
pub open spec fn contains(hay: Seq<char>, needle: Seq<char>) -> bool {
    exists|i: int|
        0 <= i && i + needle.len() <= hay.len() && #[trigger] hay.subrange(i, i + needle.len())
            == needle
}

pub open spec fn starts_with(s: Seq<char>, prefix: Seq<char>) -> bool {
    prefix.len() <= s.len() && s.subrange(0, prefix.len() as int) == prefix
}

/// How well `candidate` matches `query`: 3 when equal, 2 when either holds
/// the other, 1 when the candidate starts with the query, else 0.
pub open spec fn score(query: Seq<char>, candidate: Seq<char>) -> i32 {
    if candidate == query {
        3
    } else if contains(candidate, query) || contains(query, candidate) {
        2
    } else if starts_with(candidate, query) {
        1
    } else {
        0
    }
}

/// `i` is the first of the highest-scoring names, and its score is positive.
pub open spec fn is_best(query: Seq<char>, names: Seq<Seq<char>>, i: int) -> bool {
    &&& 0 <= i < names.len()
    &&& score(query, names[i]) > 0
    &&& forall|j: int| 0 <= j < i ==> score(query, #[trigger] names[j]) < score(query, names[i])
    &&& forall|j: int| 0 <= j < names.len() ==> score(query, #[trigger] names[j]) <= score(query, names[i])
}

/// No name can match: the query is empty or no name scores above zero.
pub open spec fn no_match(query: Seq<char>, names: Seq<Seq<char>>) -> bool {
    query.len() == 0 || forall|j: int| 0 <= j < names.len() ==> score(query, #[trigger] names[j]) == 0
}

pub open spec fn views(v: Seq<String>) -> Seq<Seq<char>> {
    v.map(|_i: int, s: String| s@)
}

pub open spec fn normalized_names(items: Seq<Item>) -> Seq<Seq<char>> {
    items.map(|_i: int, it: Item| normalized(it.name@))
}

/// `input` with white space dropped and every other character lowercased.
pub fn normalize_name(input: &str) -> (r: String)
    ensures
        r@ == normalized(input@),
{
    let cs = chars_of(input);
    let mut out: Vec<char> = Vec::new();
    let mut i: usize = 0;
    while i < cs.len()
        invariant
            i <= cs.len(),
            cs@ == input@,
            out@ == normalized(cs@.subrange(0, i as int)),
        decreases cs.len() - i,
    {
        let c = cs[i];
        assert(cs@.subrange(0, i + 1).drop_last() == cs@.subrange(0, i as int));
        if !crate::text::is_whitespace_char(c) {
            let mut lc = lowercase_chars_of(c);
            out.append(&mut lc);
        }
        i = i + 1;
    }
    assert(cs@.subrange(0, cs.len() as int) == cs@);
    string_of(&out)
}

/// Whether `needle` occurs in `hay`.
fn contains_chars(hay: &Vec<char>, needle: &Vec<char>) -> (r: bool)
    ensures
        r == contains(hay@, needle@),
{
    if needle.len() > hay.len() {
        return false;
    }
    let last = hay.len() - needle.len();
    let mut i: usize = 0;
    while i <= last
        invariant
            needle.len() <= hay.len(),
            last == hay.len() - needle.len(),
            i <= last + 1,
            forall|k: int|
                0 <= k < i ==> #[trigger] hay@.subrange(k, k + needle.len()) != needle@,
        decreases last + 1 - i,
    {
        if starts_at(hay, needle, i) {
            return true;
        }
        if i == last {
            return false;
        }
        i = i + 1;
    }
    false
}

/// Whether `needle` occurs in `hay` at position `at`.
fn starts_at(hay: &Vec<char>, needle: &Vec<char>, at: usize) -> (r: bool)
    requires
        at + needle.len() <= hay.len(),
    ensures
        r == (hay@.subrange(at as int, at + needle.len()) == needle@),
{
    let mut j: usize = 0;
    while j < needle.len()
        invariant
            j <= needle.len(),
            at + needle.len() <= hay.len(),
            hay@.subrange(at as int, at + j) == needle@.subrange(0, j as int),
        decreases needle.len() - j,
    {
        if hay[at + j] != needle[j] {
            assert(hay@.subrange(at as int, at + needle.len())[j as int] != needle@[j as int]);
            return false;
        }
        assert(hay@.subrange(at as int, at + j + 1) == hay@.subrange(at as int, at + j).push(
            hay@[at + j],
        ));
        assert(needle@.subrange(0, j + 1) == needle@.subrange(0, j as int).push(needle@[j as int]));
        j = j + 1;
    }
    assert(needle@.subrange(0, needle.len() as int) == needle@);
    true
}

/// How well the normalized `candidate` matches the normalized `query`.
pub fn match_score(query: &str, candidate: &str) -> (r: i32)
    ensures
        r == score(query@, candidate@),
{
    let q = chars_of(query);
    let c = chars_of(candidate);
    if same_chars(&c, &q) {
        3
    } else if contains_chars(&c, &q) || contains_chars(&q, &c) {
        2
    } else if q.len() <= c.len() && starts_at(&c, &q, 0) {
        1
    } else {
        0
    }
}

/// The position of the first of the best-scoring `names` for `query`, both
/// already normalized; none when nothing scores above zero or the query is
/// empty.
pub fn pick_best(query: &str, names: &[String]) -> (r: Option<usize>)
    ensures
        r is None <==> no_match(query@, views(names@)),
        r matches Some(i) ==> is_best(query@, views(names@), i as int),
{
    let ghost ns = views(names@);
    if chars_of(query).len() == 0 {
        return None;
    }
    let mut best: Option<usize> = None;
    let mut best_score: i32 = 0;
    let mut i: usize = 0;
    while i < names.len()
        invariant
            i <= names.len(),
            ns == views(names@),
            query@.len() > 0,
            best is None ==> best_score == 0 && forall|j: int|
                0 <= j < i ==> score(query@, #[trigger] ns[j]) == 0,
            best matches Some(b) ==> {
                &&& b < i
                &&& best_score == score(query@, ns[b as int])
                &&& best_score > 0
                &&& forall|j: int| 0 <= j < b ==> score(query@, #[trigger] ns[j]) < best_score
                &&& forall|j: int| 0 <= j < i ==> score(query@, #[trigger] ns[j]) <= best_score
            },
        decreases names.len() - i,
    {
        let s = match_score(query, names[i].as_str());
        assert(ns[i as int] == names@[i as int]@);
        if s > best_score {
            best = Some(i);
            best_score = s;
        }
        i = i + 1;
    }
    best
}

/// The item whose normalized name best matches the normalized `query`: the
/// first of the highest scorers, if any scores above zero.
pub fn best_match(query: &str, items: &[Item]) -> (r: Option<Item>)
    ensures
        r is None <==> no_match(normalized(query@), normalized_names(items@)),
        r matches Some(it) ==> exists|i: int|
            is_best(normalized(query@), normalized_names(items@), i) && it == items@[i],
{
    let q = normalize_name(query);
    let mut names: Vec<String> = Vec::new();
    let mut i: usize = 0;
    while i < items.len()
        invariant
            i <= items.len(),
            views(names@) == normalized_names(items@).subrange(0, i as int),
        decreases items.len() - i,
    {
        let n = normalize_name(items[i].name.as_str());
        let ghost before = names@;
        names.push(n);
        assert(views(names@) =~= views(before).push(n@));
        assert(normalized_names(items@).subrange(0, i + 1) =~= normalized_names(items@).subrange(
            0,
            i as int,
        ).push(normalized(items@[i as int].name@)));
        i = i + 1;
    }
    assert(normalized_names(items@).subrange(0, items.len() as int) == normalized_names(items@));
    match pick_best(q.as_str(), names.as_slice()) {
        Some(b) => Some(items[b].clone()),
        None => None,
    }
}

} // verus!
