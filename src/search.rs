use vstd::prelude::*;

use crate::text::{chars_of, lines_of, split_lines};

verus! {

/// `pattern` occurs in `text` starting at position `i`.
pub open spec fn occurs_at(text: Seq<char>, pattern: Seq<char>, i: int) -> bool {
    0 <= i && i + pattern.len() <= text.len() && text.subrange(i, i + pattern.len()) == pattern
}

/// `pattern` occurs in `text` as a contiguous run of characters.
pub open spec fn contains(text: Seq<char>, pattern: Seq<char>) -> bool {
    exists|i: int| occurs_at(text, pattern, i)
}

/// The test that a line contains `query`, verbatim.
pub open spec fn holds_query(query: Seq<char>) -> spec_fn(Seq<char>) -> bool {
    |line: Seq<char>| contains(line, query)
}

/// The lines of `contents` that contain `query`, in their order in `contents`.
pub open spec fn matching_lines(query: Seq<char>, contents: Seq<char>) -> Seq<Seq<char>> {
    lines_of(contents).filter(holds_query(query))
}

/// What `str::to_lowercase` returns for the characters `s`.
pub uninterp spec fn lower_of(s: Seq<char>) -> Seq<char>;

/// The test that a line contains `query` once both are lowercased.
pub open spec fn holds_folded(query: Seq<char>) -> spec_fn(Seq<char>) -> bool {
    |line: Seq<char>| contains(lower_of(line), lower_of(query))
}

/// The lines of `contents` that contain `query` when both are lowercased, in
/// their order in `contents`.
pub open spec fn folded_matching_lines(query: Seq<char>, contents: Seq<char>) -> Seq<Seq<char>> {
    lines_of(contents).filter(holds_folded(query))
}

/// Relies on `str::to_lowercase`: the result depends on the characters of
/// `s` alone.
#[verifier::external_body]
fn lowercase(s: &str) -> (r: String)
    ensures
        r@ == lower_of(s@),
{
    s.to_lowercase()
}

/// Whether `pattern` occurs in `text` at position `i`.
fn occurs_at_exec(text: &Vec<char>, pattern: &Vec<char>, i: usize) -> (r: bool)
    requires
        i + pattern.len() <= text.len(),
    ensures
        r == occurs_at(text@, pattern@, i as int),
{
    let mut j: usize = 0;
    while j < pattern.len()
        invariant
            i + pattern.len() <= text.len(),
            j <= pattern.len(),
            forall|k: int| 0 <= k < j ==> text@[i + k] == pattern@[k],
        decreases pattern.len() - j,
    {
        if text[i + j] != pattern[j] {
            assert(text@.subrange(i as int, i + pattern.len())[j as int] != pattern@[j as int]);
            return false;
        }
        j += 1;
    }
    assert(text@.subrange(i as int, i + pattern.len()) =~= pattern@);
    true
}

/// Whether `pattern` occurs anywhere in `text`.
fn contains_chars(text: &Vec<char>, pattern: &Vec<char>) -> (r: bool)
    ensures
        r == contains(text@, pattern@),
{
    if pattern.len() > text.len() {
        assert forall|i: int| !occurs_at(text@, pattern@, i) by {}
        return false;
    }
    let last = text.len() - pattern.len();
    let mut i: usize = 0;
    while i < last
        invariant
            last + pattern.len() == text.len(),
            i <= last,
            forall|k: int| 0 <= k < i ==> !occurs_at(text@, pattern@, k),
        decreases last - i,
    {
        if occurs_at_exec(text, pattern, i) {
            return true;
        }
        i += 1;
    }
    let found = occurs_at_exec(text, pattern, last);
    assert(!found ==> forall|k: int| !occurs_at(text@, pattern@, k));
    found
}

/// Whether `query` occurs in `line` as a contiguous run of characters.
pub fn contains_query(line: &str, query: &str) -> (r: bool)
    ensures
        r == contains(line@, query@),
{
    let text = chars_of(line);
    let pattern = chars_of(query);
    contains_chars(&text, &pattern)
}

/// The lines of `contents` that contain `query`, in order, each a view into
/// `contents`.
pub fn search<'a>(query: &str, contents: &'a str) -> (r: Vec<&'a str>)
    ensures
        r.deep_view() == matching_lines(query@, contents@),
{
    let lines = split_lines(contents);
    let pattern = chars_of(query);
    let ghost all = lines.deep_view();
    let mut out: Vec<&'a str> = Vec::new();
    let mut k: usize = 0;
    while k < lines.len()
        invariant
            all == lines.deep_view(),
            all == lines_of(contents@),
            pattern@ == query@,
            k <= lines.len(),
            out.deep_view() == all.take(k as int).filter(holds_query(query@)),
        decreases lines.len() - k,
    {
        let line = lines[k];
        let text = chars_of(line);
        let found = contains_chars(&text, &pattern);
        let ghost before = out.deep_view();
        if found {
            out.push(line);
            assert(out.deep_view() =~= before.push(line@));
        }
        proof {
            assert(all.take(k + 1).drop_last() =~= all.take(k as int));
            assert(all.take(k + 1).last() == line@);
            reveal(Seq::filter);
        }
        k += 1;
    }
    assert(all.take(k as int) =~= all);
    out
}

/// The lines of `contents` that contain `query` once both are lowercased, in
/// order, each a view into `contents` as it was given.
pub fn search_case_insensitive<'a>(query: &str, contents: &'a str) -> (r: Vec<&'a str>)
    ensures
        r.deep_view() == folded_matching_lines(query@, contents@),
{
    let query_lower = lowercase(query);
    let lines = split_lines(contents);
    let ghost all = lines.deep_view();
    let mut out: Vec<&'a str> = Vec::new();
    let mut k: usize = 0;
    while k < lines.len()
        invariant
            all == lines.deep_view(),
            all == lines_of(contents@),
            query_lower@ == lower_of(query@),
            k <= lines.len(),
            out.deep_view() == all.take(k as int).filter(holds_folded(query@)),
        decreases lines.len() - k,
    {
        let line = lines[k];
        let line_lower = lowercase(line);
        let found = contains_query(line_lower.as_str(), query_lower.as_str());
        let ghost before = out.deep_view();
        if found {
            out.push(line);
            assert(out.deep_view() =~= before.push(line@));
        }
        proof {
            assert(all.take(k + 1).drop_last() =~= all.take(k as int));
            assert(all.take(k + 1).last() == line@);
            reveal(Seq::filter);
        }
        k += 1;
    }
    assert(all.take(k as int) =~= all);
    out
}

/// Filtering keeps a sequence whole when every element passes.
proof fn lemma_filter_keeps_all(s: Seq<Seq<char>>, pred: spec_fn(Seq<char>) -> bool)
    requires
        forall|i: int| 0 <= i < s.len() ==> #[trigger] pred(s[i]),
    ensures
        s.filter(pred) == s,
    decreases s.len(),
{
    reveal(Seq::filter);
    if s.len() > 0 {
        let init = s.drop_last();
        assert forall|i: int| 0 <= i < init.len() implies #[trigger] pred(init[i]) by {
            assert(init[i] == s[i]);
        }
        lemma_filter_keeps_all(init, pred);
        assert(pred(s[s.len() - 1]));
        assert(init.push(s.last()) =~= s);
    }
}

/// The empty query occurs in every line, so searching for it returns every
/// line of `contents`, in order.
pub proof fn lemma_empty_query_matches_every_line(contents: Seq<char>)
    ensures
        matching_lines(Seq::empty(), contents) == lines_of(contents),
{
    let lines = lines_of(contents);
    assert forall|i: int| 0 <= i < lines.len() implies #[trigger] holds_query(Seq::empty())(
        lines[i],
    ) by {
        assert(lines[i].subrange(0, 0) =~= Seq::<char>::empty());
        assert(occurs_at(lines[i], Seq::empty(), 0));
    }
    lemma_filter_keeps_all(lines, holds_query(Seq::empty()));
}

/// Empty contents have no line, so neither search finds anything there,
/// whatever the query.
pub proof fn lemma_empty_contents_match_nothing(query: Seq<char>)
    ensures
        matching_lines(query, Seq::empty()) == Seq::<Seq<char>>::empty(),
        folded_matching_lines(query, Seq::empty()) == Seq::<Seq<char>>::empty(),
{
    reveal(Seq::filter);
    assert(lines_of(Seq::empty()) == Seq::<Seq<char>>::empty());
}

/// Two searches with the same query and contents give the same lines in the
/// same order, case-sensitive or not.
pub proof fn lemma_search_repeatable(
    query: Seq<char>,
    contents: Seq<char>,
    first: Seq<Seq<char>>,
    second: Seq<Seq<char>>,
    ignore_case: bool,
)
    requires
        !ignore_case ==> first == matching_lines(query, contents),
        !ignore_case ==> second == matching_lines(query, contents),
        ignore_case ==> first == folded_matching_lines(query, contents),
        ignore_case ==> second == folded_matching_lines(query, contents),
    ensures
        first == second,
{
}

} // verus!
