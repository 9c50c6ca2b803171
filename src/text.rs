use vstd::prelude::*;
use vstd::utf8::encode_utf8;

verus! {

/// Position of the first `'\n'` in `s`, or `s.len()` when there is none.
pub open spec fn newline_index(s: Seq<char>) -> nat
    decreases s.len(),
{
    if s.len() == 0 || s[0] == '\n' {
        0
    } else {
        1 + newline_index(s.drop_first())
    }
}

/// A line as it is handed out: a `'\r'` that ended a `"\r\n"` terminator is
/// not part of the line.
pub open spec fn strip_cr(line: Seq<char>) -> Seq<char> {
    if line.len() > 0 && line.last() == '\r' {
        line.drop_last()
    } else {
        line
    }
}

/// The lines of `s`: the pieces between `'\n'` separators, each without a
/// `'\r'` right before its `'\n'`. A final terminator is optional: text that
/// ends in `'\n'` has no empty last line, and empty text has no line.
pub open spec fn lines_of(s: Seq<char>) -> Seq<Seq<char>>
    decreases s.len(),
{
    if s.len() == 0 {
        Seq::empty()
    } else {
        let k = newline_index(s) as int;
        if k >= s.len() {
            seq![s]
        } else {
            seq![strip_cr(s.take(k))] + lines_of(s.skip(k + 1))
        }
    }
}

/// `newline_index` is the first newline, whenever one is known by position.
pub proof fn lemma_newline_index(s: Seq<char>, k: int)
    requires
        0 <= k <= s.len(),
        k == s.len() || s[k] == '\n',
        forall|j: int| 0 <= j < k ==> s[j] != '\n',
    ensures
        newline_index(s) == k,
    decreases k,
{
    if k > 0 {
        assert(s[0] != '\n');
        let t = s.drop_first();
        assert forall|j: int| 0 <= j < k - 1 implies t[j] != '\n' by {
            assert(t[j] == s[j + 1]);
        }
        if k - 1 < t.len() {
            assert(t[k - 1] == s[k]);
        }
        lemma_newline_index(t, k - 1);
    }
}

/// Unfolds `lines_of` at a newline found at position `i`, with none in
/// `start..i`.
proof fn lemma_lines_step(s: Seq<char>, start: int, i: int)
    requires
        0 <= start <= i < s.len(),
        s[i] == '\n',
        forall|j: int| start <= j < i ==> s[j] != '\n',
    ensures
        lines_of(s.skip(start)) == seq![strip_cr(s.subrange(start, i))] + lines_of(s.skip(i + 1)),
{
    let t = s.skip(start);
    assert forall|j: int| 0 <= j < i - start implies t[j] != '\n' by {
        assert(t[j] == s[start + j]);
    }
    assert(t[i - start] == s[i]);
    lemma_newline_index(t, i - start);
    assert(t.take(i - start) =~= s.subrange(start, i));
    assert(t.skip(i - start + 1) =~= s.skip(i + 1));
}

/// The end of `lines_of` where no newline is left from `start` on.
proof fn lemma_lines_last(s: Seq<char>, start: int)
    requires
        0 <= start <= s.len(),
        forall|j: int| start <= j < s.len() ==> s[j] != '\n',
    ensures
        start == s.len() ==> lines_of(s.skip(start)) == Seq::<Seq<char>>::empty(),
        start < s.len() ==> lines_of(s.skip(start)) == seq![s.subrange(start, s.len() as int)],
{
    let t = s.skip(start);
    assert forall|j: int| 0 <= j < t.len() implies t[j] != '\n' by {
        assert(t[j] == s[start + j]);
    }
    lemma_newline_index(t, t.len() as int);
    assert(t =~= s.subrange(start, s.len() as int));
}

/// The characters of `s`, in order.
pub fn chars_of(s: &str) -> (r: Vec<char>)
    ensures
        r@ == s@,
{
    broadcast use vstd::string::axiom_spec_iter;

    let mut r: Vec<char> = Vec::new();
    for c in it: s.chars()
        invariant
            r@ == it.seq().take(it.index()),
    {
        r.push(c);
    }
    assert(r@ =~= s@);
    r
}

/// Splits `contents` into its lines, each a view into `contents`.
pub fn split_lines<'a>(contents: &'a str) -> (r: Vec<&'a str>)
    ensures
        r.deep_view() == lines_of(contents@),
{
    let chars = chars_of(contents);
    let n = chars.len();
    let ghost s = contents@;
    let mut out: Vec<&'a str> = Vec::new();
    let mut start: usize = 0;
    let mut i: usize = 0;
    assert(s.skip(0) =~= s);
    while i < n
        invariant
            chars@ == s,
            s == contents@,
            n == s.len(),
            start <= i <= n,
            forall|j: int| start <= j < i ==> s[j] != '\n',
            out.deep_view() + lines_of(s.skip(start as int)) == lines_of(s),
        decreases n - i,
    {
        if chars[i] == '\n' {
            let end = if i > start && chars[i - 1] == '\r' {
                i - 1
            } else {
                i
            };
            proof {
                lemma_lines_step(s, start as int, i as int);
                assert(strip_cr(s.subrange(start as int, i as int)) =~= s.subrange(
                    start as int,
                    end as int,
                ));
            }
            let line = contents.substring_char(start, end);
            let ghost before = out.deep_view();
            out.push(line);
            assert(out.deep_view() =~= before.push(line@));
            assert(out.deep_view() + lines_of(s.skip(i + 1)) =~= before + lines_of(
                s.skip(start as int),
            ));
            start = i + 1;
        }
        i += 1;
    }
    proof {
        lemma_lines_last(s, start as int);
    }
    if start < n {
        let line = contents.substring_char(start, n);
        let ghost before = out.deep_view();
        out.push(line);
        assert(out.deep_view() =~= before.push(line@));
        assert(out.deep_view() =~= before + lines_of(s.skip(start as int)));
    } else {
        assert(out.deep_view() =~= out.deep_view() + lines_of(s.skip(start as int)));
    }
    out
}

/// The last character of the first line of `text`, if there is a first
/// line and it is not empty.
pub open spec fn last_of_first_line(text: Seq<char>) -> Option<char> {
    let lines = lines_of(text);
    if lines.len() == 0 || lines[0].len() == 0 {
        None
    } else {
        Some(lines[0].last())
    }
}

/// The last character of the first line of `text`; `None` when `text` has
/// no line or its first line is empty.
pub fn last_char_of_first_line(text: &str) -> (r: Option<char>)
    ensures
        r == last_of_first_line(text@),
{
    let lines = split_lines(text);
    if lines.len() == 0 {
        return None;
    }
    assert(lines.deep_view()[0] == lines@[0]@);
    let first = chars_of(lines[0]);
    if first.len() == 0 {
        None
    } else {
        Some(first[first.len() - 1])
    }
}

/// Byte index of the first space in `s`, or the byte length of `s` when it
/// has no space.
pub fn first_word(s: &String) -> (r: usize)
    ensures
        r <= encode_utf8(s@).len(),
        forall|j: int| 0 <= j < r ==> encode_utf8(s@)[j] != 32u8,
        r < encode_utf8(s@).len() ==> encode_utf8(s@)[r as int] == 32u8,
{
    let bytes = s.as_str().as_bytes();
    let mut i: usize = 0;
    while i < bytes.len()
        invariant
            bytes@ == encode_utf8(s@),
            i <= bytes@.len(),
            forall|j: int| 0 <= j < i ==> bytes@[j] != 32u8,
        decreases bytes.len() - i,
    {
        if bytes[i] == 32u8 {
            return i;
        }
        i += 1;
    }
    i
}

/// The first word of `s`: everything before its first space, or all of `s`
/// when it has no space.
pub fn first_word_through_slice(s: &String) -> (r: &str)
    ensures
        r@ == s@.take(r@.len() as int),
        forall|j: int| 0 <= j < r@.len() ==> r@[j] != ' ',
        r@.len() < s@.len() ==> s@[r@.len() as int] == ' ',
{
    let text = s.as_str();
    let chars = chars_of(text);
    let mut i: usize = 0;
    while i < chars.len() && chars[i] != ' '
        invariant
            chars@ == s@,
            i <= chars@.len(),
            forall|j: int| 0 <= j < i ==> chars@[j] != ' ',
        decreases chars.len() - i,
    {
        i += 1;
    }
    text.substring_char(0, i)
}

} // verus!
