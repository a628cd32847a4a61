//! Text helpers: characters, lines, joining and trimming.

use vstd::prelude::*;
use vstd::string::*;

verus! {

/// Whether a character is white space in the sense of Unicode.
pub uninterp spec fn is_white_space(c: char) -> bool;

/// `char::is_whitespace` of std: the answer depends on the character alone.
pub assume_specification[ char::is_whitespace ](c: char) -> (b: bool)
    ensures
        b == is_white_space(c),
;

/// The text without the white space at its start.
pub open spec fn skip_leading(s: Seq<char>) -> Seq<char>
    decreases s.len(),
{
    if s.len() > 0 && is_white_space(s[0]) {
        skip_leading(s.drop_first())
    } else {
        s
    }
}

/// The text without the white space at its end.
pub open spec fn skip_trailing(s: Seq<char>) -> Seq<char>
    decreases s.len(),
{
    if s.len() > 0 && is_white_space(s.last()) {
        skip_trailing(s.drop_last())
    } else {
        s
    }
}

/// The text without the white space at its start and at its end.
pub open spec fn trimmed(s: Seq<char>) -> Seq<char> {
    skip_trailing(skip_leading(s))
}

/// A text of white space only; the empty text is blank.
pub open spec fn is_blank(s: Seq<char>) -> bool {
    forall|i: int| 0 <= i < s.len() ==> is_white_space(#[trigger] s[i])
}

/// The text without the run of `c` at its end.
pub open spec fn without_trailing(s: Seq<char>, c: char) -> Seq<char>
    decreases s.len(),
{
    if s.len() > 0 && s.last() == c {
        without_trailing(s.drop_last(), c)
    } else {
        s
    }
}

/// The texts joined, with `sep` between each two neighbours.
pub open spec fn joined(parts: Seq<Seq<char>>, sep: Seq<char>) -> Seq<char>
    decreases parts.len(),
{
    if parts.len() == 0 {
        Seq::empty()
    } else if parts.len() == 1 {
        parts[0]
    } else {
        joined(parts.drop_last(), sep) + sep + parts.last()
    }
}

/// A line without the carriage return that may end it.
pub open spec fn without_carriage_return(line: Seq<char>) -> Seq<char> {
    if line.len() > 0 && line.last() == '\r' {
        line.drop_last()
    } else {
        line
    }
}

/// The position of the first `stop` in a text, or the length of the text
/// where it holds none.
pub open spec fn position_of(s: Seq<char>, stop: char) -> int
    decreases s.len(),
{
    if s.len() == 0 || s[0] == stop {
        0
    } else {
        1 + position_of(s.drop_first(), stop)
    }
}

/// The position found lies in the text or at its end, nothing before it is
/// `stop`, and what stands at it is.
pub proof fn lemma_position_of(s: Seq<char>, stop: char)
    ensures
        0 <= position_of(s, stop) <= s.len(),
        forall|i: int| 0 <= i < position_of(s, stop) ==> s[i] != stop,
        position_of(s, stop) < s.len() ==> s[position_of(s, stop)] == stop,
    decreases s.len(),
{
    if s.len() == 0 || s[0] == stop {
    } else {
        lemma_position_of(s.drop_first(), stop);
        assert forall|i: int| 0 <= i < position_of(s, stop) implies s[i] != stop by {
            if i > 0 {
                assert(s[i] == s.drop_first()[i - 1]);
            }
        }
    }
}

/// A position with `stop` at it and none before it is the position found.
pub proof fn lemma_position_of_is(s: Seq<char>, stop: char, at: int)
    requires
        0 <= at <= s.len(),
        forall|i: int| 0 <= i < at ==> s[i] != stop,
        at < s.len() ==> s[at] == stop,
    ensures
        position_of(s, stop) == at,
{
    lemma_position_of(s, stop);
    let found = position_of(s, stop);
    if found < at {
        assert(s[found] == stop);
    } else if found > at {
        assert(s[at] != stop);
    }
}

/// The lines of a text. A line ends at a line feed, or at a carriage return
/// followed by a line feed; the ending is not part of the line. The last line
/// needs no ending, and a text that ends with a line ending has no empty line
/// after it.
pub open spec fn text_lines(s: Seq<char>) -> Seq<Seq<char>>
    decreases s.len(),
{
    let at = position_of(s, '\n');
    if s.len() == 0 {
        Seq::empty()
    } else if 0 <= at < s.len() {
        seq![without_carriage_return(s.subrange(0, at))] + text_lines(
            s.subrange(at + 1, s.len() as int),
        )
    } else {
        seq![s]
    }
}

/// The characters of a text.
pub fn chars_of(s: &str) -> (chars: Vec<char>)
    ensures
        chars@ == s@,
{
    let mut chars: Vec<char> = Vec::new();
    for c in it: s.chars()
        invariant
            chars@ == it.seq().take(it.index() as int),
            it.seq() == s@,
    {
        chars.push(c);
        assert(it.seq().take(it.index() + 1) =~= it.seq().take(it.index() as int).push(c));
    }
    assert(s@.take(s@.len() as int) =~= s@);
    chars
}

/// `str::lines` of std, with each line copied into a `String`: the lines of
/// the text as std documents them, which `text_lines` writes down.
#[verifier::external_body]
pub(crate) fn split_lines(text: &str) -> (lines: Vec<String>)
    ensures
        lines.deep_view() == text_lines(text@),
{
    text.lines().map(|line| line.to_string()).collect()
}

/// Appends a text to a list of texts.
pub fn push_text(texts: &mut Vec<String>, text: String)
    ensures
        final(texts).deep_view() == old(texts).deep_view().push(text@),
{
    texts.push(text);
    assert(texts.deep_view() =~= old(texts).deep_view().push(text@));
}

/// Joins the texts, with `sep` between each two neighbours.
pub fn join(parts: &Vec<String>, sep: &str) -> (text: String)
    ensures
        text@ == joined(parts.deep_view(), sep@),
{
    let ghost all = parts.deep_view();
    let mut text = String::new();
    let mut i: usize = 0;
    assert(text@ =~= joined(all.take(0), sep@));
    while i < parts.len()
        invariant
            i <= parts.len(),
            all == parts.deep_view(),
            text@ == joined(all.take(i as int), sep@),
        decreases parts.len() - i,
    {
        proof {
            assert(all.take(i as int + 1).drop_last() =~= all.take(i as int));
            assert(all.take(i as int + 1).last() == parts[i as int]@);
            if i == 0 {
                assert(Seq::<char>::empty() + parts[i as int]@ =~= parts[i as int]@);
                assert(all.take(1)[0] == parts[0]@);
            }
        }
        if i > 0 {
            text.append(sep);
        }
        text.append(parts[i].as_str());
        i += 1;
    }
    assert(all.take(i as int) =~= all);
    text
}

/// What is left of a text when the run of `c` at its end is cut off: a prefix
/// whose last character, if it has one, is not `c`, followed in the text by
/// nothing but `c`.
pub proof fn lemma_without_trailing_is(s: Seq<char>, c: char, end: int)
    requires
        0 <= end <= s.len(),
        forall|k: int| end <= k < s.len() ==> s[k] == c,
        end == 0 || s[end - 1] != c,
    ensures
        without_trailing(s, c) == s.subrange(0, end),
    decreases s.len(),
{
    if end == s.len() {
        assert(s.subrange(0, end) =~= s);
    } else {
        assert(s.last() == c);
        lemma_without_trailing_is(s.drop_last(), c, end);
        assert(s.drop_last().subrange(0, end) =~= s.subrange(0, end));
    }
}

/// Cuts the run of `c` at the end of a text off.
pub fn strip_trailing(s: &str, c: char) -> (text: String)
    ensures
        text@ == without_trailing(s@, c),
{
    let chars = chars_of(s);
    let mut end: usize = chars.len();
    while end > 0 && chars[end - 1] == c
        invariant
            end <= chars.len(),
            forall|k: int| end <= k < chars.len() ==> chars[k] == c,
        decreases end,
    {
        end -= 1;
    }
    proof {
        lemma_without_trailing_is(s@, c, end as int);
    }
    s.substring_char(0, end).to_string()
}

/// Whether a text holds white space only.
pub fn blank(s: &str) -> (yes: bool)
    ensures
        yes == is_blank(s@),
{
    let chars = chars_of(s);
    let mut i: usize = 0;
    while i < chars.len()
        invariant
            i <= chars.len(),
            chars@ == s@,
            forall|k: int| 0 <= k < i ==> is_white_space(#[trigger] s@[k]),
        decreases chars.len() - i,
    {
        if !chars[i].is_whitespace() {
            assert(!is_white_space(s@[i as int]));
            return false;
        }
        i += 1;
    }
    true
}

/// The white space at the start of a text ends at `from`.
pub proof fn lemma_skip_leading_is(s: Seq<char>, from: int)
    requires
        0 <= from <= s.len(),
        forall|k: int| 0 <= k < from ==> is_white_space(#[trigger] s[k]),
        from == s.len() || !is_white_space(s[from]),
    ensures
        skip_leading(s) == s.subrange(from, s.len() as int),
    decreases s.len(),
{
    if from == 0 {
        assert(s.subrange(0, s.len() as int) =~= s);
    } else {
        assert(is_white_space(s[0]));
        let rest = s.drop_first();
        assert forall|k: int| 0 <= k < from - 1 implies is_white_space(#[trigger] rest[k]) by {
            assert(rest[k] == s[k + 1]);
        }
        lemma_skip_leading_is(rest, from - 1);
        assert(rest.subrange(from - 1, rest.len() as int) =~= s.subrange(from, s.len() as int));
    }
}

/// The white space at the end of a text starts at `to`.
pub proof fn lemma_skip_trailing_is(s: Seq<char>, to: int)
    requires
        0 <= to <= s.len(),
        forall|k: int| to <= k < s.len() ==> is_white_space(#[trigger] s[k]),
        to == 0 || !is_white_space(s[to - 1]),
    ensures
        skip_trailing(s) == s.subrange(0, to),
    decreases s.len(),
{
    if to == s.len() {
        assert(s.subrange(0, to) =~= s);
    } else {
        assert(is_white_space(s[s.len() - 1]));
        lemma_skip_trailing_is(s.drop_last(), to);
        assert(s.drop_last().subrange(0, to) =~= s.subrange(0, to));
    }
}

/// A text without white space in it but between its first and its last
/// character that is none; a blank text gives the empty text.
pub fn trim(s: &str) -> (text: String)
    ensures
        text@ == trimmed(s@),
        (text@.len() == 0) == is_blank(s@),
{
    let chars = chars_of(s);
    let n = chars.len();
    let mut from: usize = 0;
    while from < n && chars[from].is_whitespace()
        invariant
            from <= n,
            n == chars.len(),
            chars@ == s@,
            forall|k: int| 0 <= k < from ==> is_white_space(#[trigger] s@[k]),
        decreases n - from,
    {
        from += 1;
    }
    let mut to: usize = n;
    while to > from && chars[to - 1].is_whitespace()
        invariant
            from <= to <= n,
            n == chars.len(),
            chars@ == s@,
            forall|k: int| to <= k < n ==> is_white_space(#[trigger] s@[k]),
        decreases to,
    {
        to -= 1;
    }
    proof {
        let rest = s@.subrange(from as int, n as int);
        lemma_skip_leading_is(s@, from as int);
        assert forall|k: int| to - from <= k < rest.len() implies is_white_space(
            #[trigger] rest[k],
        ) by {
            assert(rest[k] == s@[k + from]);
        }
        if to > from {
            assert(rest[to - from - 1] == s@[to - 1]);
        }
        lemma_skip_trailing_is(rest, to - from);
        assert(rest.subrange(0, to - from) =~= s@.subrange(from as int, to as int));
        if to > from {
            assert(!is_white_space(s@[to - 1]));
        }
    }
    s.substring_char(from, to).to_string()
}

/// The text without the run of `c` at its start.
pub open spec fn without_leading(s: Seq<char>, c: char) -> Seq<char>
    decreases s.len(),
{
    if s.len() > 0 && s[0] == c {
        without_leading(s.drop_first(), c)
    } else {
        s
    }
}

/// `String::from_utf8` of std: bytes that are valid UTF-8 give the text that
/// they encode, and other bytes give nothing.
#[verifier::external_body]
pub(crate) fn decode(bytes: Vec<u8>) -> (text: Option<String>)
    ensures
        vstd::utf8::valid_utf8(bytes@) ==> text is Some && text->0@ == vstd::utf8::decode_utf8(
            bytes@,
        ),
        !vstd::utf8::valid_utf8(bytes@) ==> text is None,
{
    String::from_utf8(bytes).ok()
}

} // verus!
