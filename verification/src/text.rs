//! Characters and lines: what counts as white space, and what is left of a
//! line once the white space at its end is gone.
use vstd::prelude::*;

verus! {

/// White space as Unicode's `White_Space` property has it: the controls from
/// tab to carriage return, the space, next line, the no-break space and the
/// spaces and separators of the general punctuation and CJK blocks.
pub open spec fn is_whitespace(c: char) -> bool {
    ||| '\u{9}' <= c <= '\u{D}'
    ||| c == ' '
    ||| c == '\u{85}'
    ||| c == '\u{A0}'
    ||| c == '\u{1680}'
    ||| '\u{2000}' <= c <= '\u{200A}'
    ||| c == '\u{2028}'
    ||| c == '\u{2029}'
    ||| c == '\u{202F}'
    ||| c == '\u{205F}'
    ||| c == '\u{3000}'
}

/// `s` without the white space at its end: the longest prefix of `s` that is
/// empty or ends in a character that is no white space.
pub open spec fn trimmed(s: Seq<char>) -> Seq<char>
    decreases s.len(),
{
    if s.len() > 0 && is_whitespace(s.last()) {
        trimmed(s.drop_last())
    } else {
        s
    }
}

/// How many characters one read of a line takes from the front of `text`:
/// all up to the first line feed and that line feed too, or all of `text`
/// where it holds no line feed.
pub open spec fn line_len(text: Seq<char>) -> nat
    decreases text.len(),
{
    if text.len() == 0 {
        0
    } else if text[0] == '\n' {
        1
    } else {
        1 + line_len(text.drop_first())
    }
}

/// What one read of a line gives on `text`. It is empty only at the end of
/// the text.
pub open spec fn first_line(text: Seq<char>) -> Seq<char> {
    text.take(line_len(text) as int)
}

/// What is left of `text` after one read of a line.
pub open spec fn after_first_line(text: Seq<char>) -> Seq<char> {
    text.skip(line_len(text) as int)
}

/// A read takes at least one character from a text that has any, and never
/// more than there are.
pub proof fn lemma_line_len_bounds(text: Seq<char>)
    ensures
        line_len(text) <= text.len(),
        text.len() > 0 ==> line_len(text) >= 1,
    decreases text.len(),
{
    if text.len() > 0 && text[0] != '\n' {
        lemma_line_len_bounds(text.drop_first());
    }
}

/// Whether `c` is white space.
pub fn char_is_whitespace(c: char) -> (b: bool)
    ensures
        b == is_whitespace(c),
{
    ('\u{9}' <= c && c <= '\u{D}') || c == ' ' || c == '\u{85}' || c == '\u{A0}' || c
        == '\u{1680}' || ('\u{2000}' <= c && c <= '\u{200A}') || c == '\u{2028}' || c
        == '\u{2029}' || c == '\u{202F}' || c == '\u{205F}' || c == '\u{3000}'
}

/// The characters of `s`, in order.
pub fn chars_of(s: &str) -> (v: Vec<char>)
    ensures
        v@ == s@,
{
    let mut v: Vec<char> = Vec::new();
    for c in it: s.chars()
        invariant
            it.seq() == s@,
            v@ == it.seq().take(it.index()),
    {
        assert(it.seq().take(it.index() + 1) == it.seq().take(it.index()).push(c));
        v.push(c);
    }
    assert(s@.take(s@.len() as int) == s@);
    v
}

/// What remains of `s` after the white space at its end is taken off.
///
/// The work is linear in the length of `s`.
pub fn trim_end(s: &str) -> (t: &str)
    ensures
        t@ == trimmed(s@),
{
    let chars = chars_of(s);
    let mut end: usize = chars.len();
    assert(s@.take(end as int) == s@);
    while end > 0 && char_is_whitespace(chars[end - 1])
        invariant
            chars@ == s@,
            end <= chars.len(),
            trimmed(s@) == trimmed(s@.take(end as int)),
        decreases end,
    {
        assert(s@.take(end as int).drop_last() == s@.take(end as int - 1));
        end = end - 1;
    }
    s.substring_char(0, end)
}

/// Where the line that starts at `from` ends: the index just behind it.
pub(crate) fn line_end(chars: &Vec<char>, from: usize) -> (end: usize)
    requires
        from <= chars.len(),
    ensures
        end == from + line_len(chars@.skip(from as int)),
        from <= end <= chars.len(),
{
    let mut end: usize = from;
    while end < chars.len()
        invariant
            from <= end <= chars.len(),
            from + line_len(chars@.skip(from as int)) == end + line_len(chars@.skip(end as int)),
        decreases chars.len() - end,
    {
        assert(chars@.skip(end as int).drop_first() == chars@.skip(end + 1));
        assert(chars@.skip(end as int)[0] == chars[end as int]);
        if chars[end] == '\n' {
            return end + 1;
        }
        end = end + 1;
    }
    end
}

} // verus!
