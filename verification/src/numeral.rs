//! Decimal numerals: how a number is written out, and which texts are read
//! back as a number.
use crate::text::chars_of;
use vstd::prelude::*;

verus! {

/// Whether `c` is one of the ten ASCII digits.
pub open spec fn is_digit(c: char) -> bool {
    '0' <= c <= '9'
}

/// The number that the digit `c` stands for; 0 for any other character.
pub open spec fn digit_value(c: char) -> nat {
    if is_digit(c) {
        (c as u32 - '0' as u32) as nat
    } else {
        0
    }
}

/// The digit that stands for `d`, for `d` below ten.
pub open spec fn digit_char(d: nat) -> char
    recommends
        d < 10,
{
    (('0' as u32 + d) as u8) as char
}

/// `n` written in decimal, without sign and without leading zeros.
pub open spec fn decimal(n: nat) -> Seq<char>
    decreases n,
{
    if n < 10 {
        seq![digit_char(n)]
    } else {
        decimal(n / 10).push(digit_char(n % 10))
    }
}

/// Whether `s` is one digit or more, and nothing else.
pub open spec fn is_numeral(s: Seq<char>) -> bool {
    s.len() > 0 && forall|i: int| 0 <= i < s.len() ==> is_digit(#[trigger] s[i])
}

/// The number that the digits of `s` spell, read as decimal.
pub open spec fn numeral_value(s: Seq<char>) -> nat
    decreases s.len(),
{
    if s.len() == 0 {
        0
    } else {
        10 * numeral_value(s.drop_last()) + digit_value(s.last())
    }
}

/// `s` without a plus sign at its front.
pub open spec fn unsigned(s: Seq<char>) -> Seq<char> {
    if s.len() > 0 && s[0] == '+' {
        s.drop_first()
    } else {
        s
    }
}

/// The number that `s` is read as: `s` is an optional `+` followed by one
/// digit or more, with nothing before, between or after. Leading zeros are
/// read and add nothing. Any other text is no number.
pub open spec fn parsed(s: Seq<char>) -> Option<nat> {
    if is_numeral(unsigned(s)) {
        Some(numeral_value(unsigned(s)))
    } else {
        None
    }
}

/// Reading more digits never gives a smaller number.
pub proof fn lemma_value_of_prefix(s: Seq<char>, i: int)
    requires
        0 <= i <= s.len(),
    ensures
        numeral_value(s.take(i)) <= numeral_value(s),
    decreases s.len(),
{
    if i == s.len() {
        assert(s.take(i) == s);
    } else {
        assert(s.drop_last().take(i) == s.take(i));
        lemma_value_of_prefix(s.drop_last(), i);
    }
}

/// A number written out is a numeral, and reads back as the same number.
pub proof fn lemma_decimal_reads_back(n: nat)
    ensures
        is_numeral(decimal(n)),
        numeral_value(decimal(n)) == n,
        parsed(decimal(n)) == Some(n),
    decreases n,
{
    if n < 10 {
        assert(decimal(n).drop_last() == Seq::<char>::empty());
        assert(numeral_value(decimal(n).drop_last()) == 0);
    } else {
        lemma_decimal_reads_back(n / 10);
        assert(decimal(n).drop_last() == decimal(n / 10));
    }
    assert(is_digit(decimal(n)[0]));
}

/// The one-character text for the digit `d`.
fn digit_text(d: usize) -> (t: &'static str)
    requires
        d < 10,
    ensures
        t@ == seq![digit_char(d as nat)],
{
    proof {
        reveal_strlit("0");
        reveal_strlit("1");
        reveal_strlit("2");
        reveal_strlit("3");
        reveal_strlit("4");
        reveal_strlit("5");
        reveal_strlit("6");
        reveal_strlit("7");
        reveal_strlit("8");
        reveal_strlit("9");
    }
    let t = match d {
        0 => "0",
        1 => "1",
        2 => "2",
        3 => "3",
        4 => "4",
        5 => "5",
        6 => "6",
        7 => "7",
        8 => "8",
        _ => "9",
    };
    assert(t@ =~= seq![digit_char(d as nat)]);
    t
}

/// `n` written in decimal.
pub fn to_decimal(n: usize) -> (text: String)
    ensures
        text@ == decimal(n as nat),
    decreases n,
{
    if n < 10 {
        digit_text(n).to_owned()
    } else {
        let mut text = to_decimal(n / 10);
        text.append(digit_text(n % 10));
        assert(text@ =~= decimal(n as nat));
        text
    }
}

/// Reads `s` as a number no greater than `max`.
///
/// Gives the number if `s` is read as one and it is at most `max`, and
/// `None` for every other text.
pub fn parse_at_most(s: &str, max: usize) -> (r: Option<usize>)
    ensures
        r is Some <==> (parsed(s@) matches Some(v) && v <= max),
        r matches Some(v) ==> parsed(s@) == Some(v as nat),
{
    let chars = chars_of(s);
    let len = chars.len();
    let start: usize = if len > 0 && chars[0] == '+' { 1 } else { 0 };
    if start == len {
        return None;
    }
    let ghost body = unsigned(s@);
    assert(body == s@.subrange(start as int, len as int));
    let mut value: usize = 0;
    let mut i: usize = start;
    while i < len
        invariant
            chars@ == s@,
            len == chars.len(),
            start <= i <= len,
            start < len,
            body == unsigned(s@),
            body.len() == len - start,
            forall|j: int| 0 <= j < i - start ==> is_digit(#[trigger] body[j]),
            value == numeral_value(body.take(i - start)),
            value <= max,
        decreases len - i,
    {
        let c = chars[i];
        if !('0' <= c && c <= '9') {
            assert(body[i - start] == c);
            return None;
        }
        let d: usize = (c as u32 - '0' as u32) as usize;
        proof {
            let longer = body.take(i - start + 1);
            assert(longer.drop_last() == body.take(i - start));
            assert(longer.last() == c);
            assert(numeral_value(longer) == 10 * value + d);
            lemma_value_of_prefix(body, i - start + 1);
        }
        if d > max || value > (max - d) / 10 {
            return None;
        }
        value = value * 10 + d;
        i = i + 1;
    }
    assert(body.take(len - start) == body);
    Some(value)
}


} // verus!
