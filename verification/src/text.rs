//! Reading the text values that the pages' form controls hand back.
use vstd::prelude::*;
use vstd::string::StrSliceExecFns;

verus! {

/// Whether two strings hold the same characters.
pub fn same_text(left: &str, right: &str) -> (same: bool)
    ensures
        same == (left@ == right@),
{
    let n = left.unicode_len();
    if n != right.unicode_len() {
        return false;
    }
    let mut i: usize = 0;
    while i < n
        invariant
            n == left@.len(),
            n == right@.len(),
            i <= n,
            forall|j: int| 0 <= j < i ==> left@[j] == right@[j],
        decreases n - i,
    {
        if left.get_char(i) != right.get_char(i) {
            return false;
        }
        i = i + 1;
    }
    assert(left@ =~= right@);
    true
}

/// Whether `c` is one of the decimal digits `0` to `9`.
pub open spec fn is_decimal_digit(c: char) -> bool {
    '0' <= c && c <= '9'
}

/// The value of a run of decimal digits, most significant first; 0 for no digits.
pub open spec fn decimal_value(digits: Seq<char>) -> int
    decreases digits.len(),
{
    if digits.len() == 0 {
        0
    } else {
        decimal_value(digits.drop_last()) * 10 + (digits.last() as int - '0' as int)
    }
}

/// Whether every character of `digits` is a decimal digit.
pub open spec fn all_decimal_digits(digits: Seq<char>) -> bool {
    forall|i: int| 0 <= i < digits.len() ==> is_decimal_digit(#[trigger] digits[i])
}

/// The text after an optional leading `+`.
pub open spec fn unsigned_digits(text: Seq<char>) -> Seq<char> {
    if text.len() > 0 && text[0] == '+' {
        text.drop_first()
    } else {
        text
    }
}

/// The number an unsigned integer text stands for, if it is at most `max`: an optional
/// `+` followed by one or more decimal digits and nothing else.
pub open spec fn spec_parse_unsigned(text: Seq<char>, max: int) -> Option<int> {
    let digits = unsigned_digits(text);
    if digits.len() > 0 && all_decimal_digits(digits) && decimal_value(digits) <= max {
        Some(decimal_value(digits))
    } else {
        None
    }
}

/// What `str::parse::<u8>` gives back for a text, `None` standing for its error.
pub open spec fn spec_parse_u8(text: Seq<char>) -> Option<u8> {
    match spec_parse_unsigned(text, u8::MAX as int) {
        Some(value) => Some(value as u8),
        None => None,
    }
}

/// What `str::parse::<usize>` gives back for a text, `None` standing for its error.
pub open spec fn spec_parse_usize(text: Seq<char>) -> Option<usize> {
    match spec_parse_unsigned(text, usize::MAX as int) {
        Some(value) => Some(value as usize),
        None => None,
    }
}

/// Calls `str::parse::<u8>` (std's `FromStr` for `u8`, decimal `from_str_radix`) and drops
/// its error value. The contract claims what std documents: the text must be an optional
/// `+` followed by only decimal digits, and a value past `u8::MAX` is an error.
#[verifier::external_body]
pub(crate) fn parse_u8(text: &str) -> (parsed: Option<u8>)
    ensures
        parsed == spec_parse_u8(text@),
{
    text.parse::<u8>().ok()
}

/// Calls `str::parse::<usize>` (std's `FromStr` for `usize`, decimal `from_str_radix`) and
/// drops its error value. The contract claims what std documents: the text must be an
/// optional `+` followed by only decimal digits, and a value past `usize::MAX` is an error.
#[verifier::external_body]
pub(crate) fn parse_usize(text: &str) -> (parsed: Option<usize>)
    ensures
        parsed == spec_parse_usize(text@),
{
    text.parse::<usize>().ok()
}

} // verus!

verus! {

/// Appending a digit to a run of digits multiplies its value by ten and adds the digit,
/// so the value of a run is its ordinary decimal reading; a run of digits has a
/// non-negative value.
pub proof fn lemma_decimal_value_appends(digits: Seq<char>, last: char)
    requires
        is_decimal_digit(last),
    ensures
        decimal_value(digits.push(last)) == 10 * decimal_value(digits) + (last as int - '0' as int),
        0 <= last as int - '0' as int <= 9,
{
    assert(digits.push(last).drop_last() =~= digits);
}

/// A lone digit, with or without a leading `+`, reads as its own value, and a text that
/// is empty, a lone `+`, or starts with `-` reads as no number.
pub proof fn lemma_parse_short_texts(digit: char, rest: Seq<char>)
    requires
        is_decimal_digit(digit),
    ensures
        spec_parse_unsigned(seq![digit], 255) == Some(digit as int - '0' as int),
        spec_parse_unsigned(seq!['+', digit], 255) == Some(digit as int - '0' as int),
        spec_parse_unsigned(Seq::<char>::empty(), 255) is None,
        spec_parse_unsigned(seq!['+'], 255) is None,
        spec_parse_unsigned(seq!['-'] + rest, 255) is None,
{
    assert(seq![digit].drop_last() =~= Seq::<char>::empty());
    assert(seq!['+', digit].drop_first() =~= seq![digit]);
    assert(seq!['+'].drop_first() =~= Seq::<char>::empty());
    let negative = seq!['-'] + rest;
    assert(negative[0] == '-');
    assert(negative.len() > 0 && negative[0] != '+');
    assert(!is_decimal_digit(negative[0]));
    assert(unsigned_digits(negative) == negative);
}

} // verus!
