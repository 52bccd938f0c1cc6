//! Unsigned decimal text: the representation of IDs in strings.

use vstd::prelude::*;

verus! {

/// The character of a decimal digit.
pub open spec fn digit_char(digit: nat) -> char {
    (48 + digit) as char
}

/// Whether `c` is one of the ASCII decimal digits.
pub open spec fn is_digit_char(c: char) -> bool {
    '0' <= c <= '9'
}

/// The decimal text of `value`: its digits, most significant first, without
/// sign or leading zeros.
pub open spec fn decimal_text(value: nat) -> Seq<char>
    decreases value,
{
    if value < 10 {
        seq![digit_char(value)]
    } else {
        decimal_text(value / 10).push(digit_char(value % 10))
    }
}

/// The number that a string of decimal digits denotes.
pub open spec fn digits_value(digits: Seq<char>) -> nat
    decreases digits.len(),
{
    if digits.len() == 0 {
        0
    } else {
        digits_value(digits.drop_last()) * 10 + ((digits.last() as nat) - 48) as nat
    }
}

/// The digits of `text`: the text after a leading `+`, or the whole text
/// when it has none.
pub open spec fn unsigned_digits(text: Seq<char>) -> Seq<char> {
    if text.len() > 0 && text[0] == '+' {
        text.drop_first()
    } else {
        text
    }
}

/// Whether every character of `digits` is an ASCII decimal digit.
pub open spec fn all_digits(digits: Seq<char>) -> bool {
    forall|i: int| 0 <= i < digits.len() ==> is_digit_char(#[trigger] digits[i])
}

/// The `u64` that `text` denotes as unsigned decimal text: an optional `+`
/// followed by at least one ASCII digit and nothing else, of a value that
/// fits; `None` for any other text.
pub open spec fn parsed_u64(text: Seq<char>) -> Option<u64> {
    let digits = unsigned_digits(text);
    if digits.len() > 0 && all_digits(digits) && digits_value(digits) <= u64::MAX {
        Some(digits_value(digits) as u64)
    } else {
        None
    }
}

/// Appends one character to a string: `String::push`, which the standard
/// library documents as appending the given char to the end of the string.
#[verifier::external_body]
fn push_char(text: &mut String, c: char)
    ensures
        final(text)@ == old(text)@.push(c),
{
    text.push(c);
}

/// Parses unsigned decimal text: `<u64 as FromStr>::from_str`. Its
/// documentation expects an optional `+` sign followed by only digits, and
/// reports any other character, an empty digit string, or a value above
/// `u64::MAX` as an error; the claim is that it returns `Ok` exactly for
/// the texts of [`parsed_u64`], with that value.
#[verifier::external_body]
pub(crate) fn parse_u64(text: &str) -> (value: Result<u64, core::num::ParseIntError>)
    ensures
        value is Ok <==> parsed_u64(text@) is Some,
        value matches Ok(v) ==> parsed_u64(text@) == Some(v),
{
    text.parse::<u64>()
}

/// The decimal text of a digit below ten.
fn digit(value: u64) -> (c: char)
    requires
        value < 10,
    ensures
        c == digit_char(value as nat),
{
    match value {
        0 => '0',
        1 => '1',
        2 => '2',
        3 => '3',
        4 => '4',
        5 => '5',
        6 => '6',
        7 => '7',
        8 => '8',
        _ => '9',
    }
}

/// Formats `value` as unsigned decimal text.
pub fn u64_to_decimal(value: u64) -> (text: String)
    ensures
        text@ == decimal_text(value as nat),
        value > 0 ==> text@[0] != '0',
    decreases value,
{
    proof {
        lemma_decimal_text_canonical(value as nat);
    }
    if value < 10 {
        let mut text = String::new();
        push_char(&mut text, digit(value));
        text
    } else {
        let mut text = u64_to_decimal(value / 10);
        push_char(&mut text, digit(value % 10));
        text
    }
}

/// Decimal text consists of digits only.
pub proof fn lemma_decimal_text_digits(value: nat)
    ensures
        decimal_text(value).len() > 0,
        forall|i: int| 0 <= i < decimal_text(value).len() ==> is_digit_char(
            #[trigger] decimal_text(value)[i],
        ),
    decreases value,
{
    if value >= 10 {
        lemma_decimal_text_digits(value / 10);
        let prefix = decimal_text(value / 10);
        assert forall|i: int| 0 <= i < decimal_text(value).len() implies is_digit_char(
            #[trigger] decimal_text(value)[i],
        ) by {
            if i < prefix.len() {
                assert(decimal_text(value)[i] == prefix[i]);
            }
        }
    }
}

/// Reading decimal text gives the number back.
pub proof fn lemma_decimal_text_value(value: nat)
    ensures
        digits_value(decimal_text(value)) == value,
    decreases value,
{
    if value >= 10 {
        lemma_decimal_text_value(value / 10);
        let text = decimal_text(value);
        assert(text.drop_last() =~= decimal_text(value / 10));
        assert(text.last() == digit_char(value % 10));
        assert((digit_char(value % 10) as nat) == 48 + value % 10);
    } else {
        assert((digit_char(value) as nat) == 48 + value);
        let text = decimal_text(value);
        assert(text.drop_last() =~= Seq::<char>::empty());
        assert(digits_value(text.drop_last()) == 0);
        assert(text.last() == digit_char(value));
    }
}

/// Decimal text is the shortest decimal representation: one or more ASCII
/// digits that read back as the value, with no leading zero except in the
/// text of zero itself, which is the single digit `0`.
pub proof fn lemma_decimal_text_canonical(value: nat)
    ensures
        decimal_text(value).len() > 0,
        forall|i: int| 0 <= i < decimal_text(value).len() ==> is_digit_char(
            #[trigger] decimal_text(value)[i],
        ),
        digits_value(decimal_text(value)) == value,
        value > 0 ==> decimal_text(value)[0] != '0',
        value == 0 ==> decimal_text(value) == seq!['0'],
    decreases value,
{
    lemma_decimal_text_digits(value);
    lemma_decimal_text_value(value);
    if value >= 10 {
        lemma_decimal_text_canonical(value / 10);
        let prefix = decimal_text(value / 10);
        assert(decimal_text(value)[0] == prefix[0]);
    } else {
        assert(decimal_text(value) =~= seq![digit_char(value)]);
        assert((digit_char(value) as nat) == 48 + value);
    }
}

/// Parsing the decimal text of a `u64` gives the number back.
pub proof fn lemma_parse_decimal_text(value: u64)
    ensures
        parsed_u64(decimal_text(value as nat)) == Some(value),
{
    lemma_decimal_text_digits(value as nat);
    lemma_decimal_text_value(value as nat);
    let text = decimal_text(value as nat);
    assert(text[0] != '+');
}

} // verus!
