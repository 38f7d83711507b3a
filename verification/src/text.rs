//! Decimal numbers and quoted words, as they appear on the console.

use vstd::prelude::*;

verus! {

/// The decimal digit that stands for `d`.
pub open spec fn decimal_digit(d: int) -> char
    recommends
        0 <= d < 10,
{
    (48 + d) as char
}

/// `n` in decimal, without leading zeros.
pub open spec fn decimal(n: nat) -> Seq<char>
    decreases n,
{
    if n < 10 {
        seq![decimal_digit(n as int)]
    } else {
        decimal(n / 10).push(decimal_digit((n % 10) as int))
    }
}

/// A word between double quotes.
pub open spec fn quoted(word: Seq<char>) -> Seq<char> {
    seq!['"'] + word + seq!['"']
}

fn digit_str(d: u64) -> (s: &'static str)
    requires
        d < 10,
    ensures
        s@ == seq![decimal_digit(d as int)],
{
    proof {
        reveal_strlit("0");
        reveal_strlit("1");
        reveal_strlit("2");
        reveal_strlit("3");
        reveal_strlit("4");
        reveal_strlit("5");
        reveal_strlit("6");
        reveal_strlit("7");
        reveal_strlit("8");
        reveal_strlit("9");
    }
    if d == 0 {
        "0"
    } else if d == 1 {
        "1"
    } else if d == 2 {
        "2"
    } else if d == 3 {
        "3"
    } else if d == 4 {
        "4"
    } else if d == 5 {
        "5"
    } else if d == 6 {
        "6"
    } else if d == 7 {
        "7"
    } else if d == 8 {
        "8"
    } else {
        "9"
    }
}

/// Writes `n` in decimal.
pub fn decimal_str(n: u64) -> (s: String)
    ensures
        s@ == decimal(n as nat),
    decreases n,
{
    if n < 10 {
        digit_str(n).to_owned()
    } else {
        let mut s = decimal_str(n / 10);
        s.append(digit_str(n % 10));
        s
    }
}

/// Puts `word` between double quotes.
pub fn quoted_str(word: &str) -> (s: String)
    ensures
        s@ == quoted(word@),
{
    proof {
        reveal_strlit("\"");
    }
    let mut s = "\"".to_owned();
    s.append(word);
    s.append("\"");
    s
}

/// The number that a run of decimal digits stands for.
pub open spec fn decimal_value(digits: Seq<char>) -> int
    decreases digits.len(),
{
    if digits.len() == 0 {
        0
    } else {
        decimal_value(digits.drop_last()) * 10 + (digits.last() as int - 48)
    }
}

/// A text of decimal digits, of which there is at least one.
pub open spec fn is_decimal(text: Seq<char>) -> bool {
    text.len() > 0 && forall|i: int| 0 <= i < text.len() ==> '0' <= #[trigger] text[i] <= '9'
}

/// Reading the digits of a number gives the number back, so two numbers with the
/// same digits are the same number.
pub proof fn decimal_reads_back(n: nat)
    ensures
        decimal_value(decimal(n)) == n,
    decreases n,
{
    reveal_with_fuel(decimal_value, 2);
    if n < 10 {
        assert(decimal(n).drop_last() =~= Seq::empty());
    } else {
        decimal_reads_back(n / 10);
        assert(decimal(n).drop_last() =~= decimal(n / 10));
    }
}

/// A number is written in decimal digits.
pub proof fn decimal_has_digits(n: nat)
    ensures
        is_decimal(decimal(n)),
    decreases n,
{
    if n >= 10 {
        decimal_has_digits(n / 10);
    }
}

/// Putting a digit behind a run of digits multiplies what they stand for by ten and adds the
/// digit. No digits stand for nothing.
pub proof fn digits_have_places(digits: Seq<char>, d: int)
    requires
        0 <= d < 10,
    ensures
        decimal_value(Seq::empty()) == 0,
        decimal_value(digits.push("0123456789"@[d])) == 10 * decimal_value(digits) + d,
{
    reveal_strlit("0123456789");
    assert(digits.push("0123456789"@[d]).drop_last() =~= digits);
}

/// No run of digits stands for less than nothing.
pub proof fn digits_are_not_negative(digits: Seq<char>)
    requires
        forall|i: int| 0 <= i < digits.len() ==> '0' <= #[trigger] digits[i] <= '9',
    ensures
        decimal_value(digits) >= 0,
    decreases digits.len(),
{
    if digits.len() > 0 {
        let front = digits.drop_last();
        assert forall|i: int| 0 <= i < front.len() implies '0' <= #[trigger] front[i] <= '9' by {
            assert(front[i] == digits[i]);
        }
        digits_are_not_negative(front);
    }
}

/// The decimal digits are those from `0` to `9`.
pub proof fn decimal_has_ten_digits(text: Seq<char>)
    ensures
        is_decimal(text) <==> text.len() > 0 && forall|i: int|
            0 <= i < text.len() ==> "0123456789"@.contains(#[trigger] text[i]),
{
    reveal_strlit("0123456789");
    let all = "0123456789"@;
    assert forall|c: char| '0' <= c <= '9' implies #[trigger] all.contains(c) by {
        assert(all[c as int - 48] == c);
    }
    assert forall|c: char| #[trigger] all.contains(c) implies '0' <= c <= '9' by {}
    if text.len() > 0 && forall|i: int| 0 <= i < text.len() ==> all.contains(#[trigger] text[i]) {
        assert forall|i: int| 0 <= i < text.len() implies '0' <= #[trigger] text[i] <= '9' by {
            assert(all.contains(text[i]));
        }
    }
}

/// No number is written with a zero in front, but for zero itself, which is a single one.
pub proof fn decimal_has_no_leading_zero(n: nat)
    ensures
        n == 0 ==> decimal(n) == seq!['0'],
        n > 0 ==> decimal(n)[0] != '0',
    decreases n,
{
    if n >= 10 {
        decimal_has_no_leading_zero(n / 10);
        decimal_has_digits(n / 10);
    }
}

/// A quoted word is the word, with a double quote on either side and nothing more.
pub proof fn quotes_surround_the_word(word: Seq<char>)
    ensures
        quoted(word).len() == word.len() + 2,
        quoted(word).first() == '"',
        quoted(word).last() == '"',
        quoted(word).subrange(1, 1 + word.len() as int) == word,
{
}

} // verus!
