//! Decimal integers in text: an optional sign, then one or more digits.

use crate::text::chars_of;
use vstd::prelude::*;
use vstd::string::StringExecFns;

verus! {

/// Whether a character is one of `0` to `9`.
pub open spec fn is_digit(c: char) -> bool {
    '0' <= c <= '9'
}

/// The number that a digit stands for.
pub open spec fn digit_value(c: char) -> int {
    c as int - '0' as int
}

/// Whether every character is a digit.
pub open spec fn all_digits(s: Seq<char>) -> bool {
    forall|i: int| 0 <= i < s.len() ==> is_digit(#[trigger] s[i])
}

/// The number written by a sequence of digits, most significant first.
pub open spec fn digits_value(s: Seq<char>) -> int
    decreases s.len(),
{
    if s.len() == 0 {
        0
    } else {
        digits_value(s.drop_last()) * 10 + digit_value(s.last())
    }
}

/// Whether the text begins with a sign.
pub open spec fn has_sign(s: Seq<char>) -> bool {
    s.len() > 0 && (s[0] == '-' || s[0] == '+')
}

/// The digits of a text, after its sign if it has one.
pub open spec fn unsigned_part(s: Seq<char>) -> Seq<char> {
    if has_sign(s) {
        s.drop_first()
    } else {
        s
    }
}

/// The integer that a text writes in decimal, if it writes one: an optional
/// `+` or `-`, then at least one digit, and nothing else.
pub open spec fn decimal_value(s: Seq<char>) -> Option<int> {
    let digits = unsigned_part(s);
    if digits.len() == 0 || !all_digits(digits) {
        None
    } else if has_sign(s) && s[0] == '-' {
        Some(-digits_value(digits))
    } else {
        Some(digits_value(digits))
    }
}

/// The integer that a text writes in decimal, if it writes one that fits 64
/// bits with sign.
pub open spec fn decimal_i64(s: Seq<char>) -> Option<i64> {
    match decimal_value(s) {
        Some(value) => if i64::MIN <= value <= i64::MAX {
            Some(value as i64)
        } else {
            None
        },
        None => None,
    }
}

/// Reads a 64-bit integer from its decimal text. Leading zeros are accepted;
/// spaces, separators and an empty text are not.
pub fn parse_i64(text: &str) -> (value: Option<i64>)
    ensures
        value == decimal_i64(text@),
{
    let chars = chars_of(text);
    let signed = chars.len() > 0 && (chars[0] == '-' || chars[0] == '+');
    let negative = signed && chars[0] == '-';
    let start: usize = if signed {
        1
    } else {
        0
    };
    if chars.len() == start {
        return None;
    }
    let ghost digits = unsigned_part(text@);
    assert(digits =~= chars@.skip(start as int));
    // Magnitudes up to 2^63 are tracked exactly; `exceeded` stands for all larger ones.
    let limit: u128 = 9_223_372_036_854_775_808;
    let mut magnitude: u128 = 0;
    let mut exceeded = false;
    let mut i: usize = start;
    assert(digits.take(0) =~= Seq::<char>::empty());
    while i < chars.len()
        invariant
            start <= i <= chars.len(),
            chars@ == text@,
            digits == unsigned_part(text@),
            digits == chars@.skip(start as int),
            limit == 9_223_372_036_854_775_808,
            all_digits(digits.take(i - start)),
            !exceeded ==> magnitude == digits_value(digits.take(i - start)) && magnitude <= limit,
            exceeded ==> digits_value(digits.take(i - start)) > limit,
        decreases chars.len() - i,
    {
        let c = chars[i];
        let ghost before = digits.take(i - start);
        let ghost after = digits.take(i - start + 1);
        assert(after.drop_last() =~= before);
        assert(after.last() == c);
        if !(c >= '0' && c <= '9') {
            assert(!is_digit(digits[i - start]));
            return None;
        }
        let d: u128 = (c as u32 - '0' as u32) as u128;
        if !exceeded {
            magnitude = magnitude * 10 + d;
            if magnitude > limit {
                exceeded = true;
            }
        }
        i += 1;
    }
    assert(digits.take(i - start) =~= digits);
    if exceeded {
        None
    } else if negative {
        if magnitude == limit {
            Some(i64::MIN)
        } else {
            Some(-(magnitude as i64))
        }
    } else if magnitude == limit {
        None
    } else {
        Some(magnitude as i64)
    }
}

/// The digit that stands for a number from 0 to 9.
pub open spec fn digit_char(d: int) -> char {
    if d == 0 {
        '0'
    } else if d == 1 {
        '1'
    } else if d == 2 {
        '2'
    } else if d == 3 {
        '3'
    } else if d == 4 {
        '4'
    } else if d == 5 {
        '5'
    } else if d == 6 {
        '6'
    } else if d == 7 {
        '7'
    } else if d == 8 {
        '8'
    } else {
        '9'
    }
}

/// The decimal text of a natural number, without leading zeros.
pub open spec fn natural_text(n: nat) -> Seq<char>
    decreases n,
{
    if n < 10 {
        seq![digit_char(n as int)]
    } else {
        natural_text(n / 10).push(digit_char((n % 10) as int))
    }
}

/// The decimal text of an integer: a `-` before negative numbers, no sign
/// before the others.
pub open spec fn decimal_text(n: int) -> Seq<char> {
    if n < 0 {
        seq!['-'] + natural_text((-n) as nat)
    } else {
        natural_text(n as nat)
    }
}

/// The text of a natural number is made of digits and writes that number.
pub proof fn natural_text_reads_back(n: nat)
    ensures
        natural_text(n).len() > 0,
        all_digits(natural_text(n)),
        digits_value(natural_text(n)) == n,
    decreases n,
{
    if n < 10 {
        let text = natural_text(n);
        assert(text.drop_last() =~= Seq::<char>::empty());
        assert(digits_value(text.drop_last()) == 0);
    } else {
        natural_text_reads_back(n / 10);
        let text = natural_text(n);
        assert(text.drop_last() =~= natural_text(n / 10));
    }
}

/// Writing an integer and reading the text gives the integer back.
pub proof fn decimal_text_reads_back(n: int)
    ensures
        decimal_value(decimal_text(n)) == Some(n),
{
    let text = decimal_text(n);
    if n < 0 {
        natural_text_reads_back((-n) as nat);
        assert(text.drop_first() =~= natural_text((-n) as nat));
    } else {
        natural_text_reads_back(n as nat);
        assert(is_digit(text[0]));
    }
}

/// The text of one digit.
fn digit_text(d: u8) -> (text: &'static str)
    requires
        d < 10,
    ensures
        text@ == seq![digit_char(d as int)],
{
    proof {
        reveal_strlit("0");
        reveal_strlit("1");
        reveal_strlit("2");
        reveal_strlit("3");
        reveal_strlit("4");
        reveal_strlit("5");
        reveal_strlit("6");
        reveal_strlit("7");
        reveal_strlit("8");
        reveal_strlit("9");
    }
    let text = if d == 0 {
        "0"
    } else if d == 1 {
        "1"
    } else if d == 2 {
        "2"
    } else if d == 3 {
        "3"
    } else if d == 4 {
        "4"
    } else if d == 5 {
        "5"
    } else if d == 6 {
        "6"
    } else if d == 7 {
        "7"
    } else if d == 8 {
        "8"
    } else {
        "9"
    };
    assert(text@ =~= seq![digit_char(d as int)]);
    text
}

/// Writes a natural number behind `prefix`.
fn write_natural(prefix: String, n: u64) -> (text: String)
    ensures
        text@ == prefix@ + natural_text(n as nat),
    decreases n,
{
    if n < 10 {
        let text = prefix.concat(digit_text(n as u8));
        assert(text@ =~= prefix@ + natural_text(n as nat));
        text
    } else {
        let ghost start = prefix@;
        let text = write_natural(prefix, n / 10).concat(digit_text((n % 10) as u8));
        assert(text@ =~= start + natural_text(n as nat));
        text
    }
}

/// Writes a 64-bit integer in decimal.
pub fn format_i64(n: i64) -> (text: String)
    ensures
        text@ == decimal_text(n as int),
        decimal_i64(text@) == Some(n),
{
    proof {
        decimal_text_reads_back(n as int);
        reveal_strlit("-");
    }
    if n < 0 {
        let magnitude: u64 = if n == i64::MIN {
            9_223_372_036_854_775_808
        } else {
            (-n) as u64
        };
        let text = write_natural(String::from_str("-"), magnitude);
        assert(text@ =~= decimal_text(n as int));
        text
    } else {
        let text = write_natural(String::new(), n as u64);
        assert(text@ =~= decimal_text(n as int));
        text
    }
}

} // verus!
