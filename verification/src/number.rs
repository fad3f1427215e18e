//! Unsigned decimal numbers: reading one from text, and writing one out.

use crate::text::chars_of;
use vstd::prelude::*;
use vstd::string::StrSliceExecFns;
use vstd::string::StringExecFns;

verus! {

/// Why a text is not the decimal form of a `u32`.
#[derive(Clone, Copy, Debug, PartialEq, Eq, Structural)]
pub enum ParseError {
    /// The text is empty.
    Empty,
    /// A character is not a decimal digit, or a sign stands alone.
    InvalidDigit,
    /// The digits read so far already exceed `u32::MAX`.
    Overflow,
}

impl ParseError {
    /// The line that describes each error to a reader.
    pub open spec fn message_of(self) -> Seq<char> {
        match self {
            ParseError::Empty => "cannot parse integer from empty string"@,
            ParseError::InvalidDigit => "invalid digit found in string"@,
            ParseError::Overflow => "number too large to fit in target type"@,
        }
    }

    /// The line that describes the error to a reader.
    pub fn message(&self) -> (s: String)
        ensures
            s@ == self.message_of(),
    {
        match self {
            ParseError::Empty => String::from_str("cannot parse integer from empty string"),
            ParseError::InvalidDigit => String::from_str("invalid digit found in string"),
            ParseError::Overflow => String::from_str("number too large to fit in target type"),
        }
    }
}

/// Whether `c` is one of the digits `0` to `9`.
pub open spec fn is_digit(c: char) -> bool {
    0x30 <= c as u32 <= 0x39
}

/// The number that the digit `c` stands for.
pub open spec fn digit_value(c: char) -> nat
    recommends
        is_digit(c),
{
    (c as u32 - 0x30) as nat
}

/// The digit that stands for `d`.
pub open spec fn digit_char(d: nat) -> char
    recommends
        d < 10,
{
    (0x30 + d) as u8 as char
}

/// How many decimal digits `s` begins with.
pub open spec fn leading_digits(s: Seq<char>) -> nat
    decreases s.len(),
{
    if s.len() > 0 && is_digit(s.first()) {
        1 + leading_digits(s.drop_first())
    } else {
        0
    }
}

/// The number that a string of digits stands for, the first digit counting
/// most.
pub open spec fn decimal_value(s: Seq<char>) -> nat
    decreases s.len(),
{
    if s.len() == 0 {
        0
    } else {
        10 * decimal_value(s.drop_last()) + digit_value(s.last())
    }
}

/// `s` without the one plus sign that may stand before the digits.
pub open spec fn unsigned(s: Seq<char>) -> Seq<char> {
    if s.len() > 0 && s.first() == '+' {
        s.drop_first()
    } else {
        s
    }
}

/// The `u32` that `s` stands for: an optional plus sign, then one or more
/// decimal digits, and nothing else. The text is read from the left, and the
/// first thing that is wrong with it decides the error.
pub open spec fn parsed(s: Seq<char>) -> Result<u32, ParseError> {
    let digits = unsigned(s);
    let run = digits.take(leading_digits(digits) as int);
    if s.len() == 0 {
        Err(ParseError::Empty)
    } else if digits.len() == 0 {
        Err(ParseError::InvalidDigit)
    } else if decimal_value(run) > u32::MAX {
        Err(ParseError::Overflow)
    } else if run.len() < digits.len() {
        Err(ParseError::InvalidDigit)
    } else {
        Ok(decimal_value(run) as u32)
    }
}

/// The decimal form of `n`, without a sign or leading zeros.
pub open spec fn decimal_digits(n: nat) -> Seq<char>
    decreases n,
{
    if n < 10 {
        seq![digit_char(n)]
    } else {
        decimal_digits(n / 10).push(digit_char(n % 10))
    }
}

/// The leading digits of `s` never outnumber its characters.
pub proof fn lemma_leading_digits_bound(s: Seq<char>)
    ensures
        leading_digits(s) <= s.len(),
    decreases s.len(),
{
    if s.len() > 0 && is_digit(s.first()) {
        lemma_leading_digits_bound(s.drop_first());
    }
}

/// Reading further digits never makes the number smaller.
pub proof fn lemma_decimal_value_grows(s: Seq<char>, a: int, b: int)
    requires
        0 <= a <= b <= s.len(),
    ensures
        decimal_value(s.take(a)) <= decimal_value(s.take(b)),
    decreases b - a,
{
    if a < b {
        lemma_decimal_value_grows(s, a, b - 1);
        assert(s.take(b).drop_last() =~= s.take(b - 1));
    }
}

/// A string of digits alone begins with as many digits as it is long.
pub proof fn lemma_digits_throughout(s: Seq<char>)
    requires
        forall|k: int| 0 <= k < s.len() ==> is_digit(#[trigger] s[k]),
    ensures
        leading_digits(s) == s.len(),
    decreases s.len(),
{
    if s.len() > 0 {
        let rest = s.drop_first();
        assert forall|k: int| 0 <= k < rest.len() implies is_digit(#[trigger] rest[k]) by {
            assert(rest[k] == s[k + 1]);
        }
        lemma_digits_throughout(rest);
    }
}

/// A string of one or more digits stands for its value, if that fits.
pub proof fn lemma_parsed_digits(s: Seq<char>)
    requires
        s.len() > 0,
        forall|k: int| 0 <= k < s.len() ==> is_digit(#[trigger] s[k]),
    ensures
        parsed(s) == if decimal_value(s) > u32::MAX {
            Err::<u32, ParseError>(ParseError::Overflow)
        } else {
            Ok(decimal_value(s) as u32)
        },
{
    assert(is_digit(s[0]));
    lemma_digits_throughout(s);
    assert(s.take(s.len() as int) =~= s);
}

/// The decimal form of `n` is made of digits, one at least, and stands for
/// `n`.
pub proof fn lemma_decimal_digits(n: nat)
    ensures
        decimal_digits(n).len() > 0,
        forall|k: int|
            0 <= k < decimal_digits(n).len() ==> is_digit(#[trigger] decimal_digits(n)[k]),
        decimal_value(decimal_digits(n)) == n,
    decreases n,
{
    let s = decimal_digits(n);
    if n < 10 {
        assert(s.drop_last() =~= Seq::<char>::empty());
        assert(decimal_value(s.drop_last()) == 0);
    } else {
        lemma_decimal_digits(n / 10);
        assert(s.drop_last() =~= decimal_digits(n / 10));
    }
}

/// What [`decimal`] writes, [`parse`] reads back.
pub proof fn lemma_decimal_parses_back(n: u32)
    ensures
        parsed(decimal_digits(n as nat)) == Ok::<u32, ParseError>(n),
{
    lemma_decimal_digits(n as nat);
    lemma_parsed_digits(decimal_digits(n as nat));
}

/// Reads a `u32` from its decimal form.
pub fn parse(s: &str) -> (r: Result<u32, ParseError>)
    ensures
        r == parsed(s@),
{
    let v = chars_of(s);
    let n: usize = v.len();
    if n == 0 {
        return Err(ParseError::Empty);
    }
    let start: usize = if v[0] == '+' {
        1
    } else {
        0
    };
    if start == n {
        return Err(ParseError::InvalidDigit);
    }
    let ghost digits = unsigned(v@);
    assert(digits =~= v@.skip(start as int));
    assert(digits.skip(0) =~= digits);
    let mut value: u64 = 0;
    let mut i: usize = start;
    while i < n
        invariant
            start <= i <= n == v.len(),
            v@ == s@,
            digits == unsigned(s@),
            digits == v@.skip(start as int),
            leading_digits(digits) == (i - start) + leading_digits(digits.skip(i - start)),
            value == decimal_value(digits.take(i - start)),
            value <= u32::MAX,
        decreases n - i,
    {
        let c: u32 = v[i] as u32;
        let ghost rest = digits.skip(i - start);
        assert(rest.first() == v@[i as int]);
        if c < 0x30 || c > 0x39 {
            assert(leading_digits(rest) == 0);
            return Err(ParseError::InvalidDigit);
        }
        let next: u64 = value * 10 + (c - 0x30) as u64;
        proof {
            assert(rest.drop_first() =~= digits.skip(i - start + 1));
            assert(digits.take(i - start + 1).drop_last() =~= digits.take(i - start));
            assert(digits.take(i - start + 1).last() == v@[i as int]);
            assert(next == decimal_value(digits.take(i - start + 1)));
        }
        if next > u32::MAX as u64 {
            proof {
                lemma_leading_digits_bound(digits);
                lemma_decimal_value_grows(
                    digits,
                    i - start + 1,
                    leading_digits(digits) as int,
                );
            }
            return Err(ParseError::Overflow);
        }
        value = next;
        i += 1;
    }
    proof {
        assert(digits.skip(n - start).len() == 0);
        assert(digits.take(n - start) =~= digits);
    }
    Ok(value as u32)
}

/// The text of one decimal digit.
fn digit_text(d: u32) -> (r: &'static str)
    requires
        d < 10,
    ensures
        r@ == seq![digit_char(d as nat)],
{
    let all = "0123456789";
    proof {
        reveal_strlit("0123456789");
    }
    let r = all.substring_char(d as usize, d as usize + 1);
    assert(r@ =~= seq![digit_char(d as nat)]);
    r
}

/// Writes `n` out in decimal.
pub fn decimal(n: u32) -> (s: String)
    ensures
        s@ == decimal_digits(n as nat),
    decreases n,
{
    if n < 10 {
        String::from_str(digit_text(n))
    } else {
        let mut s = decimal(n / 10);
        s.append(digit_text(n % 10));
        s
    }
}

} // verus!
