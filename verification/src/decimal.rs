//! Decimal text of unsigned integers, written and read as `Display` and
//! `FromStr` of std do it.
use crate::text::string_push;
use vstd::prelude::*;

verus! {

/// The character of a decimal digit.
pub open spec fn digit_char(d: nat) -> char {
    (48 + d) as char
}

/// Whether `c` is an ASCII decimal digit.
pub open spec fn is_digit(c: char) -> bool {
    '0' <= c && c <= '9'
}

/// The value of a decimal digit character.
pub open spec fn digit_value(c: char) -> nat {
    (c as int - 48) as nat
}

/// The shortest decimal text of `n`.
pub open spec fn decimal_of(n: nat) -> Seq<char>
    decreases n,
{
    if n < 10 {
        seq![digit_char(n)]
    } else {
        decimal_of(n / 10).push(digit_char(n % 10))
    }
}

/// Why a text is not the decimal text of a number in range.
#[derive(Debug, Clone, Copy, PartialEq, Eq)]
pub enum IntParseError {
    /// The text is empty.
    Empty,
    /// The text holds a character that is not a digit.
    InvalidDigit,
    /// The number is too large for the type.
    PosOverflow,
}

/// The text by which std displays an integer parse error.
pub open spec fn int_parse_error_text(e: IntParseError) -> Seq<char> {
    match e {
        IntParseError::Empty => "cannot parse integer from empty string"@,
        IntParseError::InvalidDigit => "invalid digit found in string"@,
        IntParseError::PosOverflow => "number too large to fit in target type"@,
    }
}

impl IntParseError {
    /// The text by which std displays this error.
    pub fn to_display_string(&self) -> (r: String)
        ensures
            r@ == int_parse_error_text(*self),
    {
        match self {
            IntParseError::Empty => "cannot parse integer from empty string".to_owned(),
            IntParseError::InvalidDigit => "invalid digit found in string".to_owned(),
            IntParseError::PosOverflow => "number too large to fit in target type".to_owned(),
        }
    }
}

/// Reads the digits left to right, stopping at the first character that is
/// not a digit or that makes the value exceed `max`.
pub open spec fn parse_digits(s: Seq<char>, max: nat) -> Result<nat, IntParseError>
    decreases s.len(),
{
    if s.len() == 0 {
        Ok(0)
    } else {
        match parse_digits(s.drop_last(), max) {
            Err(e) => Err(e),
            Ok(v) => if !is_digit(s.last()) {
                Err(IntParseError::InvalidDigit)
            } else if v * 10 + digit_value(s.last()) > max {
                Err(IntParseError::PosOverflow)
            } else {
                Ok(v * 10 + digit_value(s.last()))
            },
        }
    }
}

/// What `from_str` of an unsigned integer type whose largest value is `max`
/// gives for `s`: an optional `+` sign, then decimal digits.
pub open spec fn parse_unsigned(s: Seq<char>, max: nat) -> Result<nat, IntParseError> {
    if s.len() == 0 {
        Err(IntParseError::Empty)
    } else if s.len() == 1 && (s[0] == '+' || s[0] == '-') {
        Err(IntParseError::InvalidDigit)
    } else if s[0] == '+' {
        parse_digits(s.drop_first(), max)
    } else {
        parse_digits(s, max)
    }
}

fn push_decimal(out: &mut String, n: u64)
    ensures
        final(out)@ == old(out)@ + decimal_of(n as nat),
    decreases n,
{
    if n >= 10 {
        push_decimal(out, n / 10);
    }
    let d: u8 = (n % 10) as u8;
    string_push(out, (d + 48u8) as char);
    proof {
        assert((d + 48u8) as char == digit_char((n % 10) as nat));
        if n >= 10 {
            assert(old(out)@ + decimal_of(n as nat) =~= old(out)@ + decimal_of((n / 10) as nat) + seq![digit_char((n % 10) as nat)]);
        } else {
            assert(decimal_of(n as nat) == seq![digit_char(n as nat)]);
        }
    }
}

/// The decimal text of a `u64`.
pub fn u64_to_decimal(n: u64) -> (r: String)
    ensures
        r@ == decimal_of(n as nat),
{
    let mut out: String = String::new();
    push_decimal(&mut out, n);
    proof {
        assert(Seq::<char>::empty() + decimal_of(n as nat) =~= decimal_of(n as nat));
    }
    out
}

/// The decimal text of a `u32`.
pub fn u32_to_decimal(n: u32) -> (r: String)
    ensures
        r@ == decimal_of(n as nat),
{
    u64_to_decimal(n as u64)
}

/// The decimal text of an integer, with a minus sign when it is negative.
pub open spec fn signed_decimal_of(n: int) -> Seq<char> {
    if n < 0 {
        seq!['-'] + decimal_of((-n) as nat)
    } else {
        decimal_of(n as nat)
    }
}

/// The decimal text of an `i32`.
pub fn i32_to_decimal(n: i32) -> (r: String)
    ensures
        r@ == signed_decimal_of(n as int),
{
    if n < 0 {
        let m: u64 = (-(n as i64)) as u64;
        let mut out: String = String::new();
        string_push(&mut out, '-');
        push_decimal(&mut out, m);
        out
    } else {
        u64_to_decimal(n as u64)
    }
}

/// The decimal text of a `usize`.
pub fn usize_to_decimal(n: usize) -> (r: String)
    ensures
        r@ == decimal_of(n as nat),
{
    u64_to_decimal(n as u64)
}

/// Reads `chars[from..to]` as an unsigned decimal number no larger than `max`.
pub fn parse_unsigned_chars(chars: &Vec<char>, from: usize, to: usize, max: u64) -> (r: Result<u64, IntParseError>)
    requires
        from <= to <= chars@.len(),
    ensures
        match parse_unsigned(chars@.subrange(from as int, to as int), max as nat) {
            Ok(v) => r == Ok::<u64, IntParseError>(v as u64),
            Err(e) => r == Err::<u64, IntParseError>(e),
        },
{
    let ghost s = chars@.subrange(from as int, to as int);
    if from == to {
        return Err(IntParseError::Empty);
    }
    if to - from == 1 && (chars[from] == '+' || chars[from] == '-') {
        return Err(IntParseError::InvalidDigit);
    }
    let start: usize = if chars[from] == '+' { from + 1 } else { from };
    let ghost digits = chars@.subrange(start as int, to as int);
    proof {
        if chars@[from as int] == '+' {
            assert(digits =~= s.drop_first());
        } else {
            assert(digits =~= s);
        }
        assert(parse_unsigned(s, max as nat) == parse_digits(digits, max as nat));
    }
    let mut v: u64 = 0;
    let mut i: usize = start;
    while i < to
        invariant
            start <= i <= to <= chars@.len(),
            digits == chars@.subrange(start as int, to as int),
            s == chars@.subrange(from as int, to as int),
            parse_unsigned(s, max as nat) == parse_digits(digits, max as nat),
            parse_digits(digits.take(i - start), max as nat) == Ok::<nat, IntParseError>(v as nat),
            v <= max,
        decreases to - i,
    {
        let c: char = chars[i];
        proof {
            assert(digits.take(i - start + 1).drop_last() =~= digits.take(i - start));
            assert(digits.take(i - start + 1).last() == c);
            lemma_parse_digits_prefix_error(digits, (i - start + 1) as int, max as nat);
        }
        if !('0' <= c && c <= '9') {
            return Err(IntParseError::InvalidDigit);
        }
        let d: u64 = (c as u64) - 48;
        assert(d == digit_value(c));
        if d > max || v > (max - d) / 10 {
            proof {
                if d <= max {
                    assert(v * 10 + d > max) by (nonlinear_arith)
                        requires v > (max - d) / 10, d <= max;
                }
            }
            return Err(IntParseError::PosOverflow);
        }
        proof {
            assert(v * 10 + d <= max) by (nonlinear_arith)
                requires v <= (max - d) / 10, d <= 9, max >= 0;
        }
        v = v * 10 + d;
        i = i + 1;
    }
    proof {
        assert(digits.take(digits.len() as int) =~= digits);
    }
    Ok(v)
}

/// Once the digits read so far fail, the whole text fails the same way.
proof fn lemma_parse_digits_prefix_error(s: Seq<char>, k: int, max: nat)
    requires
        0 <= k <= s.len(),
    ensures
        parse_digits(s.take(k), max) is Err ==> parse_digits(s, max) == parse_digits(s.take(k), max),
    decreases s.len() - k,
{
    if k < s.len() {
        lemma_parse_digits_prefix_error(s, k + 1, max);
        assert(s.take(k + 1).drop_last() =~= s.take(k));
    } else {
        assert(s.take(k) =~= s);
    }
}

/// The decimal text of a number consists of digits only.
pub proof fn lemma_decimal_digits(n: nat)
    ensures
        forall|i: int| 0 <= i < decimal_of(n).len() ==> is_digit(#[trigger] decimal_of(n)[i]),
        decimal_of(n).len() >= 1,
    decreases n,
{
    if n >= 10 {
        lemma_decimal_digits(n / 10);
    }
}

/// Reading back the decimal text of a number in range gives the number.
pub proof fn lemma_decimal_roundtrip(n: nat, max: nat)
    requires
        n <= max,
    ensures
        parse_digits(decimal_of(n), max) == Ok::<nat, IntParseError>(n),
        parse_unsigned(decimal_of(n), max) == Ok::<nat, IntParseError>(n),
    decreases n,
{
    lemma_decimal_digits(n);
    let d = n % 10;
    let s = decimal_of(n);
    assert(digit_value(digit_char(d)) == d);
    assert(s.last() == digit_char(d));
    assert(is_digit(s.last()));
    if n >= 10 {
        lemma_decimal_roundtrip(n / 10, max);
        assert(s.drop_last() =~= decimal_of(n / 10));
        assert((n / 10) * 10 + d == n);
        assert(parse_digits(s.drop_last(), max) == Ok::<nat, IntParseError>(n / 10));
    } else {
        assert(s.drop_last() =~= Seq::<char>::empty());
        assert(parse_digits(s.drop_last(), max) == Ok::<nat, IntParseError>(0));
        assert(d == n);
    }
    assert(parse_digits(s, max) == Ok::<nat, IntParseError>(n));
    let s = decimal_of(n);
    assert(is_digit(s[0]));
    assert(s[0] != '+' && s[0] != '-');
}

} // verus!
