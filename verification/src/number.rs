//! Decimal numbers as text.
use vstd::prelude::*;
use crate::text::chars_of;

verus! {

/// The character of the digit `d`.
pub open spec fn digit_char(d: nat) -> char {
    (('0' as u32) + d) as char
}

/// Whether `c` is one of `0` to `9`.
pub open spec fn is_digit(c: char) -> bool {
    '0' <= c <= '9'
}

/// The value of the digit `c`.
pub open spec fn digit_value(c: char) -> nat {
    (c as u32 - '0' as u32) as nat
}

/// `n` in decimal, without leading zeros.
pub open spec fn decimal(n: nat) -> Seq<char>
    decreases n,
{
    if n < 10 {
        seq![digit_char(n)]
    } else {
        decimal(n / 10).push(digit_char(n % 10))
    }
}

/// `n` in decimal, with a leading minus sign if it is negative.
pub open spec fn signed_decimal(n: int) -> Seq<char> {
    if n < 0 {
        seq!['-'] + decimal((-n) as nat)
    } else {
        decimal(n as nat)
    }
}

/// Why a text is not an unsigned number.
#[derive(Debug, Clone, Copy, PartialEq, Eq, Structural)]
pub enum NumberError {
    /// There is nothing to read.
    Empty,
    /// A character is not a digit.
    InvalidDigit,
    /// The number is larger than `u64::MAX`.
    PosOverflow,
}

/// Reads the digits of `s` from left to right on top of `value`. The first character that is not
/// a digit, or the first digit that leaves the range of `u64`, decides the error.
pub open spec fn read_digits(s: Seq<char>, value: nat) -> Result<u64, NumberError>
    decreases s.len(),
{
    if s.len() == 0 {
        Ok(value as u64)
    } else if !is_digit(s[0]) {
        Err(NumberError::InvalidDigit)
    } else if value * 10 + digit_value(s[0]) > u64::MAX {
        Err(NumberError::PosOverflow)
    } else {
        read_digits(s.skip(1), value * 10 + digit_value(s[0]))
    }
}

/// The unsigned number that `s` holds: decimal digits, after an optional `+`.
pub open spec fn read_u64(s: Seq<char>) -> Result<u64, NumberError> {
    if s.len() == 0 {
        Err(NumberError::Empty)
    } else if s[0] == '+' && s.len() > 1 {
        read_digits(s.skip(1), 0)
    } else {
        read_digits(s, 0)
    }
}

/// `n` in decimal.
pub fn format_u64(n: u64) -> (r: String)
    ensures
        r@ == decimal(n as nat),
    decreases n,
{
    if n < 10 {
        let mut r = String::new();
        push_digit(&mut r, n);
        assert(r@ =~= decimal(n as nat));
        r
    } else {
        let mut r = format_u64(n / 10);
        push_digit(&mut r, n % 10);
        r
    }
}

/// Appends the digit `d`.
fn push_digit(s: &mut String, d: u64)
    requires
        d < 10,
    ensures
        final(s)@ == old(s)@.push(digit_char(d as nat)),
{
    let c = match d {
        0 => '0',
        1 => '1',
        2 => '2',
        3 => '3',
        4 => '4',
        5 => '5',
        6 => '6',
        7 => '7',
        8 => '8',
        _ => '9',
    };
    s.push(c);
}

/// `n` in decimal, with a leading minus sign if it is negative.
pub fn format_i64(n: i64) -> (r: String)
    ensures
        r@ == signed_decimal(n as int),
{
    if n >= 0 {
        format_u64(n as u64)
    } else {
        let magnitude: u64 = if n == i64::MIN {
            0x8000_0000_0000_0000
        } else {
            (-n) as u64
        };
        let digits = format_u64(magnitude);
        let mut r = String::new();
        r.push('-');
        vstd::string::StringExecFns::append(&mut r, digits.as_str());
        assert(r@ =~= signed_decimal(n as int));
        r
    }
}

/// Reads an unsigned number: decimal digits, after an optional `+`.
pub fn parse_u64(s: &str) -> (r: Result<u64, NumberError>)
    ensures
        r == read_u64(s@),
{
    let chars = chars_of(s);
    if chars.len() == 0 {
        return Err(NumberError::Empty);
    }
    let mut i: usize = if chars[0] == '+' && chars.len() > 1 {
        1
    } else {
        0
    };
    let mut value: u64 = 0;
    assert(s@.skip(0) =~= s@);
    while i < chars.len()
        invariant
            i <= chars@.len(),
            chars@ == s@,
            read_u64(s@) == read_digits(s@.skip(i as int), value as nat),
        decreases chars@.len() - i,
    {
        let c = chars[i];
        assert(s@.skip(i as int)[0] == c);
        if !('0' <= c && c <= '9') {
            return Err(NumberError::InvalidDigit);
        }
        let d: u64 = c as u64 - '0' as u64;
        assert(d == digit_value(c));
        if value > u64::MAX / 10 || (value == u64::MAX / 10 && d > u64::MAX % 10) {
            return Err(NumberError::PosOverflow);
        }
        assert(s@.skip(i as int).skip(1) =~= s@.skip(i + 1));
        value = value * 10 + d;
        i = i + 1;
    }
    Ok(value)
}

/// A decimal numeral holds digits only, and at least one.
pub proof fn lemma_decimal_digits(n: nat)
    ensures
        decimal(n).len() > 0,
        forall|i: int| 0 <= i < decimal(n).len() ==> is_digit(#[trigger] decimal(n)[i]),
    decreases n,
{
    if n >= 10 {
        lemma_decimal_digits(n / 10);
    }
}

proof fn lemma_read_decimal_then(n: nat, rest: Seq<char>)
    requires
        n <= u64::MAX,
    ensures
        read_digits(decimal(n) + rest, 0) == read_digits(rest, n),
    decreases n,
{
    if n < 10 {
        assert((decimal(n) + rest).skip(1) =~= rest);
        assert(digit_value(digit_char(n)) == n);
    } else {
        let tail = seq![digit_char(n % 10)] + rest;
        assert(decimal(n) + rest =~= decimal(n / 10) + tail);
        lemma_read_decimal_then(n / 10, tail);
        assert(tail.skip(1) =~= rest);
        assert(digit_value(digit_char(n % 10)) == n % 10);
    }
}

/// Reading what `format_u64` wrote gives the number back.
pub proof fn decimal_round_trip(n: u64)
    ensures
        read_u64(decimal(n as nat)) == Ok::<u64, NumberError>(n),
{
    lemma_decimal_digits(n as nat);
    lemma_read_decimal_then(n as nat, Seq::empty());
    assert(decimal(n as nat) + Seq::<char>::empty() =~= decimal(n as nat));
}

/// Two numbers with the same decimal numeral are the same number.
pub proof fn decimal_is_injective(m: u64, n: u64)
    requires
        decimal(m as nat) == decimal(n as nat),
    ensures
        m == n,
{
    decimal_round_trip(m);
    decimal_round_trip(n);
}

} // verus!
