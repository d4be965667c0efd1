//! Unsigned decimal numbers as text: reading them the way std's `FromStr`
//! for unsigned integers does, and writing them the way `to_string` does.
use vstd::prelude::*;

use crate::text::{chars_of, string_from_chars};

verus! {

pub open spec fn is_digit(c: char) -> bool {
    48 <= (c as u32) && (c as u32) <= 57
}

pub open spec fn digit_value(c: char) -> nat {
    ((c as u32) - 48) as nat
}

pub open spec fn all_digits(s: Seq<char>) -> bool {
    forall|i: int| 0 <= i < s.len() ==> is_digit(#[trigger] s[i])
}

/// The number that a string of decimal digits denotes.
pub open spec fn decimal_value(s: Seq<char>) -> nat
    decreases s.len(),
{
    if s.len() == 0 {
        0
    } else {
        decimal_value(s.drop_last()) * 10 + digit_value(s.last())
    }
}

/// The digits that an unsigned integer parse reads: one leading `+` is dropped.
pub open spec fn unsigned_digits(s: Seq<char>) -> Seq<char> {
    if s.len() > 0 && s[0] == '+' {
        s.drop_first()
    } else {
        s
    }
}

/// What parsing `s` as an unsigned integer no larger than `max` gives: `None`
/// for an empty text, a character that is not a digit (after one optional
/// leading `+`), or a value above `max`.
pub open spec fn parse_unsigned(s: Seq<char>, max: nat) -> Option<nat> {
    let d = unsigned_digits(s);
    if d.len() == 0 || !all_digits(d) || decimal_value(d) > max {
        None
    } else {
        Some(decimal_value(d))
    }
}

pub open spec fn digit_char(d: nat) -> char {
    if d == 0 { '0' }
    else if d == 1 { '1' }
    else if d == 2 { '2' }
    else if d == 3 { '3' }
    else if d == 4 { '4' }
    else if d == 5 { '5' }
    else if d == 6 { '6' }
    else if d == 7 { '7' }
    else if d == 8 { '8' }
    else { '9' }
}

/// The shortest decimal text of `n`, without sign or leading zeros.
pub open spec fn decimal_text(n: nat) -> Seq<char>
    decreases n,
{
    if n < 10 {
        seq![digit_char(n)]
    } else {
        decimal_text(n / 10).push(digit_char(n % 10))
    }
}

proof fn lemma_digit_char(d: nat)
    requires
        d < 10,
    ensures
        is_digit(digit_char(d)),
        digit_value(digit_char(d)) == d,
        digit_char(d) != '+',
{
}

/// The value of a prefix never exceeds the value of the whole digit string.
proof fn lemma_prefix_value_le(s: Seq<char>, k: int)
    requires
        0 <= k <= s.len(),
    ensures
        decimal_value(s.take(k)) <= decimal_value(s),
    decreases s.len() - k,
{
    if k < s.len() {
        lemma_prefix_value_le(s, k + 1);
        assert(s.take(k + 1).drop_last() =~= s.take(k));
    } else {
        assert(s.take(k) =~= s);
    }
}

/// The decimal text of `n` is a non-empty digit string that denotes `n`.
pub proof fn lemma_decimal_text(n: nat)
    ensures
        decimal_text(n).len() > 0,
        all_digits(decimal_text(n)),
        decimal_value(decimal_text(n)) == n,
        decimal_text(n)[0] != '+',
    decreases n,
{
    if n < 10 {
        lemma_digit_char(n);
        let t = decimal_text(n);
        assert(t.drop_last() =~= Seq::<char>::empty());
        assert(decimal_value(t.drop_last()) == 0);
        assert(t.last() == digit_char(n));
        assert(decimal_value(t) == decimal_value(t.drop_last()) * 10 + digit_value(t.last()));
    } else {
        lemma_decimal_text(n / 10);
        lemma_digit_char(n % 10);
        let t = decimal_text(n);
        assert(t.drop_last() =~= decimal_text(n / 10));
        assert(t.last() == digit_char(n % 10));
        assert(decimal_value(t) == decimal_value(decimal_text(n / 10)) * 10 + digit_value(t.last()));
        assert((n / 10) * 10 + n % 10 == n);
        assert forall|i: int| 0 <= i < t.len() implies is_digit(#[trigger] t[i]) by {
            if i < t.len() - 1 {
                assert(t[i] == decimal_text(n / 10)[i]);
            }
        }
        assert(t[0] == decimal_text(n / 10)[0]);
    }
}

/// Reading back the decimal text of a number gives the number.
pub proof fn lemma_parse_decimal_text(n: nat, max: nat)
    requires
        n <= max,
    ensures
        parse_unsigned(decimal_text(n), max) == Some(n),
{
    lemma_decimal_text(n);
}

/// Why a text is not an unsigned integer, as std's `IntErrorKind` names it.
#[derive(Debug, Clone, Copy, PartialEq, Eq, Structural)]
pub enum ParseFailure {
    /// The text is empty.
    Empty,
    /// A character is not a digit, or the text is a lone sign.
    InvalidDigit,
    /// The value is too large for the type.
    PosOverflow,
}

/// The first failure met reading the digits `d` from the left, each one
/// taking the value read so far to ten times it plus the digit: a character
/// that is not a digit, or a value above `max`.
pub open spec fn digits_failure(d: Seq<char>, max: nat) -> Option<ParseFailure>
    decreases d.len(),
{
    if d.len() == 0 {
        None
    } else {
        match digits_failure(d.drop_last(), max) {
            Some(f) => Some(f),
            None => if !is_digit(d.last()) {
                Some(ParseFailure::InvalidDigit)
            } else if decimal_value(d) > max {
                Some(ParseFailure::PosOverflow)
            } else {
                None
            },
        }
    }
}

/// Why parsing `s` as an unsigned integer no larger than `max` fails, as
/// std's `from_str` for unsigned integers reports it; `None` when it succeeds.
pub open spec fn unsigned_parse_failure(s: Seq<char>, max: nat) -> Option<ParseFailure> {
    if s.len() == 0 {
        Some(ParseFailure::Empty)
    } else if unsigned_digits(s).len() == 0 {
        Some(ParseFailure::InvalidDigit)
    } else {
        digits_failure(unsigned_digits(s), max)
    }
}

/// Reading digits fails exactly when one is not a digit or the value is above `max`.
proof fn lemma_digits_failure(d: Seq<char>, max: nat)
    ensures
        digits_failure(d, max) is None <==> (all_digits(d) && decimal_value(d) <= max),
    decreases d.len(),
{
    if d.len() > 0 {
        let p = d.drop_last();
        lemma_digits_failure(p, max);
        lemma_prefix_value_le(d, d.len() - 1);
        assert(d.take(d.len() - 1) =~= p);
        if all_digits(d) {
            assert forall|i: int| 0 <= i < p.len() implies is_digit(#[trigger] p[i]) by {
                assert(p[i] == d[i]);
            }
        }
        if all_digits(p) && is_digit(d.last()) {
            assert forall|i: int| 0 <= i < d.len() implies is_digit(#[trigger] d[i]) by {
                if i < p.len() {
                    assert(p[i] == d[i]);
                }
            }
        }
    }
}

/// A failure met in a prefix of the digits is the failure of the whole.
proof fn lemma_failure_stays(d: Seq<char>, max: nat, k: int, j: int)
    requires
        0 <= k <= j <= d.len(),
        digits_failure(d.take(k), max) is Some,
    ensures
        digits_failure(d.take(j), max) == digits_failure(d.take(k), max),
    decreases j - k,
{
    if j > k {
        lemma_failure_stays(d, max, k, j - 1);
        assert(d.take(j).drop_last() =~= d.take(j - 1));
    }
}

/// Parsing fails exactly when it gives no value.
pub proof fn lemma_parse_failure_iff_no_value(s: Seq<char>, max: nat)
    ensures
        unsigned_parse_failure(s, max) is None <==> parse_unsigned(s, max) is Some,
{
    lemma_digits_failure(unsigned_digits(s), max);
}

/// Reads `s` as an unsigned integer no larger than `max`, as std's `from_str`
/// for unsigned integers does: the value, or why there is none.
pub fn read_unsigned(s: &str, max: u64) -> (r: Result<u64, ParseFailure>)
    ensures
        match r {
            Ok(v) => parse_unsigned(s@, max as nat) == Some(v as nat),
            Err(f) => parse_unsigned(s@, max as nat) is None && unsigned_parse_failure(
                s@,
                max as nat,
            ) == Some(f),
        },
{
    let chars = chars_of(s);
    let n = chars.len();
    if n == 0 {
        return Err(ParseFailure::Empty);
    }
    let start: usize = if chars[0] == '+' { 1 } else { 0 };
    let ghost d = unsigned_digits(s@);
    assert(d =~= s@.skip(start as int));
    if start == n {
        return Err(ParseFailure::InvalidDigit);
    }
    let mut acc: u64 = 0;
    let mut i: usize = start;
    while i < n
        invariant
            chars@ == s@,
            n == chars.len(),
            d == s@.skip(start as int),
            d == unsigned_digits(s@),
            start <= i <= n,
            start < n,
            all_digits(d.take(i - start)),
            digits_failure(d.take(i - start), max as nat) is None,
            acc as nat == decimal_value(d.take(i - start)),
            acc <= max,
        decreases n - i,
    {
        let c = chars[i];
        let u = c as u32;
        let ghost k = i - start;
        assert(d[k] == c);
        assert(d.take(k + 1).drop_last() =~= d.take(k));
        assert(d.take(k + 1).last() == c);
        if u < 48 || u > 57 {
            assert(!is_digit(d[k]));
            assert(digits_failure(d.take(k + 1), max as nat) == Some(ParseFailure::InvalidDigit));
            proof {
                lemma_failure_stays(d, max as nat, k + 1, d.len() as int);
                assert(d.take(d.len() as int) =~= d);
                lemma_parse_failure_iff_no_value(s@, max as nat);
            }
            return Err(ParseFailure::InvalidDigit);
        }
        let dv = (u - 48) as u64;
        assert(decimal_value(d.take(k + 1)) == acc * 10 + dv);
        if dv > max || acc > (max - dv) / 10 {
            if dv <= max {
                assert(acc * 10 + dv > max) by (nonlinear_arith)
                    requires
                        acc > (max - dv) / 10,
                        dv <= max,
                ;
            }
            assert(digits_failure(d.take(k + 1), max as nat) == Some(ParseFailure::PosOverflow));
            proof {
                lemma_failure_stays(d, max as nat, k + 1, d.len() as int);
                assert(d.take(d.len() as int) =~= d);
                lemma_parse_failure_iff_no_value(s@, max as nat);
            }
            return Err(ParseFailure::PosOverflow);
        }
        assert(acc * 10 + dv <= max) by (nonlinear_arith)
            requires
                acc <= (max - dv) / 10,
                dv <= max,
        ;
        acc = acc * 10 + dv;
        assert forall|j: int| 0 <= j < k + 1 implies is_digit(#[trigger] d.take(k + 1)[j]) by {
            if j < k {
                assert(d.take(k + 1)[j] == d.take(k)[j]);
            }
        }
        i = i + 1;
    }
    assert(d.take(n - start) =~= d);
    Ok(acc)
}

/// Parses `s` as an unsigned integer no larger than `max`.
pub fn parse_bounded(s: &str, max: u64) -> (r: Option<u64>)
    ensures
        match r {
            Some(v) => parse_unsigned(s@, max as nat) == Some(v as nat),
            None => parse_unsigned(s@, max as nat) is None,
        },
{
    match read_unsigned(s, max) {
        Ok(v) => Some(v),
        Err(_) => None,
    }
}

/// Parses a `u64` as `str::parse::<u64>` does.
pub fn parse_u64(s: &str) -> (r: Option<u64>)
    ensures
        match r {
            Some(v) => parse_unsigned(s@, u64::MAX as nat) == Some(v as nat),
            None => parse_unsigned(s@, u64::MAX as nat) is None,
        },
{
    parse_bounded(s, u64::MAX)
}

/// Parses a `u16` as `str::parse::<u16>` does.
pub fn parse_u16(s: &str) -> (r: Option<u16>)
    ensures
        match r {
            Some(v) => parse_unsigned(s@, u16::MAX as nat) == Some(v as nat),
            None => parse_unsigned(s@, u16::MAX as nat) is None,
        },
{
    match parse_bounded(s, 65535) {
        Some(v) => Some(v as u16),
        None => None,
    }
}

/// Parses a `usize` as `str::parse::<usize>` does.
pub fn parse_usize(s: &str) -> (r: Option<usize>)
    ensures
        match r {
            Some(v) => parse_unsigned(s@, usize::MAX as nat) == Some(v as nat),
            None => parse_unsigned(s@, usize::MAX as nat) is None,
        },
{
    match parse_bounded(s, usize::MAX as u64) {
        Some(v) => Some(v as usize),
        None => None,
    }
}

fn exec_digit_char(d: u64) -> (c: char)
    requires
        d < 10,
    ensures
        c == digit_char(d as nat),
{
    if d == 0 { '0' }
    else if d == 1 { '1' }
    else if d == 2 { '2' }
    else if d == 3 { '3' }
    else if d == 4 { '4' }
    else if d == 5 { '5' }
    else if d == 6 { '6' }
    else if d == 7 { '7' }
    else if d == 8 { '8' }
    else { '9' }
}

/// The decimal text of `n`, as `n.to_string()` writes it.
pub fn format_u64(n: u64) -> (r: String)
    ensures
        r@ == decimal_text(n as nat),
{
    let mut digits: Vec<char> = Vec::new();
    let mut m: u64 = n;
    while m >= 10
        invariant
            decimal_text(n as nat) == decimal_text(m as nat) + digits@,
        decreases m,
    {
        let c = exec_digit_char(m % 10);
        let ghost old_digits = digits@;
        digits.insert(0, c);
        assert(digits@ =~= seq![c] + old_digits);
        assert(decimal_text(m as nat) == decimal_text((m / 10) as nat).push(c));
        assert(decimal_text((m / 10) as nat).push(c) + old_digits =~= decimal_text(
            (m / 10) as nat,
        ) + digits@);
        m = m / 10;
    }
    let c = exec_digit_char(m);
    let ghost old_digits = digits@;
    digits.insert(0, c);
    assert(digits@ =~= decimal_text(m as nat) + old_digits);
    string_from_chars(&digits)
}

} // verus!
