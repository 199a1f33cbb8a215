//! Rendering integers as text.
//!
//! Every line that the trace reports is built from literal text and numbers
//! in decimal or hexadecimal. The renderings are defined here as sequences of
//! characters, and the functions that produce them are proved against those
//! definitions.

use vstd::prelude::*;
use vstd::string::*;

verus! {

/// `String::push` appends one character to the string.
pub assume_specification[ String::push ](s: &mut String, c: char)
    ensures
        final(s)@ == old(s)@.push(c),
;

/// The character for one digit in a radix of at most sixteen: `0` to `9`, then
/// lower-case `a` to `f`.
pub open spec fn digit_char(d: nat) -> char {
    if d < 10 {
        (48 + d) as char
    } else {
        (87 + d) as char
    }
}

/// The width that is left for the digits before the last one.
pub open spec fn one_less(width: nat) -> nat {
    if width == 0 {
        0
    } else {
        (width - 1) as nat
    }
}

/// `n` written in `radix` with at least `width` digits, zeros in front where
/// the number has fewer. The last digit is `n % radix`; before it stands the
/// rest of the number, padded to one digit less.
pub open spec fn radix_text(n: nat, radix: nat, width: nat) -> Seq<char>
    recommends
        2 <= radix <= 16,
    decreases n, width,
{
    if radix < 2 {
        Seq::empty()
    } else if n < radix && width <= 1 {
        seq![digit_char(n)]
    } else {
        proof {
            assert(n >= radix ==> n / radix < n) by (nonlinear_arith)
                requires
                    2 <= radix,
            ;
            assert(n < radix ==> n / radix == 0) by (nonlinear_arith)
                requires
                    2 <= radix,
            ;
        }
        radix_text(n / radix, radix, one_less(width)).push(digit_char(n % radix))
    }
}

/// `n` in decimal, without padding.
pub open spec fn decimal_text(n: nat) -> Seq<char> {
    radix_text(n, 10, 1)
}

/// `n` in decimal, with a minus sign in front of a negative number.
pub open spec fn signed_decimal_text(n: int) -> Seq<char> {
    if n < 0 {
        seq!['-'] + decimal_text((-n) as nat)
    } else {
        decimal_text(n as nat)
    }
}

/// An address as the trace prints it: `0x`, then at least eight lower-case
/// hexadecimal digits.
pub open spec fn address_text(value: u64) -> Seq<char> {
    seq!['0', 'x'] + radix_text(value as nat, 16, 8)
}

fn digit(d: u8) -> (c: char)
    requires
        d < 16,
    ensures
        c == digit_char(d as nat),
{
    if d < 10 {
        (48u8 + d) as char
    } else {
        (87u8 + d) as char
    }
}

/// Appends `n`, written in `radix` with at least `width` digits, to `out`.
pub fn push_number(out: &mut String, n: u64, radix: u64, width: usize)
    requires
        2 <= radix <= 16,
    ensures
        final(out)@ == old(out)@ + radix_text(n as nat, radix as nat, width as nat),
    decreases n, width,
{
    if n < radix && width <= 1 {
        out.push(digit(n as u8));
    } else {
        let rest: u64 = n / radix;
        let last: u64 = n % radix;
        let narrower: usize = if width == 0 {
            0
        } else {
            width - 1
        };
        assert(n >= radix ==> rest < n) by (nonlinear_arith)
            requires
                2 <= radix,
                rest == n / radix,
        ;
        assert(n < radix ==> rest == 0) by (nonlinear_arith)
            requires
                2 <= radix,
                rest == n / radix,
        ;
        push_number(out, rest, radix, narrower);
        out.push(digit(last as u8));
    }
}

/// Appends `n` in decimal to `out`.
pub fn push_decimal(out: &mut String, n: u64)
    ensures
        final(out)@ == old(out)@ + decimal_text(n as nat),
{
    push_number(out, n, 10, 1);
}

/// Appends `n` in decimal, signed, to `out`.
pub fn push_signed_decimal(out: &mut String, n: i64)
    ensures
        final(out)@ == old(out)@ + signed_decimal_text(n as int),
{
    if n < 0 {
        out.push('-');
        let magnitude: u64 = if n == i64::MIN {
            0x8000_0000_0000_0000u64
        } else {
            (-n) as u64
        };
        push_number(out, magnitude, 10, 1);
        assert(final(out)@ == old(out)@ + signed_decimal_text(n as int));
    } else {
        push_number(out, n as u64, 10, 1);
    }
}

/// Appends `value` as an address to `out`.
pub fn push_address(out: &mut String, value: u64)
    ensures
        final(out)@ == old(out)@ + address_text(value),
{
    out.push('0');
    out.push('x');
    push_number(out, value, 16, 8);
    assert(final(out)@ == old(out)@ + address_text(value));
}

/// `value` as an address, in a string of its own.
pub fn address_string(value: u64) -> (text: String)
    ensures
        text@ == address_text(value),
{
    let mut text = String::new();
    push_address(&mut text, value);
    text
}


/// Whether `c` is a decimal digit.
pub open spec fn is_digit(c: char) -> bool {
    '0' <= c <= '9'
}

/// The number that the decimal digits `digits` write.
pub open spec fn digits_value(digits: Seq<char>) -> nat
    decreases digits.len(),
{
    if digits.len() == 0 {
        0
    } else {
        digits_value(digits.drop_last()) * 10 + (digits.last() as nat - 48) as nat
    }
}

/// The digits of a number as written: the text without a `+` in front.
pub open spec fn unsigned_part(text: Seq<char>) -> Seq<char> {
    if text.len() > 0 && text[0] == '+' {
        text.skip(1)
    } else {
        text
    }
}

/// The number that `text` writes in decimal: at least one digit, a `+` in
/// front of them or not, and a value that 64 bits hold.
pub open spec fn number_value(text: Seq<char>) -> Option<u64> {
    let digits = unsigned_part(text);
    if digits.len() > 0 && (forall|i: int| 0 <= i < digits.len() ==> is_digit(digits[i]))
        && digits_value(digits) <= u64::MAX {
        Some(digits_value(digits) as u64)
    } else {
        None
    }
}

/// More digits never write a smaller number.
pub proof fn lemma_digits_value_grows(digits: Seq<char>, k: int)
    requires
        0 <= k <= digits.len(),
        forall|i: int| 0 <= i < digits.len() ==> is_digit(digits[i]),
    ensures
        digits_value(digits.take(k)) <= digits_value(digits),
    decreases digits.len() - k,
{
    if k == digits.len() {
        assert(digits.take(k) =~= digits);
    } else {
        let longer = digits.take(k + 1);
        assert(longer.drop_last() =~= digits.take(k));
        assert(is_digit(longer.last()));
        lemma_digits_value_grows(digits, k + 1);
    }
}

/// Reads a number in decimal; `None` where `text` writes none.
pub fn parse_decimal(text: &str) -> (number: Option<u64>)
    ensures
        number == number_value(text@),
{
    let n = text.unicode_len();
    let start: usize = if n > 0 && text.get_char(0) == '+' {
        1
    } else {
        0
    };
    let ghost digits = unsigned_part(text@);
    assert(digits =~= text@.skip(start as int));
    if start == n {
        return None;
    }
    let mut value: u64 = 0;
    let mut i: usize = start;
    while i < n
        invariant
            start <= i <= n,
            n == text@.len(),
            digits == text@.skip(start as int),
            digits == unsigned_part(text@),
            forall|j: int| 0 <= j < i - start ==> is_digit(digits[j]),
            value as nat == digits_value(digits.take(i - start)),
        decreases n - i,
    {
        let c = text.get_char(i);
        assert(c == digits[i - start]);
        if !('0' <= c && c <= '9') {
            assert(!is_digit(digits[i - start]));
            return None;
        }
        let d: u64 = (c as u8 - 48u8) as u64;
        let ghost longer = digits.take(i - start + 1);
        proof {
            assert(longer.drop_last() =~= digits.take(i - start));
            assert(longer.last() == c);
            assert(digits_value(longer) == value * 10 + d);
        }
        let next = match value.checked_mul(10) {
            Some(tenfold) => tenfold.checked_add(d),
            None => None,
        };
        match next {
            Some(v) => {
                value = v;
            },
            None => {
                assert(number_value(text@) is None) by {
                    assert(digits_value(longer) > u64::MAX);
                    if number_value(text@) is Some {
                        lemma_digits_value_grows(digits, i - start + 1);
                    }
                }
                return None;
            },
        }
        i = i + 1;
    }
    assert(digits.take(n - start) =~= digits);
    Some(value)
}

} // verus!
