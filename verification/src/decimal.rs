//! Natural numbers written with a fixed count of decimal digits.
//!
//! A number takes the same room whatever its value, with zeros in front, so
//! that what follows it in a text starts at a known place.

use vstd::prelude::*;
use vstd::string::{StrSliceExecFns, StringExecFns};

verus! {

/// How many digits a number takes: enough for every 64-bit value.
pub const NUMBER_WIDTH: usize = 20;

/// Ten to the power of `exponent`.
pub open spec fn pow10(exponent: nat) -> nat
    decreases exponent,
{
    if exponent == 0 {
        1
    } else {
        10 * pow10((exponent - 1) as nat)
    }
}

/// Whether `c` is one of the ten decimal digits.
pub open spec fn is_digit(c: char) -> bool {
    '0' <= c <= '9'
}

/// The digit that stands for `value`, which is below ten.
pub open spec fn digit(value: nat) -> char {
    ('0' as nat + value) as char
}

/// The value that the digit `c` stands for.
pub open spec fn digit_value(c: char) -> nat {
    (c as nat - '0' as nat) as nat
}

/// Whether `s` holds digits only.
pub open spec fn all_digits(s: Seq<char>) -> bool {
    forall|i: int| 0 <= i < s.len() ==> is_digit(#[trigger] s[i])
}

/// The last `width` digits of `n`, the most significant first.
pub open spec fn fixed_decimal(n: nat, width: nat) -> Seq<char>
    decreases width,
{
    if width == 0 {
        Seq::empty()
    } else {
        fixed_decimal(n / 10, (width - 1) as nat).push(digit(n % 10))
    }
}

/// The number that the digits of `s` spell.
pub open spec fn decimal_value(s: Seq<char>) -> nat
    decreases s.len(),
{
    if s.len() == 0 {
        0
    } else {
        decimal_value(s.drop_last()) * 10 + digit_value(s.last())
    }
}

/// `n` in `NUMBER_WIDTH` digits.
pub open spec fn number(n: nat) -> Seq<char> {
    fixed_decimal(n, NUMBER_WIDTH as nat)
}

/// The bound below which a number fits its digits: ten to the power of
/// `NUMBER_WIDTH`.
pub open spec fn number_limit() -> nat {
    100_000_000_000_000_000_000
}

/// The number at the start of `s`: the value of its first `NUMBER_WIDTH`
/// characters where there are as many and all are digits.
pub open spec fn leading_number(s: Seq<char>) -> Option<nat> {
    if s.len() >= NUMBER_WIDTH && all_digits(s.take(NUMBER_WIDTH as int)) {
        Some(decimal_value(s.take(NUMBER_WIDTH as int)))
    } else {
        None
    }
}

proof fn lemma_pow10_of_width()
    ensures
        pow10(NUMBER_WIDTH as nat) == number_limit(),
{
    reveal_with_fuel(pow10, 21);
}

proof fn lemma_pow10_grows(low: nat, high: nat)
    requires
        low <= high,
    ensures
        1 <= pow10(low) <= pow10(high),
    decreases high,
{
    if high == 0 {
    } else if low == high {
        lemma_pow10_grows((low - 1) as nat, (high - 1) as nat);
    } else {
        lemma_pow10_grows(low, (high - 1) as nat);
    }
}

/// A number is written in as many digits as asked for, and in digits only.
proof fn lemma_fixed_decimal_shape(n: nat, width: nat)
    ensures
        fixed_decimal(n, width).len() == width,
        all_digits(fixed_decimal(n, width)),
    decreases width,
{
    if width > 0 {
        lemma_fixed_decimal_shape(n / 10, (width - 1) as nat);
    }
}

/// Reading what was written gives the number back, where it fits the width.
proof fn lemma_value_of_fixed_decimal(n: nat, width: nat)
    requires
        n < pow10(width),
    ensures
        decimal_value(fixed_decimal(n, width)) == n,
    decreases width,
{
    if width > 0 {
        let shorter = fixed_decimal(n / 10, (width - 1) as nat);
        lemma_value_of_fixed_decimal(n / 10, (width - 1) as nat);
        assert(fixed_decimal(n, width).drop_last() =~= shorter);
    }
}

/// Digits spell a number below ten to the power of their count, and writing
/// that number in as many digits gives the same digits.
proof fn lemma_fixed_decimal_of_value(s: Seq<char>)
    requires
        all_digits(s),
    ensures
        decimal_value(s) < pow10(s.len()),
        fixed_decimal(decimal_value(s), s.len()) == s,
    decreases s.len(),
{
    if s.len() > 0 {
        let front = s.drop_last();
        assert(all_digits(front));
        lemma_fixed_decimal_of_value(front);
    }
}

/// The number at the start of what was written is the number written.
pub(crate) proof fn lemma_leading_number_of_number(n: nat, rest: Seq<char>)
    requires
        n < number_limit(),
    ensures
        leading_number(number(n) + rest) == Some(n),
        (number(n) + rest).skip(NUMBER_WIDTH as int) == rest,
        number(n).len() == NUMBER_WIDTH,
{
    lemma_pow10_of_width();
    lemma_fixed_decimal_shape(n, NUMBER_WIDTH as nat);
    lemma_value_of_fixed_decimal(n, NUMBER_WIDTH as nat);
    assert((number(n) + rest).take(NUMBER_WIDTH as int) =~= number(n));
}

/// A text that starts with a number starts with that number as written.
pub(crate) proof fn lemma_number_of_leading_number(s: Seq<char>)
    requires
        leading_number(s) is Some,
    ensures
        leading_number(s)->0 < number_limit(),
        s == number(leading_number(s)->0) + s.skip(NUMBER_WIDTH as int),
{
    lemma_pow10_of_width();
    lemma_fixed_decimal_of_value(s.take(NUMBER_WIDTH as int));
}

/// The one-character text of a digit.
fn digit_text(value: u8) -> (text: &'static str)
    requires
        value < 10,
    ensures
        text@ == seq![digit(value as nat)],
{
    proof {
        reveal_strlit("0");
        reveal_strlit("1");
        reveal_strlit("2");
        reveal_strlit("3");
        reveal_strlit("4");
        reveal_strlit("5");
        reveal_strlit("6");
        reveal_strlit("7");
        reveal_strlit("8");
        reveal_strlit("9");
    }
    match value {
        0 => "0",
        1 => "1",
        2 => "2",
        3 => "3",
        4 => "4",
        5 => "5",
        6 => "6",
        7 => "7",
        8 => "8",
        _ => "9",
    }
}

/// Appends the last `width` digits of `n` to `out`.
fn push_fixed_decimal(out: &mut String, n: u64, width: usize)
    ensures
        final(out)@ == old(out)@ + fixed_decimal(n as nat, width as nat),
    decreases width,
{
    if width > 0 {
        push_fixed_decimal(out, n / 10, width - 1);
        let last: u8 = (n % 10) as u8;
        out.append(digit_text(last));
    }
}

/// Appends `n` to `out`, in `NUMBER_WIDTH` digits.
pub(crate) fn push_number(out: &mut String, n: u64)
    ensures
        final(out)@ == old(out)@ + number(n as nat),
{
    push_fixed_decimal(out, n, NUMBER_WIDTH);
}

/// Reads the number that starts at the place `pos` of `s`, whose length in
/// characters is `len`.
pub(crate) fn read_number(s: &str, len: usize, pos: usize) -> (value: Option<u128>)
    requires
        len == s@.len(),
        pos <= len,
    ensures
        value is Some <==> leading_number(s@.skip(pos as int)) is Some,
        value matches Some(n) ==> leading_number(s@.skip(pos as int)) == Some(n as nat),
        value is Some ==> pos + NUMBER_WIDTH <= len,
{
    let ghost tail = s@.skip(pos as int);
    if len - pos < NUMBER_WIDTH {
        return None;
    }
    let ghost digits = tail.take(NUMBER_WIDTH as int);
    let mut value: u128 = 0;
    let mut i: usize = 0;
    while i < NUMBER_WIDTH
        invariant
            len == s@.len(),
            pos + NUMBER_WIDTH <= len,
            i <= NUMBER_WIDTH,
            tail == s@.skip(pos as int),
            digits == tail.take(NUMBER_WIDTH as int),
            all_digits(digits.take(i as int)),
            value == decimal_value(digits.take(i as int)),
            value < pow10(i as nat),
        decreases NUMBER_WIDTH - i,
    {
        let c: char = s.get_char(pos + i);
        assert(c == digits[i as int]);
        if !(c >= '0' && c <= '9') {
            return None;
        }
        let d: u128 = (c as u32 - '0' as u32) as u128;
        proof {
            let longer = digits.take(i + 1);
            assert(longer.drop_last() =~= digits.take(i as int));
            lemma_pow10_grows(i as nat, NUMBER_WIDTH as nat);
            lemma_pow10_of_width();
            assert(all_digits(longer));
        }
        value = value * 10 + d;
        i += 1;
    }
    assert(digits.take(NUMBER_WIDTH as int) =~= digits);
    Some(value)
}

} // verus!
