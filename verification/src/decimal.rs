//! Base-ten rendering of unsigned integers.

use vstd::prelude::*;
use vstd::string::*;

verus! {

/// The character that stands for a single decimal digit.
pub open spec fn digit(d: int) -> char
    recommends
        0 <= d < 10,
{
    "0123456789"@[d]
}

/// The canonical decimal numeral of `n`: most significant digit first, no
/// sign, no separators, and no leading zero except for zero itself.
pub open spec fn decimal(n: nat) -> Seq<char>
    decreases n,
{
    if n < 10 {
        seq![digit(n as int)]
    } else {
        decimal(n / 10).push(digit((n % 10) as int))
    }
}

/// The number a digit character stands for.
pub open spec fn digit_value(c: char) -> int {
    "0123456789"@.index_of(c)
}

/// The number that a sequence of digit characters denotes in base ten.
pub open spec fn denoted(s: Seq<char>) -> nat
    decreases s.len(),
{
    if s.len() == 0 {
        0
    } else {
        (denoted(s.drop_last()) * 10 + digit_value(s.last())) as nat
    }
}

/// Whether `c` is one of the ten digit characters.
pub open spec fn is_digit(c: char) -> bool {
    "0123456789"@.contains(c)
}

proof fn lemma_digit(d: int)
    requires
        0 <= d < 10,
    ensures
        is_digit(digit(d)),
        digit_value(digit(d)) == d,
        digit(0) == '0',
{
    reveal_strlit("0123456789");
    let digits = "0123456789"@;
    assert(digits.contains(digits[d]));
}

/// A numeral is never empty, holds digits only, and starts with `0` only when
/// it is the numeral of zero.
pub proof fn lemma_decimal_shape(n: nat)
    ensures
        decimal(n).len() >= 1,
        forall|i: int| 0 <= i < decimal(n).len() ==> is_digit(#[trigger] decimal(n)[i]),
        decimal(n)[0] == '0' <==> n == 0,
    decreases n,
{
    if n < 10 {
        lemma_digit(n as int);
        lemma_digit(0);
    } else {
        lemma_decimal_shape(n / 10);
        lemma_digit((n % 10) as int);
    }
}

/// Reading a numeral back gives the number it was written for, so distinct
/// numbers have distinct numerals.
pub proof fn lemma_decimal_denotes(n: nat)
    ensures
        denoted(decimal(n)) == n,
    decreases n,
{
    if n < 10 {
        lemma_digit(n as int);
        assert(denoted(decimal(n).drop_last()) == 0);
    } else {
        lemma_decimal_denotes(n / 10);
        lemma_digit((n % 10) as int);
        assert(decimal(n).drop_last() =~= decimal(n / 10));
    }
}

/// The one-character string of a single digit.
fn digit_str(d: usize) -> (s: &'static str)
    requires
        d < 10,
    ensures
        s@ == seq![digit(d as int)],
{
    proof {
        reveal_strlit("0123456789");
    }
    "0123456789".substring_ascii(d, d + 1)
}

/// Appends the decimal numeral of `n` to `out`.
pub fn write_decimal(n: u64, out: &mut String)
    ensures
        final(out)@ == old(out)@ + decimal(n as nat),
    decreases n,
{
    if n >= 10 {
        write_decimal(n / 10, out);
    }
    out.append(digit_str((n % 10) as usize));
}

/// The decimal numeral of `n` as a string.
pub fn decimal_string(n: u64) -> (s: String)
    ensures
        s@ == decimal(n as nat),
{
    let mut s = String::new();
    write_decimal(n, &mut s);
    s
}

} // verus!
