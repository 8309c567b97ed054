//! Decimal notation for natural numbers, as sequences of characters.

use vstd::prelude::*;

verus! {

/// Ten to the power `k`.
pub open spec fn pow10(k: nat) -> nat
    decreases k,
{
    if k == 0 {
        1
    } else {
        10 * pow10((k - 1) as nat)
    }
}

/// Whether `c` is one of the ten decimal digits.
pub open spec fn is_digit(c: char) -> bool {
    '0' as u32 <= c as u32 && c as u32 <= '9' as u32
}

/// The digit that stands for `d`, for `d` below ten.
pub open spec fn digit_char(d: nat) -> char {
    (d + '0' as u32) as char
}

/// The number that the digit `c` stands for.
pub open spec fn digit_value(c: char) -> nat {
    (c as u32 - '0' as u32) as nat
}

/// Whether every character of `s` is a decimal digit.
pub open spec fn all_digits(s: Seq<char>) -> bool {
    forall|i: int| 0 <= i < s.len() ==> is_digit(#[trigger] s[i])
}

/// The decimal notation of `n`, without leading zeros; zero is written "0".
pub open spec fn decimal(n: nat) -> Seq<char>
    decreases n,
{
    if n < 10 {
        seq![digit_char(n)]
    } else {
        decimal(n / 10).push(digit_char(n % 10))
    }
}

/// The number that a string of digits denotes; the empty string denotes zero.
pub open spec fn decimal_value(s: Seq<char>) -> nat
    decreases s.len(),
{
    if s.len() == 0 {
        0
    } else {
        decimal_value(s.drop_last()) * 10 + digit_value(s.last())
    }
}

/// `n` zeros.
pub open spec fn zeros(n: nat) -> Seq<char> {
    Seq::new(n, |i: int| '0')
}

/// `s` with zeros put in front until it is at least `width` long.
pub open spec fn zero_pad(s: Seq<char>, width: nat) -> Seq<char> {
    if s.len() >= width {
        s
    } else {
        zeros((width - s.len()) as nat) + s
    }
}

/// `s` without the zeros at its end.
pub open spec fn trim_zeros(s: Seq<char>) -> Seq<char>
    decreases s.len(),
{
    if s.len() > 0 && s.last() == '0' {
        trim_zeros(s.drop_last())
    } else {
        s
    }
}

/// A power of ten is positive.
pub proof fn lemma_pow10_positive(k: nat)
    ensures
        pow10(k) >= 1,
    decreases k,
{
    if k > 0 {
        lemma_pow10_positive((k - 1) as nat);
    }
}

/// The notation of a number is a non-empty string of digits.
pub proof fn lemma_decimal_digits(n: nat)
    ensures
        decimal(n).len() >= 1,
        all_digits(decimal(n)),
    decreases n,
{
    if n >= 10 {
        lemma_decimal_digits(n / 10);
    }
}

/// Only zero is written with a leading zero.
pub proof fn lemma_decimal_leading_digit(n: nat)
    ensures
        decimal(n)[0] == '0' <==> n == 0,
    decreases n,
{
    if n >= 10 {
        lemma_decimal_digits(n / 10);
        lemma_decimal_leading_digit(n / 10);
    }
}

/// Reading the notation of a number gives the number back.
pub proof fn lemma_decimal_round_trip(n: nat)
    ensures
        decimal_value(decimal(n)) == n,
    decreases n,
{
    if n < 10 {
        assert(decimal(n).drop_last() =~= Seq::<char>::empty());
        assert(decimal_value(decimal(n).drop_last()) == 0);
    } else {
        lemma_decimal_round_trip(n / 10);
        assert(decimal(n).drop_last() =~= decimal(n / 10));
    }
}

/// A number below ten to the `k` is written with at most `k` digits.
pub proof fn lemma_decimal_len_bound(n: nat, k: nat)
    requires
        k >= 1,
        n < pow10(k),
    ensures
        decimal(n).len() <= k,
    decreases n,
{
    if n >= 10 {
        assert(pow10(1) == 10) by {
            assert(pow10(0) == 1);
        }
        assert(k >= 2);
        assert(pow10(k) == 10 * pow10((k - 1) as nat));
        lemma_decimal_len_bound(n / 10, (k - 1) as nat);
    }
}

/// A number of at least ten to the `k` is written with more than `k` digits.
pub proof fn lemma_decimal_len_lower(n: nat, k: nat)
    requires
        n >= pow10(k),
    ensures
        decimal(n).len() > k,
    decreases n,
{
    if k > 0 {
        lemma_pow10_positive((k - 1) as nat);
        assert(pow10(k) == 10 * pow10((k - 1) as nat));
        lemma_decimal_len_lower(n / 10, (k - 1) as nat);
    }
}

/// The last digit of a number stands for its remainder by ten.
pub proof fn lemma_decimal_last_digit(n: nat)
    ensures
        decimal(n).len() >= 1,
        decimal(n).last() == digit_char(n % 10),
        decimal(n).last() == '0' <==> n % 10 == 0,
{
    lemma_decimal_digits(n);
}

/// Ten to the `k` is written with `k + 1` digits.
pub proof fn lemma_decimal_pow10_len(k: nat)
    ensures
        decimal(pow10(k)).len() == k + 1,
    decreases k,
{
    if k > 0 {
        lemma_pow10_positive((k - 1) as nat);
        lemma_decimal_pow10_len((k - 1) as nat);
        assert(pow10(k) / 10 == pow10((k - 1) as nat));
    }
}

/// A string of zeros denotes zero.
pub proof fn lemma_value_zeros(n: nat)
    ensures
        decimal_value(zeros(n)) == 0,
    decreases n,
{
    if n > 0 {
        lemma_value_zeros((n - 1) as nat);
        assert(zeros(n).drop_last() =~= zeros((n - 1) as nat));
    }
}

/// Zeros in front do not change what a string denotes.
pub proof fn lemma_value_leading_zeros(z: nat, s: Seq<char>)
    ensures
        decimal_value(zeros(z) + s) == decimal_value(s),
    decreases s.len(),
{
    if s.len() == 0 {
        assert(zeros(z) + s =~= zeros(z));
        lemma_value_zeros(z);
    } else {
        lemma_value_leading_zeros(z, s.drop_last());
        assert((zeros(z) + s).drop_last() =~= zeros(z) + s.drop_last());
    }
}

/// Each zero at the end multiplies what a string denotes by ten.
pub proof fn lemma_value_trailing_zeros(s: Seq<char>, j: nat)
    ensures
        decimal_value(s + zeros(j)) == decimal_value(s) * pow10(j),
    decreases j,
{
    if j == 0 {
        assert(s + zeros(0) =~= s);
        assert(decimal_value(s) * 1 == decimal_value(s)) by (nonlinear_arith);
    } else {
        lemma_value_trailing_zeros(s, (j - 1) as nat);
        assert((s + zeros(j)).drop_last() =~= s + zeros((j - 1) as nat));
        let v = decimal_value(s);
        let p = pow10((j - 1) as nat);
        assert(v * p * 10 == v * (10 * p)) by (nonlinear_arith);
    }
}

/// Trimming removes exactly the zeros at the end: what is left is empty or
/// ends in another character, and putting the zeros back restores the string.
pub proof fn lemma_trim_zeros(s: Seq<char>)
    ensures
        trim_zeros(s).len() <= s.len(),
        s == trim_zeros(s) + zeros((s.len() - trim_zeros(s).len()) as nat),
        trim_zeros(s).len() > 0 ==> trim_zeros(s).last() != '0',
        trim_zeros(s) == s.subrange(0, trim_zeros(s).len() as int),
    decreases s.len(),
{
    if s.len() > 0 && s.last() == '0' {
        let rest = s.drop_last();
        lemma_trim_zeros(rest);
        let t = trim_zeros(rest);
        let back = t + zeros((s.len() - t.len()) as nat);
        assert forall|i: int| 0 <= i < s.len() implies s[i] == back[i] by {
            if i < rest.len() {
                assert(s[i] == rest[i]);
                assert(rest[i] == (t + zeros((rest.len() - t.len()) as nat))[i]);
            }
        }
        assert(s =~= back);
        assert(t =~= s.subrange(0, t.len() as int));
    } else {
        assert(s =~= s + zeros(0));
        assert(s =~= s.subrange(0, s.len() as int));
    }
}

} // verus!
